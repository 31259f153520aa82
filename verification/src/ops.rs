use crate::error::OsError;
use crate::event::EpollEvent;
use vstd::prelude::*;

verus! {

/// A file descriptor as the kernel numbers it.
pub type RawFd = i32;

/// What a caller's buffer holds after a wait that reported `count` ready
/// descriptors: the first `count` records are those that the kernel wrote, in its
/// order, and every later record is as it was.
pub open spec fn buffer_after_wait(
    before: Seq<EpollEvent>,
    filled: Seq<EpollEvent>,
    count: int,
) -> Seq<EpollEvent> {
    Seq::new(before.len(), |i: int| if i < count { filled[i] } else { before[i] })
}

/// The front of the buffer after a wait is what the kernel wrote, record for
/// record, and the rest of the buffer is what stood there before: a record that
/// the kernel hands back is found among the first `count`, with the mask and the
/// user data that the kernel gave it, and nothing behind them is disturbed.
pub proof fn lemma_buffer_after_wait(
    before: Seq<EpollEvent>,
    filled: Seq<EpollEvent>,
    count: int,
)
    requires
        0 <= count <= before.len(),
        count <= filled.len(),
    ensures
        buffer_after_wait(before, filled, count).len() == before.len(),
        buffer_after_wait(before, filled, count).subrange(0, count) == filled.subrange(0, count),
        buffer_after_wait(before, filled, count).subrange(count, before.len() as int)
            == before.subrange(count, before.len() as int),
        count == 0 ==> buffer_after_wait(before, filled, count) == before,
{
    let after = buffer_after_wait(before, filled, count);
    assert(after.subrange(0, count) =~= filled.subrange(0, count));
    assert(after.subrange(count, before.len() as int) =~= before.subrange(
        count,
        before.len() as int,
    ));
    if count == 0 {
        assert(after =~= before);
    }
}

/// Reads the kernel's answer to `epoll_create1`.
///
/// `ret` is the value that the call returned and `errno` the platform's error
/// code right after it. A negative `ret` is the failure sentinel: the answer is
/// then the error with that code. Any other `ret` is the handle of the new poll
/// instance, and `errno` goes unread.
pub fn epoll_create1(ret: i32, errno: i32) -> (r: Result<RawFd, OsError>)
    ensures
        ret < 0 ==> r == Err::<RawFd, OsError>(OsError { code: errno }),
        ret >= 0 ==> r == Ok::<RawFd, OsError>(ret),
        r is Ok ==> r->Ok_0 >= 0,
{
    if ret < 0 {
        Err(OsError { code: errno })
    } else {
        Ok(ret)
    }
}

/// Reads the kernel's answer to `epoll_ctl`.
///
/// A negative `ret` is the failure sentinel: the answer is then the error with
/// the code `errno`, whatever the kernel objected to (the target descriptor, the
/// operation against what is registered, the event mask). Any other `ret` says
/// that the interest set was changed as asked.
pub fn epoll_ctl(ret: i32, errno: i32) -> (r: Result<(), OsError>)
    ensures
        ret < 0 ==> r == Err::<(), OsError>(OsError { code: errno }),
        ret >= 0 ==> r == Ok::<(), OsError>(()),
{
    if ret < 0 {
        Err(OsError { code: errno })
    } else {
        Ok(())
    }
}

/// Reads the kernel's answer to `epoll_wait` and copies the records that it
/// reported into the caller's buffer.
///
/// `max_events` is the number of records that the kernel was given room for, and
/// `filled` the memory that it wrote to. A negative `ret` is the failure
/// sentinel, an interrupted wait included: the answer is then the error with the
/// code `errno`, and `events` is left as it was. Any other `ret` is the number of
/// ready descriptors: the first `ret` records of `filled` are copied to the front
/// of `events`, the rest of `events` is left as it was, and the answer is that
/// number. Zero is such an answer: the timeout passed with nothing ready.
///
/// Both buffers must have room for `max_events` records, and the kernel reports
/// no more than that many. Neither is tested here: the caller sees to it.
pub fn epoll_wait(
    events: &mut [EpollEvent],
    max_events: i32,
    filled: &[EpollEvent],
    ret: i32,
    errno: i32,
) -> (r: Result<usize, OsError>)
    requires
        max_events <= old(events)@.len(),
        max_events <= filled@.len(),
        ret < 0 || ret <= max_events,
    ensures
        ret < 0 ==> r == Err::<usize, OsError>(OsError { code: errno }),
        ret <= 0 ==> final(events)@ == old(events)@,
        ret >= 0 ==> r == Ok::<usize, OsError>(ret as usize),
        ret >= 0 ==> final(events)@ == buffer_after_wait(old(events)@, filled@, ret as int),
        r is Ok ==> r->Ok_0 <= max_events,
        final(events)@.len() == old(events)@.len(),
{
    if ret < 0 {
        return Err(OsError { code: errno });
    }
    let count: usize = ret as usize;
    let mut i: usize = 0;
    while i < count
        invariant
            i <= count,
            count <= filled@.len(),
            count <= events@.len(),
            events@ == buffer_after_wait(old(events)@, filled@, i as int),
        decreases count - i,
    {
        events[i] = filled[i];
        i += 1;
    }
    proof {
        lemma_buffer_after_wait(old(events)@, filled@, ret as int);
    }
    Ok(count)
}

/// Reads the kernel's answer to `close`.
///
/// A negative `ret` is the failure sentinel: the answer is then the error with
/// the code `errno`. Any other `ret` says that the descriptor was released.
pub fn close(ret: i32, errno: i32) -> (r: Result<(), OsError>)
    ensures
        ret < 0 ==> r == Err::<(), OsError>(OsError { code: errno }),
        ret >= 0 ==> r == Ok::<(), OsError>(()),
{
    if ret < 0 {
        Err(OsError { code: errno })
    } else {
        Ok(())
    }
}

} // verus!
