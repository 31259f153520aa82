use vstd::prelude::*;

verus! {

/// One record as it crosses the kernel boundary, in either direction: what a
/// caller wants to hear of a descriptor, or what the kernel reports of it.
///
/// `events` is a set of event-type bits ORed together and `data` a value that the
/// kernel hands back untouched. Neither is interpreted or checked here. How the
/// record lies in memory when the kernel reads or writes it is the concern of
/// whoever makes the call; here it is two plain values.
#[derive(Clone, Copy, Debug)]
pub struct EpollEvent {
    pub events: i32,
    pub data: u64,
}

} // verus!
