use vstd::prelude::*;

verus! {

/// The one kind of failure: the kernel refused a call.
///
/// `code` is the platform's error code as it stood right after the call that
/// failed. It is handed on as it came: no code is mapped to another, retried or dropped.
#[derive(Clone, Copy, Debug, PartialEq, Eq, Structural)]
pub struct OsError {
    pub code: i32,
}

} // verus!
