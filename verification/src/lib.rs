//! The deciding half of a binding to the Linux readiness-notification calls
//! `epoll_create1`, `epoll_ctl`, `epoll_wait` and `close`.
//!
//! The kernel answers each of these calls with a value and, where the value is
//! negative, with an error code of the platform. Whoever makes the call hands
//! both to the function of the same name here, which says what the answer means:
//! the handle, the number of ready descriptors and their records, or the error.
//! Nothing here talks to the kernel, keeps state between calls, or retries.

pub mod error;
pub mod event;
pub mod ops;

pub use error::OsError;
pub use event::EpollEvent;
pub use ops::{close, epoll_create1, epoll_ctl, epoll_wait, RawFd};
