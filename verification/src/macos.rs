//! The fallback for platforms where no per-thread priority control is
//! available at all. Every request is refused with a priority error, so
//! that calling code can handle the refusal gracefully at runtime instead
//! of failing to build.

use vstd::prelude::*;

verus! {

use crate::Error;
use crate::ThreadPriority;

/// Set current thread's priority. On this platform nothing can be set, and
/// the priority remains unchanged.
pub fn set_current_thread_priority(priority: ThreadPriority) -> (r: Result<(), Error>)
    ensures
        r matches Err(Error::Priority(_)),
{
    let _ = priority;
    Err(Error::Priority("Thread priority control is not supported on this platform."))
}

/// Get current thread's priority value. On this platform there is none to
/// read.
pub fn thread_priority() -> (r: Result<ThreadPriority, Error>)
    ensures
        r matches Err(Error::Priority(_)),
{
    Err(Error::Priority("Thread priority control is not supported on this platform."))
}

} // verus!
