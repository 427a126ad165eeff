//! Limits that are fixed when the kernel is built.
use vstd::prelude::*;

verus! {

/// The largest number of applications the task table has room for.
pub const MAX_APP_NUM: usize = 16;

/// The number of system-call identifiers that are counted per task.
pub const MAX_SYSCALL_NUM: usize = 500;

} // verus!
