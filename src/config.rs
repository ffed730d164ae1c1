//! Fixed sizes and addresses of the kernel.
use vstd::prelude::*;

verus! {

/// Size in bytes of each task's user stack (two pages).
pub const USER_STACK_SIZE: usize = 4096 * 2;

/// Size in bytes of each task's kernel stack (two pages).
pub const KERNEL_STACK_SIZE: usize = 4096 * 2;

/// Largest number of applications the kernel holds at once.
pub const MAX_APP_NUM: usize = 4;

/// Physical address of the first application slot.
pub const APP_BASE_ADDRESS: usize = 0x80400000;

/// Size in bytes of each application slot.
pub const APP_SIZE_LIMIT: usize = 0x20000;

/// Timer interrupts per second.
pub const TICKS_PER_SEC: usize = 100;

/// Milliseconds per second.
pub const MSEC_PER_SEC: usize = 1000;

} // verus!
