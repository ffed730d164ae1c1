//! The task context: registers saved at a voluntary switch point.
use vstd::prelude::*;

verus! {

/// Return address, kernel stack pointer and the twelve callee-saved
/// registers `s0..s11` of a task that is not running.
#[derive(Copy, Clone)]
pub struct TaskContext {
    pub ra: usize,
    pub sp: usize,
    pub s: [usize; 12],
}

impl TaskContext {
    /// A context with every register zero.
    pub fn zero_init() -> (r: Self)
        ensures
            r.ra == 0,
            r.sp == 0,
            forall|i: int| 0 <= i < 12 ==> r.s[i] == 0,
    {
        Self { ra: 0, sp: 0, s: [0; 12] }
    }

    /// A context whose switch "returns" into the trap-return trampoline at
    /// `restore_addr`, on the kernel stack at `kstack_ptr`.
    pub fn goto_restore(restore_addr: usize, kstack_ptr: usize) -> (r: Self)
        ensures
            r.ra == restore_addr,
            r.sp == kstack_ptr,
            forall|i: int| 0 <= i < 12 ==> r.s[i] == 0,
    {
        Self { ra: restore_addr, sp: kstack_ptr, s: [0; 12] }
    }
}

} // verus!
