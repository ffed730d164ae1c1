//! Application slots, per-task stacks and the plan for loading applications.
use vstd::prelude::*;
use crate::config::{APP_BASE_ADDRESS, APP_SIZE_LIMIT, KERNEL_STACK_SIZE, MAX_APP_NUM, USER_STACK_SIZE};
use crate::trap::{TrapContext, SSTATUS_SPP_BIT};

verus! {

/// Size in bytes of a trap context: 34 machine words of 8 bytes.
pub const TRAP_CONTEXT_SIZE: usize = 34 * 8;

/// A task's kernel stack: the address of its buffer and the trap context that
/// was pushed on its top, if any.
#[derive(Copy, Clone)]
pub struct KernelStack {
    pub base: usize,
    pub frame: Option<TrapContext>,
}

/// A task's user stack, by the address of its buffer.
pub struct UserStack {
    pub base: usize,
}

impl KernelStack {
    /// The buffer lies wholly below the top of the address space.
    pub open spec fn wf(&self) -> bool {
        self.base + KERNEL_STACK_SIZE <= usize::MAX
    }

    /// Address one past the end of the buffer (the stack grows down from it).
    pub fn get_sp(&self) -> (r: usize)
        requires
            self.wf(),
        ensures
            r == self.base + KERNEL_STACK_SIZE,
    {
        self.base + KERNEL_STACK_SIZE
    }

    /// Places `trap_cx` on the top of the stack and returns its address.
    pub fn push_context(&mut self, trap_cx: TrapContext) -> (r: usize)
        requires
            old(self).wf(),
        ensures
            r == old(self).base + KERNEL_STACK_SIZE - TRAP_CONTEXT_SIZE,
            old(self).base <= r < old(self).base + KERNEL_STACK_SIZE,
            final(self).base == old(self).base,
            final(self).frame == Some(trap_cx),
    {
        self.frame = Some(trap_cx);
        self.get_sp() - TRAP_CONTEXT_SIZE
    }
}

impl UserStack {
    /// The buffer lies wholly below the top of the address space.
    pub open spec fn wf(&self) -> bool {
        self.base + USER_STACK_SIZE <= usize::MAX
    }

    /// Address one past the end of the buffer.
    pub fn get_sp(&self) -> (r: usize)
        requires
            self.wf(),
        ensures
            r == self.base + USER_STACK_SIZE,
    {
        self.base + USER_STACK_SIZE
    }
}

/// Base address of application `app_id`'s slot.
pub open spec fn app_base(app_id: int) -> int {
    APP_BASE_ADDRESS + app_id * APP_SIZE_LIMIT
}

/// Base address of application `app_id`'s slot.
pub fn get_base_i(app_id: usize) -> (r: usize)
    requires
        app_id < MAX_APP_NUM,
    ensures
        r == app_base(app_id as int),
{
    APP_BASE_ADDRESS + app_id * APP_SIZE_LIMIT
}

/// `frame` is the first-entry context of application `app_id`: it starts at
/// the slot base, with its stack pointer at `user_sp`, in user mode.
pub open spec fn seeded(frame: Option<TrapContext>, app_id: int, user_sp: int) -> bool {
    match frame {
        Some(tc) => {
            &&& tc.sepc == app_base(app_id)
            &&& tc.x[2] == user_sp
            &&& tc.sstatus & SSTATUS_SPP_BIT == 0
        },
        None => false,
    }
}

/// Seeds the kernel stack of application `app_id` with the context it is
/// first entered with (at its slot base, on the top of its user stack, in
/// user mode) and returns the address of that context.
pub fn init_app_cx(
    app_id: usize,
    kernel_stack: &mut KernelStack,
    user_stack: &UserStack,
    sstatus: u64,
) -> (r: usize)
    requires
        app_id < MAX_APP_NUM,
        old(kernel_stack).wf(),
        user_stack.wf(),
    ensures
        r == old(kernel_stack).base + KERNEL_STACK_SIZE - TRAP_CONTEXT_SIZE,
        final(kernel_stack).base == old(kernel_stack).base,
        seeded(final(kernel_stack).frame, app_id as int, user_stack.base + USER_STACK_SIZE),
{
    let entry = get_base_i(app_id);
    let sp = user_stack.get_sp();
    kernel_stack.push_context(TrapContext::app_init_context(entry as u64, sp as u64, sstatus))
}

/// One application to load: its bytes at `src..src + len` go to the slot at
/// `dst`, which is first cleared over `APP_SIZE_LIMIT` bytes.
#[derive(PartialEq, Eq, Structural, Copy, Clone, Debug)]
pub struct LoadSegment {
    pub dst: usize,
    pub src: usize,
    pub len: usize,
}

/// The copies that load the applications described by `app_start`, the start
/// address of each application followed by the end of the last one.
pub fn load_plan(app_start: &Vec<usize>) -> (r: Vec<LoadSegment>)
    requires
        1 <= app_start.len() <= MAX_APP_NUM + 1,
        forall|i: int| 0 <= i < app_start.len() - 1 ==> #[trigger] app_start[i] <= app_start[i + 1],
    ensures
        r.len() == app_start.len() - 1,
        forall|i: int|
            0 <= i < r.len() ==> r[i] == (LoadSegment {
                dst: app_base(i) as usize,
                src: app_start[i],
                len: (app_start[i + 1] - app_start[i]) as usize,
            }),
{
    let num_app = app_start.len() - 1;
    let mut plan: Vec<LoadSegment> = Vec::new();
    let mut i: usize = 0;
    while i < num_app
        invariant
            num_app == app_start.len() - 1,
            num_app <= MAX_APP_NUM,
            i <= num_app,
            forall|k: int| 0 <= k < app_start.len() - 1 ==> #[trigger] app_start[k] <= app_start[k + 1],
            plan.len() == i,
            forall|k: int|
                0 <= k < i ==> plan[k] == (LoadSegment {
                    dst: app_base(k) as usize,
                    src: app_start[k],
                    len: (app_start[k + 1] - app_start[k]) as usize,
                }),
        decreases num_app - i,
    {
        let seg = LoadSegment {
            dst: get_base_i(i),
            src: app_start[i],
            len: app_start[i + 1] - app_start[i],
        };
        plan.push(seg);
        i = i + 1;
    }
    plan
}

} // verus!
