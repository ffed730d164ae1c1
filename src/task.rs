//! Task control blocks and the round-robin task manager.
use vstd::prelude::*;
use crate::config::{KERNEL_STACK_SIZE, MAX_APP_NUM, USER_STACK_SIZE};
use crate::context::TaskContext;
use crate::loader::{init_app_cx, seeded, KernelStack, UserStack, TRAP_CONTEXT_SIZE};
use crate::sync::UPSafeCell;

verus! {

/// Life-cycle state of a task.
#[derive(PartialEq, Eq, Structural, Copy, Clone, Debug)]
pub enum TaskStatus {
    UnInit,
    Ready,
    Running,
    Exited,
}

/// A task's state and the registers saved when it last switched away.
#[derive(Copy, Clone)]
pub struct TaskControlBlock {
    pub task_status: TaskStatus,
    pub task_cx: TaskContext,
}

/// The mutable part of the task manager.
pub struct TaskManagerInner {
    pub tasks: Vec<TaskControlBlock>,
    pub current_task: usize,
}

/// The task table of `num_app` tasks and the cursor of the current task.
pub struct TaskManager {
    pub num_app: usize,
    pub inner: UPSafeCell<TaskManagerInner>,
}

/// A context switch from task `from` to task `to`.
#[derive(PartialEq, Eq, Structural, Copy, Clone, Debug)]
pub struct Switch {
    pub from: usize,
    pub to: usize,
}

/// The index reached `k` steps after `cur` in a ring of `n` tasks
/// (for `cur < n`, `0 <= k <= n`).
pub open spec fn scan_index(cur: int, k: int, n: int) -> int {
    if cur + k < n { cur + k } else { cur + k - n }
}

/// The first Ready task among the steps `k, k + 1, ..., s.len()` after `cur`.
pub open spec fn first_ready_from(s: Seq<TaskStatus>, cur: int, k: int) -> Option<int>
    decreases s.len() + 1 - k,
{
    if k < 1 || k > s.len() {
        None
    } else if s[scan_index(cur, k, s.len() as int)] == TaskStatus::Ready {
        Some(scan_index(cur, k, s.len() as int))
    } else {
        first_ready_from(s, cur, k + 1)
    }
}

/// The task that round-robin selects after `cur`: the first Ready one in the
/// order `cur + 1, cur + 2, ..., cur` (wrapping), if any.
pub open spec fn next_ready(s: Seq<TaskStatus>, cur: int) -> Option<int> {
    first_ready_from(s, cur, 1)
}

/// What `first_ready_from` returns is a Ready task, reached by a step in
/// `k..=s.len()`.
pub proof fn lemma_first_ready_is_ready(s: Seq<TaskStatus>, cur: int, k: int)
    requires
        0 <= cur < s.len(),
        1 <= k,
    ensures
        first_ready_from(s, cur, k) matches Some(j) ==> {
            &&& 0 <= j < s.len()
            &&& s[j] == TaskStatus::Ready
            &&& exists|m: int| k <= m <= s.len() && j == scan_index(cur, m, s.len() as int)
        },
    decreases s.len() + 1 - k,
{
    if k <= s.len() && s[scan_index(cur, k, s.len() as int)] != TaskStatus::Ready {
        lemma_first_ready_is_ready(s, cur, k + 1);
    }
}

/// A Ready task `m` steps after `cur` bounds the search: a Ready task is
/// found within the steps `k..=m`.
pub proof fn lemma_first_ready_within(s: Seq<TaskStatus>, cur: int, k: int, m: int)
    requires
        0 <= cur < s.len(),
        1 <= k <= m <= s.len(),
        s[scan_index(cur, m, s.len() as int)] == TaskStatus::Ready,
    ensures
        exists|m2: int|
            k <= m2 <= m && first_ready_from(s, cur, k) == Some(scan_index(cur, m2, s.len() as int)),
    decreases m - k,
{
    if s[scan_index(cur, k, s.len() as int)] != TaskStatus::Ready {
        lemma_first_ready_within(s, cur, k + 1, m);
        let m2 = choose|m2: int|
            k + 1 <= m2 <= m && first_ready_from(s, cur, k + 1) == Some(scan_index(cur, m2, s.len() as int));
        assert(k <= m2 <= m && first_ready_from(s, cur, k) == Some(scan_index(cur, m2, s.len() as int)));
    } else {
        assert(first_ready_from(s, cur, k) == Some(scan_index(cur, k, s.len() as int)));
    }
}

/// The scheduler's move once the current task has left the Running state and
/// the states read `s1`: the next Ready task after it becomes Running and
/// current, and `r` is the switch to it; with none, the states stay `s1`, the
/// cursor stays, and `r` is `None`.
pub open spec fn dispatch_step(pre: TaskManager, s1: Seq<TaskStatus>, post: TaskManager, r: Option<Switch>) -> bool {
    &&& post.wf()
    &&& post.num_app == pre.num_app
    &&& post.same_contexts(&pre)
    &&& match next_ready(s1, pre.current()) {
        Some(j) => {
            &&& r == Some(Switch { from: pre.current() as usize, to: j as usize })
            &&& post.current() == j
            &&& post.statuses() == s1.update(j, TaskStatus::Running)
        },
        None => {
            &&& r == None::<Switch>
            &&& post.current() == pre.current()
            &&& post.statuses() == s1
        },
    }
}

/// The current task of `pre` yields (becomes Ready) and the next task is
/// dispatched.
pub open spec fn suspend_step(pre: TaskManager, post: TaskManager, r: Option<Switch>) -> bool {
    dispatch_step(pre, pre.statuses().update(pre.current(), TaskStatus::Ready), post, r)
}

/// The current task of `pre` ends (becomes Exited) and the next task is
/// dispatched.
pub open spec fn exit_step(pre: TaskManager, post: TaskManager, r: Option<Switch>) -> bool {
    dispatch_step(pre, pre.statuses().update(pre.current(), TaskStatus::Exited), post, r)
}

/// `post` is `pre` with nothing changed that the contracts speak of.
pub open spec fn unchanged(pre: TaskManager, post: TaskManager) -> bool {
    &&& post.wf() == pre.wf()
    &&& post.num_app == pre.num_app
    &&& post.current() == pre.current()
    &&& post.statuses() == pre.statuses()
    &&& post.same_contexts(&pre)
}

impl TaskManager {
    /// The task control blocks.
    pub open spec fn tasks(&self) -> Seq<TaskControlBlock> {
        self.inner.value().tasks@
    }

    /// The state of each task.
    pub open spec fn statuses(&self) -> Seq<TaskStatus> {
        Seq::new(self.num_app as nat, |i: int| self.tasks()[i].task_status)
    }

    /// Index of the current task.
    pub open spec fn current(&self) -> int {
        self.inner.value().current_task as int
    }

    /// Well-formedness: the table holds `num_app` initialised tasks, the
    /// cursor is in range, and only the current task may be Running.
    pub open spec fn wf(&self) -> bool {
        &&& 1 <= self.num_app <= MAX_APP_NUM
        &&& self.tasks().len() == self.num_app
        &&& 0 <= self.current() < self.num_app
        &&& forall|i: int|
            0 <= i < self.num_app && #[trigger] self.statuses()[i] == TaskStatus::Running
                ==> i == self.current()
        &&& forall|i: int| 0 <= i < self.num_app ==> #[trigger] self.statuses()[i] != TaskStatus::UnInit
    }

    /// The task contexts of `self` and `other` agree.
    pub open spec fn same_contexts(&self, other: &Self) -> bool {
        &&& self.tasks().len() == other.tasks().len()
        &&& forall|i: int|
            0 <= i < self.tasks().len() ==> #[trigger] self.tasks()[i].task_cx == other.tasks()[i].task_cx
    }

    /// The next task to run: the first Ready task in the order
    /// `current + 1, current + 2, ..., current` (wrapping), if any.
    pub fn find_next_task(&self) -> (r: Option<usize>)
        requires
            self.wf(),
        ensures
            match r {
                Some(j) => next_ready(self.statuses(), self.current()) == Some(j as int),
                None => next_ready(self.statuses(), self.current()) == None::<int>,
            },
    {
        let inner = self.inner.shared_access();
        let current = inner.current_task;
        let n = self.num_app;
        let ghost s = self.statuses();
        let mut k: usize = 1;
        while k <= n
            invariant
                self.wf(),
                *inner == self.inner.value(),
                current == self.current(),
                n == self.num_app,
                s == self.statuses(),
                1 <= k <= n + 1,
                next_ready(s, current as int) == first_ready_from(s, current as int, k as int),
            decreases n + 1 - k,
        {
            let id: usize = if current + k < n { current + k } else { current + k - n };
            assert(id == scan_index(current as int, k as int, n as int));
            if inner.tasks[id].task_status == TaskStatus::Ready {
                assert(s[id as int] == TaskStatus::Ready);
                return Some(id);
            }
            k = k + 1;
        }
        None
    }

    /// Sets the state of task `i`; the rest of the table stays as it was.
    fn set_status(&mut self, i: usize, status: TaskStatus)
        requires
            i < old(self).num_app,
            old(self).tasks().len() == old(self).num_app,
        ensures
            final(self).num_app == old(self).num_app,
            final(self).current() == old(self).current(),
            final(self).tasks().len() == old(self).tasks().len(),
            final(self).statuses() == old(self).statuses().update(i as int, status),
            final(self).same_contexts(old(self)),
    {
        let inner = self.inner.exclusive_access();
        let mut t = inner.tasks[i];
        t.task_status = status;
        inner.tasks.set(i, t);
        assert(self.statuses() =~= old(self).statuses().update(i as int, status));
    }

    /// Running to Ready: the current task yields the processor.
    pub fn mark_current_suspended(&mut self)
        requires
            old(self).wf(),
            old(self).statuses()[old(self).current()] == TaskStatus::Running,
        ensures
            final(self).wf(),
            final(self).num_app == old(self).num_app,
            final(self).current() == old(self).current(),
            final(self).statuses() == old(self).statuses().update(old(self).current(), TaskStatus::Ready),
            final(self).same_contexts(old(self)),
    {
        let current = self.inner.shared_access().current_task;
        self.set_status(current, TaskStatus::Ready);
    }

    /// Running to Exited: the current task ends for good.
    pub fn mark_current_exited(&mut self)
        requires
            old(self).wf(),
            old(self).statuses()[old(self).current()] == TaskStatus::Running,
        ensures
            final(self).wf(),
            final(self).num_app == old(self).num_app,
            final(self).current() == old(self).current(),
            final(self).statuses() == old(self).statuses().update(old(self).current(), TaskStatus::Exited),
            final(self).same_contexts(old(self)),
    {
        let current = self.inner.shared_access().current_task;
        self.set_status(current, TaskStatus::Exited);
    }

    /// Dispatches the next Ready task, once the current one has left the
    /// Running state: it becomes Running and current, and the switch from the
    /// old current task to it is returned. With no Ready task, nothing changes
    /// and `None` is returned: every task has completed.
    pub fn run_next_task(&mut self) -> (r: Option<Switch>)
        requires
            old(self).wf(),
            old(self).statuses()[old(self).current()] != TaskStatus::Running,
        ensures
            final(self).wf(),
            final(self).num_app == old(self).num_app,
            final(self).same_contexts(old(self)),
            match next_ready(old(self).statuses(), old(self).current()) {
                Some(j) => {
                    &&& r == Some(Switch { from: old(self).current() as usize, to: j as usize })
                    &&& final(self).current() == j
                    &&& final(self).statuses() == old(self).statuses().update(j, TaskStatus::Running)
                },
                None => {
                    &&& r == None::<Switch>
                    &&& final(self).current() == old(self).current()
                    &&& final(self).statuses() == old(self).statuses()
                },
            },
    {
        let ghost s = self.statuses();
        proof {
            lemma_first_ready_is_ready(s, self.current(), 1);
        }
        match self.find_next_task() {
            Some(next) => {
                let current = self.inner.shared_access().current_task;
                self.set_status(next, TaskStatus::Running);
                let inner = self.inner.exclusive_access();
                inner.current_task = next;
                proof {
                    assert forall|i: int|
                        0 <= i < self.num_app && #[trigger] self.statuses()[i] == TaskStatus::Running
                        implies i == self.current() by {
                        if i != next {
                            assert(s[i] == TaskStatus::Running);
                        }
                    }
                    assert forall|i: int| 0 <= i < self.num_app
                        implies #[trigger] self.statuses()[i] != TaskStatus::UnInit by {
                        assert(s[i] != TaskStatus::UnInit);
                    }
                }
                Some(Switch { from: current, to: next })
            },
            None => None,
        }
    }

    /// The current task yields: it becomes Ready and the next task in
    /// round-robin order (possibly itself) is dispatched.
    pub fn suspend_current_and_run_next(&mut self) -> (r: Option<Switch>)
        requires
            old(self).wf(),
            old(self).statuses()[old(self).current()] == TaskStatus::Running,
        ensures
            suspend_step(*old(self), *final(self), r),
            r is Some,
    {
        let ghost s1 = old(self).statuses().update(old(self).current(), TaskStatus::Ready);
        self.mark_current_suspended();
        proof {
            let n = self.num_app as int;
            let c = self.current();
            assert(scan_index(c, n, n) == c);
            lemma_first_ready_within(s1, c, 1, n);
        }
        self.run_next_task()
    }

    /// The current task ends: it becomes Exited and the next Ready task is
    /// dispatched; `None` when no task is Ready.
    pub fn exit_current_and_run_next(&mut self) -> (r: Option<Switch>)
        requires
            old(self).wf(),
            old(self).statuses()[old(self).current()] == TaskStatus::Running,
        ensures
            exit_step(*old(self), *final(self), r),
    {
        self.mark_current_exited();
        self.run_next_task()
    }

    /// Dispatches the first task: task 0 becomes Running and is returned as
    /// the task to switch to.
    pub fn run_first_task(&mut self) -> (r: usize)
        requires
            old(self).wf(),
            old(self).current() == 0,
            old(self).statuses()[0] == TaskStatus::Ready,
        ensures
            r == 0,
            final(self).wf(),
            final(self).num_app == old(self).num_app,
            final(self).current() == 0,
            final(self).statuses() == old(self).statuses().update(0, TaskStatus::Running),
            final(self).same_contexts(old(self)),
    {
        let ghost s = self.statuses();
        self.set_status(0, TaskStatus::Running);
        proof {
            assert forall|i: int|
                0 <= i < self.num_app && #[trigger] self.statuses()[i] == TaskStatus::Running
                implies i == self.current() by {
                if i != 0 {
                    assert(s[i] == TaskStatus::Running);
                }
            }
            assert forall|i: int| 0 <= i < self.num_app
                implies #[trigger] self.statuses()[i] != TaskStatus::UnInit by {
                assert(s[i] != TaskStatus::UnInit);
            }
        }
        0
    }

    /// The state of task `i`.
    pub fn status(&self, i: usize) -> (r: TaskStatus)
        requires
            self.wf(),
            i < self.num_app,
        ensures
            r == self.statuses()[i as int],
    {
        self.inner.shared_access().tasks[i].task_status
    }

    /// Index of the current task.
    pub fn current_task(&self) -> (r: usize)
        requires
            self.wf(),
        ensures
            r == self.current(),
    {
        self.inner.shared_access().current_task
    }

    /// The saved task context of task `i`.
    pub fn task_context(&self, i: usize) -> (r: TaskContext)
        requires
            self.wf(),
            i < self.num_app,
        ensures
            r == self.tasks()[i as int].task_cx,
    {
        self.inner.shared_access().tasks[i].task_cx
    }

    /// Builds the table of `num_app` tasks. Task `i` gets a trap context on
    /// the top of `kernel_stacks[i]` that enters its slot on the top of
    /// `user_stacks[i]` in user mode, a task context that returns into the
    /// trap-return trampoline at `restore_addr` on that trap context, and the
    /// Ready state. Task 0 is current.
    pub fn new(
        num_app: usize,
        restore_addr: usize,
        kernel_stacks: &mut Vec<KernelStack>,
        user_stacks: &Vec<UserStack>,
        sstatus: u64,
    ) -> (r: Self)
        requires
            1 <= num_app <= MAX_APP_NUM,
            old(kernel_stacks).len() >= num_app,
            user_stacks.len() >= num_app,
            forall|i: int| 0 <= i < num_app ==> #[trigger] old(kernel_stacks)[i].wf(),
            forall|i: int| 0 <= i < num_app ==> #[trigger] user_stacks[i].wf(),
        ensures
            r.wf(),
            r.num_app == num_app,
            r.current() == 0,
            forall|i: int| 0 <= i < num_app ==> #[trigger] r.statuses()[i] == TaskStatus::Ready,
            forall|i: int| 0 <= i < num_app ==> {
                let cx = #[trigger] r.tasks()[i].task_cx;
                &&& cx.ra == restore_addr
                &&& cx.sp == old(kernel_stacks)[i].base + KERNEL_STACK_SIZE - TRAP_CONTEXT_SIZE
                &&& forall|k: int| 0 <= k < 12 ==> cx.s[k] == 0
            },
            final(kernel_stacks).len() == old(kernel_stacks).len(),
            forall|i: int| 0 <= i < final(kernel_stacks).len() ==> (#[trigger] final(kernel_stacks)[i]).base == old(kernel_stacks)[i].base,
            forall|i: int| 0 <= i < num_app ==> seeded((#[trigger] final(kernel_stacks)[i]).frame, i, user_stacks[i].base + USER_STACK_SIZE),
            forall|i: int| num_app <= i < final(kernel_stacks).len() ==> #[trigger] final(kernel_stacks)[i] == old(kernel_stacks)[i],
    {
        let mut tasks: Vec<TaskControlBlock> = Vec::new();
        let mut i: usize = 0;
        while i < num_app
            invariant
                1 <= num_app <= MAX_APP_NUM,
                i <= num_app,
                tasks.len() == i,
                kernel_stacks.len() == old(kernel_stacks).len(),
                kernel_stacks.len() >= num_app,
                user_stacks.len() >= num_app,
                forall|j: int| 0 <= j < kernel_stacks.len() ==> (#[trigger] kernel_stacks[j]).base == old(kernel_stacks)[j].base,
                forall|j: int| i <= j < kernel_stacks.len() ==> #[trigger] kernel_stacks[j] == old(kernel_stacks)[j],
                forall|j: int| 0 <= j < num_app ==> #[trigger] old(kernel_stacks)[j].wf(),
                forall|j: int| 0 <= j < num_app ==> #[trigger] user_stacks[j].wf(),
                forall|j: int| 0 <= j < i ==> seeded((#[trigger] kernel_stacks[j]).frame, j, user_stacks[j].base + USER_STACK_SIZE),
                forall|j: int| 0 <= j < i ==> (#[trigger] tasks[j]).task_status == TaskStatus::Ready,
                forall|j: int| 0 <= j < i ==> {
                    let cx = (#[trigger] tasks[j]).task_cx;
                    &&& cx.ra == restore_addr
                    &&& cx.sp == old(kernel_stacks)[j].base + KERNEL_STACK_SIZE - TRAP_CONTEXT_SIZE
                    &&& forall|k: int| 0 <= k < 12 ==> cx.s[k] == 0
                },
            decreases num_app - i,
        {
            let mut stack = kernel_stacks[i];
            assert(stack.wf());
            let kstack_ptr = init_app_cx(i, &mut stack, &user_stacks[i], sstatus);
            kernel_stacks.set(i, stack);
            tasks.push(TaskControlBlock {
                task_status: TaskStatus::Ready,
                task_cx: TaskContext::goto_restore(restore_addr, kstack_ptr),
            });
            i = i + 1;
        }
        let r = TaskManager {
            num_app,
            inner: UPSafeCell::new(TaskManagerInner { tasks, current_task: 0 }),
        };
        assert forall|j: int| 0 <= j < num_app implies #[trigger] r.statuses()[j] == TaskStatus::Ready by {
            assert(tasks[j].task_status == TaskStatus::Ready);
        }
        r
    }
}

} // verus!

verus! {

/// A switch goes from the old current task to a Ready task of `s1`.
proof fn lemma_dispatch_target(pre: TaskManager, s1: Seq<TaskStatus>, post: TaskManager, r: Option<Switch>)
    requires
        pre.wf(),
        s1.len() == pre.num_app,
        dispatch_step(pre, s1, post, r),
    ensures
        r matches Some(sw) ==> {
            &&& sw.from == pre.current()
            &&& 0 <= sw.to < pre.num_app
            &&& s1[sw.to as int] == TaskStatus::Ready
        },
{
    lemma_first_ready_is_ready(s1, pre.current(), 1);
}

/// At most one task is Running, in every well-formed state.
pub proof fn lemma_at_most_one_running(tm: TaskManager, i: int, j: int)
    requires
        tm.wf(),
        0 <= i < tm.num_app,
        0 <= j < tm.num_app,
        tm.statuses()[i] == TaskStatus::Running,
        tm.statuses()[j] == TaskStatus::Running,
    ensures
        i == j,
{
}

/// An exiting task is never switched to itself; a yielding task is switched
/// to another task whenever some other task is Ready.
pub proof fn lemma_no_self_switch(pre: TaskManager, post: TaskManager, r: Option<Switch>, other: int)
    requires
        pre.wf(),
        pre.statuses()[pre.current()] == TaskStatus::Running,
    ensures
        exit_step(pre, post, r) && r is Some ==> r->0.from != r->0.to,
        suspend_step(pre, post, r) && r is Some && 0 <= other < pre.num_app && other != pre.current()
            && pre.statuses()[other] == TaskStatus::Ready ==> r->0.from != r->0.to,
{
    let n = pre.num_app as int;
    let c = pre.current();
    let se = pre.statuses().update(c, TaskStatus::Exited);
    let sr = pre.statuses().update(c, TaskStatus::Ready);
    if exit_step(pre, post, r) {
        lemma_dispatch_target(pre, se, post, r);
    }
    if suspend_step(pre, post, r) && r is Some && 0 <= other < n && other != c
        && pre.statuses()[other] == TaskStatus::Ready {
        let m = if other > c { other - c } else { other + n - c };
        assert(scan_index(c, m, n) == other);
        lemma_first_ready_within(sr, c, 1, m);
        let m2 = choose|m2: int| 1 <= m2 <= m && first_ready_from(sr, c, 1) == Some(scan_index(c, m2, n));
        assert(scan_index(c, m2, n) != c);
    }
}

/// Round robin: when the task after the current one (wrapping) is Ready, a
/// yield switches to it; when every task but the current one is Ready, that
/// stays so after the yield, so the tasks take turns in index order.
pub proof fn lemma_round_robin(pre: TaskManager, post: TaskManager, r: Option<Switch>)
    requires
        pre.wf(),
        pre.statuses()[pre.current()] == TaskStatus::Running,
        suspend_step(pre, post, r),
    ensures
        pre.statuses()[scan_index(pre.current(), 1, pre.num_app as int)] == TaskStatus::Ready
            ==> r == Some(Switch {
                from: pre.current() as usize,
                to: scan_index(pre.current(), 1, pre.num_app as int) as usize,
            }),
        pre.num_app > 1 && (forall|i: int|
            0 <= i < pre.num_app && i != pre.current() ==> #[trigger] pre.statuses()[i] == TaskStatus::Ready)
            ==> post.current() == scan_index(pre.current(), 1, pre.num_app as int) && (forall|i: int|
                0 <= i < post.num_app && i != post.current() ==> #[trigger] post.statuses()[i] == TaskStatus::Ready),
{
    let n = pre.num_app as int;
    let c = pre.current();
    let sr = pre.statuses().update(c, TaskStatus::Ready);
    assert(first_ready_from(sr, c, 1) == if sr[scan_index(c, 1, n)] == TaskStatus::Ready {
        Some(scan_index(c, 1, n))
    } else {
        first_ready_from(sr, c, 2)
    });
    if pre.num_app > 1 && (forall|i: int|
        0 <= i < pre.num_app && i != pre.current() ==> #[trigger] pre.statuses()[i] == TaskStatus::Ready) {
        assert(scan_index(c, 1, n) != c);
        assert(pre.statuses()[scan_index(c, 1, n)] == TaskStatus::Ready);
    }
}

/// The task at the last index yields to task 0 whenever task 0 is Ready.
pub proof fn lemma_last_wraps_to_first(pre: TaskManager, post: TaskManager, r: Option<Switch>)
    requires
        pre.wf(),
        pre.current() == pre.num_app - 1,
        pre.statuses()[pre.current()] == TaskStatus::Running,
        pre.statuses()[0] == TaskStatus::Ready,
        suspend_step(pre, post, r),
    ensures
        r == Some(Switch { from: (pre.num_app - 1) as usize, to: 0 }),
        post.current() == 0,
{
    lemma_round_robin(pre, post, r);
}

/// With a single task, a yield selects that task again and an exit leaves no
/// task to run.
pub proof fn lemma_single_task(pre: TaskManager, post: TaskManager, r: Option<Switch>)
    requires
        pre.wf(),
        pre.num_app == 1,
        pre.statuses()[0] == TaskStatus::Running,
    ensures
        suspend_step(pre, post, r) ==> r == Some(Switch { from: 0, to: 0 }),
        exit_step(pre, post, r) ==> r == None::<Switch>,
{
    let se = pre.statuses().update(0, TaskStatus::Exited);
    assert(first_ready_from(se, 0, 2) == None::<int>);
    if suspend_step(pre, post, r) {
        lemma_round_robin(pre, post, r);
    }
}

/// An Exited task stays Exited and is never switched to.
pub proof fn lemma_exited_stays_exited(pre: TaskManager, post: TaskManager, r: Option<Switch>, i: int)
    requires
        pre.wf(),
        pre.statuses()[pre.current()] == TaskStatus::Running,
        0 <= i < pre.num_app,
        pre.statuses()[i] == TaskStatus::Exited,
        suspend_step(pre, post, r) || exit_step(pre, post, r),
    ensures
        post.statuses()[i] == TaskStatus::Exited,
        r matches Some(sw) ==> sw.to != i,
        next_ready(pre.statuses(), pre.current()) != Some(i),
{
    let c = pre.current();
    if suspend_step(pre, post, r) {
        lemma_dispatch_target(pre, pre.statuses().update(c, TaskStatus::Ready), post, r);
    } else {
        lemma_dispatch_target(pre, pre.statuses().update(c, TaskStatus::Exited), post, r);
    }
    lemma_first_ready_is_ready(pre.statuses(), c, 1);
}

/// Along a run of yields from a state in which every task but the current one
/// is Ready, the state before yield `k` has the task `k` steps after the first
/// current task Running and every other task Ready.
proof fn lemma_window_state(ms: Seq<TaskManager>, rs: Seq<Option<Switch>>, k: int)
    requires
        ms.len() == rs.len() + 1,
        rs.len() <= ms[0].num_app,
        0 <= k <= rs.len(),
        ms[0].wf(),
        ms[0].statuses()[ms[0].current()] == TaskStatus::Running,
        forall|i: int| 0 <= i < ms[0].num_app && i != ms[0].current()
            ==> #[trigger] ms[0].statuses()[i] == TaskStatus::Ready,
        forall|j: int| 0 <= j < rs.len() ==> #[trigger] suspend_step(ms[j], ms[j + 1], rs[j]),
    ensures
        ms[k].wf(),
        ms[k].num_app == ms[0].num_app,
        ms[k].current() == scan_index(ms[0].current(), k, ms[0].num_app as int),
        ms[k].statuses()[ms[k].current()] == TaskStatus::Running,
        forall|i: int| 0 <= i < ms[k].num_app && i != ms[k].current()
            ==> #[trigger] ms[k].statuses()[i] == TaskStatus::Ready,
    decreases k,
{
    if k > 0 {
        lemma_window_state(ms, rs, k - 1);
        let j = k - 1;
        let pre = ms[j];
        assert(suspend_step(ms[j], ms[j + 1], rs[j]));
        if pre.num_app > 1 {
            lemma_round_robin(pre, ms[k], rs[k - 1]);
        } else {
            lemma_single_task(pre, ms[k], rs[k - 1]);
        }
        lemma_first_ready_is_ready(pre.statuses().update(pre.current(), TaskStatus::Ready), pre.current(), 1);
    }
}

/// Round robin over a window: when every task but the current one is Ready
/// and the tasks keep yielding, yield `k` (from 0) switches from the task `k`
/// steps after the first current task to the one `k + 1` steps after it; so
/// any `num_app` consecutive yields select every task exactly once.
pub proof fn lemma_round_robin_window(ms: Seq<TaskManager>, rs: Seq<Option<Switch>>)
    requires
        ms.len() == rs.len() + 1,
        rs.len() <= ms[0].num_app,
        ms[0].wf(),
        ms[0].statuses()[ms[0].current()] == TaskStatus::Running,
        forall|i: int| 0 <= i < ms[0].num_app && i != ms[0].current()
            ==> #[trigger] ms[0].statuses()[i] == TaskStatus::Ready,
        forall|k: int| 0 <= k < rs.len() ==> #[trigger] suspend_step(ms[k], ms[k + 1], rs[k]),
    ensures
        forall|k: int| 0 <= k < rs.len() ==> #[trigger] rs[k] == Some(Switch {
            from: scan_index(ms[0].current(), k, ms[0].num_app as int) as usize,
            to: scan_index(ms[0].current(), k + 1, ms[0].num_app as int) as usize,
        }),
        forall|k1: int, k2: int| 0 <= k1 < k2 < rs.len()
            ==> (#[trigger] rs[k1])->0.to != (#[trigger] rs[k2])->0.to,
{
    let n = ms[0].num_app as int;
    let c = ms[0].current();
    assert forall|k: int| 0 <= k < rs.len() implies #[trigger] rs[k] == Some(Switch {
        from: scan_index(c, k, n) as usize,
        to: scan_index(c, k + 1, n) as usize,
    }) by {
        lemma_window_state(ms, rs, k);
        lemma_window_state(ms, rs, k + 1);
        assert(suspend_step(ms[k], ms[k + 1], rs[k]));
        if n > 1 {
            lemma_round_robin(ms[k], ms[k + 1], rs[k]);
        } else {
            lemma_single_task(ms[k], ms[k + 1], rs[k]);
        }
    }
}

} // verus!
