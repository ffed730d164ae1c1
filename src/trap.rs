//! The trap context, trap-cause decoding and the trap handler's decisions.
use vstd::prelude::*;
use riscv::interrupt::supervisor::{Exception, Interrupt};
use riscv::interrupt::Trap;
use riscv::register::scause::Scause;
use riscv::register::sstatus::{Sstatus, SPP};
use crate::syscall::{decode_syscall, request_of, SyscallRequest, FD_STDOUT};
use crate::task::{exit_step, suspend_step, unchanged, Switch, TaskManager, TaskStatus};

verus! {

/// Register image of a user program saved on trap entry: the 32 general
/// registers, the supervisor status register and the exception PC.
#[derive(Copy, Clone)]
pub struct TrapContext {
    pub x: [u64; 32],
    pub sstatus: u64,
    pub sepc: u64,
}

/// Bit of `sstatus` that holds the privilege to return to (set: supervisor).
pub const SSTATUS_SPP_BIT: u64 = 0x100;

/// The legal fields of `sstatus` on a 64-bit hart, with the previous-privilege
/// bit cleared.
pub const SSTATUS_USER_MASK: u64 = 0x8000_0003_000d_e662;

/// Relies on riscv's `Sstatus::from_bits`, `Sstatus::set_spp(SPP::User)` and
/// `Sstatus::bits`: the image keeps sstatus's legal fields and clears bit 8.
#[verifier::external_body]
fn sstatus_with_user_spp(bits: u64) -> (r: u64)
    ensures
        r == bits & SSTATUS_USER_MASK,
{
    let mut s = Sstatus::from_bits(bits as usize);
    s.set_spp(SPP::User);
    s.bits() as u64
}

impl TrapContext {
    /// Sets the stack pointer register `x2`.
    pub fn set_sp(&mut self, sp: u64)
        ensures
            final(self).x@ == old(self).x@.update(2, sp),
            final(self).sstatus == old(self).sstatus,
            final(self).sepc == old(self).sepc,
    {
        self.x[2] = sp;
    }

    /// The context a task is first entered with: it starts at `entry`, its
    /// stack pointer at `sp`, in user mode; `sstatus` is the status image it
    /// inherits, all other registers are zero.
    pub fn app_init_context(entry: u64, sp: u64, sstatus: u64) -> (r: Self)
        ensures
            r.sepc == entry,
            r.x[2] == sp,
            forall|i: int| 0 <= i < 32 && i != 2 ==> r.x[i] == 0,
            r.sstatus == sstatus & SSTATUS_USER_MASK,
            r.sstatus & SSTATUS_SPP_BIT == 0,
    {
        let status = sstatus_with_user_spp(sstatus);
        let mut cx = Self { x: [0; 32], sstatus: status, sepc: entry };
        cx.set_sp(sp);
        assert(status & SSTATUS_SPP_BIT == 0) by (bit_vector)
            requires
                status == sstatus & 0x8000_0003_000d_e662u64,
                SSTATUS_SPP_BIT == 0x100u64,
        ;
        cx
    }
}

/// The trap causes the kernel tells apart.
#[derive(PartialEq, Eq, Structural, Copy, Clone, Debug)]
pub enum TrapCause {
    UserEnvCall,
    StoreFault,
    StorePageFault,
    IllegalInstruction,
    SupervisorTimer,
    Other,
}

/// Bit 63 of `scause`: set for an interrupt.
pub const SCAUSE_INTERRUPT: u64 = 0x8000_0000_0000_0000;

/// The cause an `scause` image names: bit 63 tells an interrupt from an
/// exception, the low 63 bits give its standard number.
pub open spec fn trap_cause_of(bits: u64) -> TrapCause {
    let code = bits % SCAUSE_INTERRUPT;
    if bits >= SCAUSE_INTERRUPT {
        if code == 5 { TrapCause::SupervisorTimer } else { TrapCause::Other }
    } else if code == 8 {
        TrapCause::UserEnvCall
    } else if code == 7 {
        TrapCause::StoreFault
    } else if code == 15 {
        TrapCause::StorePageFault
    } else if code == 2 {
        TrapCause::IllegalInstruction
    } else {
        TrapCause::Other
    }
}

/// Relies on riscv's `Scause::from_bits`, `Scause::cause` and `Trap::try_into`
/// with the standard supervisor `Interrupt` and `Exception` numbers.
#[verifier::external_body]
fn decode_scause(bits: u64) -> (r: TrapCause)
    ensures
        r == trap_cause_of(bits),
{
    match Scause::from_bits(bits as usize).cause().try_into::<Interrupt, Exception>() {
        Ok(Trap::Exception(Exception::UserEnvCall)) => TrapCause::UserEnvCall,
        Ok(Trap::Exception(Exception::StoreFault)) => TrapCause::StoreFault,
        Ok(Trap::Exception(Exception::StorePageFault)) => TrapCause::StorePageFault,
        Ok(Trap::Exception(Exception::IllegalInstruction)) => TrapCause::IllegalInstruction,
        Ok(Trap::Interrupt(Interrupt::SupervisorTimer)) => TrapCause::SupervisorTimer,
        _ => TrapCause::Other,
    }
}

/// What the caller of the trap handler does once the handler has returned.
#[derive(PartialEq, Eq, Structural, Copy, Clone, Debug)]
pub enum TrapAction {
    /// Return to the interrupted task.
    Resume,
    /// Print the `len` bytes at `buf` on the console, then return to the task.
    Write { buf: u64, len: u64 },
    /// The task exited with `code`; switch by `next`, or shut down on `None`.
    Exited { code: i32, next: Option<Switch> },
    /// The task stored to `addr` at `pc` and was killed; switch by `next`, or
    /// shut down on `None`.
    StoreFault { addr: u64, pc: u64, next: Option<Switch> },
    /// The task ran an illegal instruction and was killed; switch by `next`,
    /// or shut down on `None`.
    IllegalInstruction { next: Option<Switch> },
    /// The task yielded; switch by `next`.
    Yielded { next: Option<Switch> },
    /// The timer fired: arm the next trigger, then switch by `next`.
    Preempted { next: Option<Switch> },
    /// Fatal: a system call number the kernel does not know.
    UnknownSyscall { id: u64 },
    /// Fatal: `write` to a descriptor other than standard output.
    UnsupportedFd { fd: u64 },
    /// Fatal: a trap cause the kernel does not handle.
    Unsupported { scause: u64, stval: u64 },
}

/// The trap context is `pre` with the saved PC past the `ecall` and `a0` set
/// to `ret`.
pub open spec fn returned(pre: TrapContext, post: TrapContext, ret: u64) -> bool {
    &&& post.sepc == (pre.sepc + 4) % 0x1_0000_0000_0000_0000
    &&& post.sstatus == pre.sstatus
    &&& post.x@ == pre.x@.update(10, ret)
}

/// The trap context is `pre` with the saved PC past the `ecall`.
pub open spec fn stepped(pre: TrapContext, post: TrapContext) -> bool {
    &&& post.sepc == (pre.sepc + 4) % 0x1_0000_0000_0000_0000
    &&& post.sstatus == pre.sstatus
    &&& post.x@ == pre.x@
}

/// The handling of a trap with cause image `scause` and trap value `stval`,
/// taken from task state `tm` and trap context `cx`, at time `now_ms`: the
/// states after it, `tm2` and `cx2`, and the action `a`.
pub open spec fn handled(
    tm: TaskManager,
    cx: TrapContext,
    scause: u64,
    stval: u64,
    now_ms: u64,
    tm2: TaskManager,
    cx2: TrapContext,
    a: TrapAction,
) -> bool {
    match trap_cause_of(scause) {
        TrapCause::UserEnvCall => match request_of(cx.x[17], cx.x[10], cx.x[11], cx.x[12]) {
            SyscallRequest::Write { fd, buf, len } => {
                &&& unchanged(tm, tm2)
                &&& if fd == FD_STDOUT {
                    a == TrapAction::Write { buf, len } && returned(cx, cx2, len)
                } else {
                    a == TrapAction::UnsupportedFd { fd } && stepped(cx, cx2)
                }
            },
            SyscallRequest::Exit { code } => {
                &&& stepped(cx, cx2)
                &&& a matches TrapAction::Exited { code: c, next } && c == code && exit_step(tm, tm2, next)
            },
            SyscallRequest::Yield => {
                &&& returned(cx, cx2, 0)
                &&& a matches TrapAction::Yielded { next } && suspend_step(tm, tm2, next)
            },
            SyscallRequest::GetTime => {
                &&& unchanged(tm, tm2)
                &&& returned(cx, cx2, now_ms)
                &&& a == TrapAction::Resume
            },
            SyscallRequest::Unknown { id } => {
                &&& unchanged(tm, tm2)
                &&& stepped(cx, cx2)
                &&& a == TrapAction::UnknownSyscall { id }
            },
        },
        TrapCause::StoreFault | TrapCause::StorePageFault => {
            &&& cx2 == cx
            &&& a matches TrapAction::StoreFault { addr, pc, next }
                && addr == stval && pc == cx.sepc && exit_step(tm, tm2, next)
        },
        TrapCause::IllegalInstruction => {
            &&& cx2 == cx
            &&& a matches TrapAction::IllegalInstruction { next } && exit_step(tm, tm2, next)
        },
        TrapCause::SupervisorTimer => {
            &&& cx2 == cx
            &&& a matches TrapAction::Preempted { next } && suspend_step(tm, tm2, next)
        },
        TrapCause::Other => {
            &&& unchanged(tm, tm2)
            &&& cx2 == cx
            &&& a == TrapAction::Unsupported { scause, stval }
        },
    }
}

/// Handles a trap taken from the current task, whose registers are `cx`:
/// `scause` and `stval` are the trap-cause and trap-value registers, `now_ms`
/// the time in milliseconds. An environment call steps the saved PC past the
/// `ecall` and is served by its number in `a7` with arguments `a0..a2`, its
/// result going to `a0`; a store fault or an illegal instruction kills the
/// task; the timer preempts it.
pub fn trap_handler(tm: &mut TaskManager, cx: &mut TrapContext, scause: u64, stval: u64, now_ms: u64) -> (r: TrapAction)
    requires
        old(tm).wf(),
        old(tm).statuses()[old(tm).current()] == TaskStatus::Running,
    ensures
        handled(*old(tm), *old(cx), scause, stval, now_ms, *final(tm), *final(cx), r),
{
    match decode_scause(scause) {
        TrapCause::UserEnvCall => {
            cx.sepc = cx.sepc.wrapping_add(4);
            match decode_syscall(cx.x[17], cx.x[10], cx.x[11], cx.x[12]) {
                SyscallRequest::Write { fd, buf, len } => {
                    if fd == FD_STDOUT {
                        cx.x[10] = len;
                        TrapAction::Write { buf, len }
                    } else {
                        TrapAction::UnsupportedFd { fd }
                    }
                },
                SyscallRequest::Exit { code } => {
                    let next = tm.exit_current_and_run_next();
                    TrapAction::Exited { code, next }
                },
                SyscallRequest::Yield => {
                    cx.x[10] = 0;
                    let next = tm.suspend_current_and_run_next();
                    TrapAction::Yielded { next }
                },
                SyscallRequest::GetTime => {
                    cx.x[10] = now_ms;
                    TrapAction::Resume
                },
                SyscallRequest::Unknown { id } => TrapAction::UnknownSyscall { id },
            }
        },
        TrapCause::StoreFault | TrapCause::StorePageFault => {
            let pc = cx.sepc;
            let next = tm.exit_current_and_run_next();
            TrapAction::StoreFault { addr: stval, pc, next }
        },
        TrapCause::IllegalInstruction => {
            let next = tm.exit_current_and_run_next();
            TrapAction::IllegalInstruction { next }
        },
        TrapCause::SupervisorTimer => {
            let next = tm.suspend_current_and_run_next();
            TrapAction::Preempted { next }
        },
        TrapCause::Other => TrapAction::Unsupported { scause, stval },
    }
}

} // verus!
