//! The system-call interface: the register frame a user program hands the
//! kernel on `ecall`, and the kernel's decoding of it.
use vstd::prelude::*;

verus! {

/// Number of the `write` call.
pub const SYSCALL_WRITE: u64 = 64;
/// Number of the `exit` call.
pub const SYSCALL_EXIT: u64 = 93;
/// Number of the `yield` call.
pub const SYSCALL_YIELD: u64 = 124;
/// Number of the `get_time` call.
pub const SYSCALL_GET_TIME: u64 = 169;
/// The descriptor of standard output.
pub const FD_STDOUT: u64 = 1;

/// The registers of an environment call: the call number (`a7`) and three
/// arguments (`a0..a2`).
#[derive(PartialEq, Eq, Structural, Copy, Clone, Debug)]
pub struct SyscallFrame {
    pub id: u64,
    pub a0: u64,
    pub a1: u64,
    pub a2: u64,
}

/// A system call as the kernel reads it.
#[derive(PartialEq, Eq, Structural, Copy, Clone, Debug)]
pub enum SyscallRequest {
    Write { fd: u64, buf: u64, len: u64 },
    Exit { code: i32 },
    Yield,
    GetTime,
    Unknown { id: u64 },
}

/// The call that the frame `id`, `a0`, `a1`, `a2` names.
pub open spec fn request_of(id: u64, a0: u64, a1: u64, a2: u64) -> SyscallRequest {
    if id == SYSCALL_WRITE {
        SyscallRequest::Write { fd: a0, buf: a1, len: a2 }
    } else if id == SYSCALL_EXIT {
        SyscallRequest::Exit { code: a0 as i32 }
    } else if id == SYSCALL_YIELD {
        SyscallRequest::Yield
    } else if id == SYSCALL_GET_TIME {
        SyscallRequest::GetTime
    } else {
        SyscallRequest::Unknown { id }
    }
}

/// Reads the call named by the call number `id` and the arguments `a0..a2`.
pub fn decode_syscall(id: u64, a0: u64, a1: u64, a2: u64) -> (r: SyscallRequest)
    ensures
        r == request_of(id, a0, a1, a2),
{
    if id == SYSCALL_WRITE {
        SyscallRequest::Write { fd: a0, buf: a1, len: a2 }
    } else if id == SYSCALL_EXIT {
        SyscallRequest::Exit { code: a0 as i32 }
    } else if id == SYSCALL_YIELD {
        SyscallRequest::Yield
    } else if id == SYSCALL_GET_TIME {
        SyscallRequest::GetTime
    } else {
        SyscallRequest::Unknown { id }
    }
}

/// The frame of `write(fd, buf, len)`: write `len` bytes at address `buf`.
pub fn sys_write(fd: usize, buf: usize, len: usize) -> (r: SyscallFrame)
    ensures
        r == (SyscallFrame { id: SYSCALL_WRITE, a0: fd as u64, a1: buf as u64, a2: len as u64 }),
{
    SyscallFrame { id: SYSCALL_WRITE, a0: fd as u64, a1: buf as u64, a2: len as u64 }
}

/// The frame of `exit(exit_code)`; the code travels sign-extended.
pub fn sys_exit(exit_code: i32) -> (r: SyscallFrame)
    ensures
        r == (SyscallFrame { id: SYSCALL_EXIT, a0: exit_code as u64, a1: 0, a2: 0 }),
{
    SyscallFrame { id: SYSCALL_EXIT, a0: exit_code as u64, a1: 0, a2: 0 }
}

/// The frame of `yield()`.
pub fn sys_yield() -> (r: SyscallFrame)
    ensures
        r == (SyscallFrame { id: SYSCALL_YIELD, a0: 0, a1: 0, a2: 0 }),
{
    SyscallFrame { id: SYSCALL_YIELD, a0: 0, a1: 0, a2: 0 }
}

/// The frame of `get_time()`.
pub fn sys_get_time() -> (r: SyscallFrame)
    ensures
        r == (SyscallFrame { id: SYSCALL_GET_TIME, a0: 0, a1: 0, a2: 0 }),
{
    SyscallFrame { id: SYSCALL_GET_TIME, a0: 0, a1: 0, a2: 0 }
}

/// What a user program asks for is what the kernel reads: decoding the frame
/// that a user-side call builds gives back that call and its arguments.
pub proof fn lemma_frame_round_trip(fd: usize, buf: usize, len: usize, exit_code: i32)
    ensures
        ({
            let w = SyscallFrame { id: SYSCALL_WRITE, a0: fd as u64, a1: buf as u64, a2: len as u64 };
            request_of(w.id, w.a0, w.a1, w.a2) == SyscallRequest::Write { fd: fd as u64, buf: buf as u64, len: len as u64 }
        }),
        ({
            let e = SyscallFrame { id: SYSCALL_EXIT, a0: exit_code as u64, a1: 0, a2: 0 };
            request_of(e.id, e.a0, e.a1, e.a2) == SyscallRequest::Exit { code: exit_code }
        }),
        request_of(SYSCALL_YIELD, 0, 0, 0) == SyscallRequest::Yield,
        request_of(SYSCALL_GET_TIME, 0, 0, 0) == SyscallRequest::GetTime,
{
    assert(((exit_code as u64) as i32) == exit_code) by (bit_vector);
}

} // verus!
