use jcore::config::{KERNEL_STACK_SIZE, USER_STACK_SIZE};
use jcore::loader::{KernelStack, UserStack};
use jcore::syscall::{sys_exit, sys_get_time, sys_write, sys_yield, SyscallFrame};
use jcore::task::{Switch, TaskManager, TaskStatus};
use jcore::trap::{trap_handler, TrapAction, TrapContext};

const ECALL: u64 = 8;
const STORE_FAULT: u64 = 7;
const STORE_PAGE_FAULT: u64 = 15;
const ILLEGAL: u64 = 2;
const TIMER: u64 = (1 << 63) | 5;
const CLOCK_FREQ: u64 = 12_500_000;

fn manager(n: usize) -> TaskManager {
    let mut ks = Vec::new();
    let mut us = Vec::new();
    for i in 0..n {
        ks.push(KernelStack { base: 0x8030_0000 + i * KERNEL_STACK_SIZE, frame: None });
        us.push(UserStack { base: 0x8038_0000 + i * USER_STACK_SIZE });
    }
    let mut tm = TaskManager::new(n, 0x8020_1000, &mut ks, &us, 0);
    tm.run_first_task();
    tm
}

fn ecall_cx(f: SyscallFrame) -> TrapContext {
    let mut x = [0u64; 32];
    x[17] = f.id;
    x[10] = f.a0;
    x[11] = f.a1;
    x[12] = f.a2;
    TrapContext { x, sstatus: 0, sepc: 0x8040_0010 }
}

fn plain_cx() -> TrapContext {
    TrapContext { x: [0; 32], sstatus: 0, sepc: 0x8040_0020 }
}

#[test]
fn ecall_steps_past_the_instruction() {
    let mut tm = manager(1);
    let mut cx = ecall_cx(sys_get_time());
    let a = trap_handler(&mut tm, &mut cx, ECALL, 0, 1234);
    assert_eq!(a, TrapAction::Resume);
    assert_eq!(cx.sepc, 0x8040_0014);
    assert_eq!(cx.x[10], 1234);
    assert_eq!(tm.status(0), TaskStatus::Running);
}

#[test]
fn write_to_stdout_returns_its_length() {
    let mut tm = manager(1);
    let mut cx = ecall_cx(sys_write(1, 0x8040_0100, 5));
    let a = trap_handler(&mut tm, &mut cx, ECALL, 0, 0);
    assert_eq!(a, TrapAction::Write { buf: 0x8040_0100, len: 5 });
    assert_eq!(cx.x[10], 5);
}

#[test]
fn write_to_other_fd_is_fatal() {
    let mut tm = manager(1);
    let mut cx = ecall_cx(sys_write(2, 0x8040_0100, 5));
    assert_eq!(trap_handler(&mut tm, &mut cx, ECALL, 0, 0), TrapAction::UnsupportedFd { fd: 2 });
}

#[test]
fn unknown_syscall_is_fatal() {
    let mut tm = manager(1);
    let mut cx = ecall_cx(SyscallFrame { id: 57, a0: 0, a1: 0, a2: 0 });
    assert_eq!(trap_handler(&mut tm, &mut cx, ECALL, 0, 0), TrapAction::UnknownSyscall { id: 57 });
}

#[test]
fn unsupported_trap_is_fatal() {
    let mut tm = manager(1);
    let mut cx = plain_cx();
    let a = trap_handler(&mut tm, &mut cx, 13, 0x44, 0);
    assert_eq!(a, TrapAction::Unsupported { scause: 13, stval: 0x44 });
    assert_eq!(cx.sepc, 0x8040_0020);
    let a = trap_handler(&mut tm, &mut cx, (1 << 63) | 9, 0, 0);
    assert_eq!(a, TrapAction::Unsupported { scause: (1 << 63) | 9, stval: 0 });
}

#[test]
fn yield_returns_zero_and_switches() {
    let mut tm = manager(2);
    let mut cx = ecall_cx(sys_yield());
    cx.x[10] = 99;
    let a = trap_handler(&mut tm, &mut cx, ECALL, 0, 0);
    assert_eq!(a, TrapAction::Yielded { next: Some(Switch { from: 0, to: 1 }) });
    assert_eq!(cx.x[10], 0);
    assert_eq!(tm.status(0), TaskStatus::Ready);
    assert_eq!(tm.status(1), TaskStatus::Running);
}

/// Three apps: each writes its letter and yields, three times, then exits.
#[test]
fn three_apps_print_and_yield() {
    let mut tm = manager(3);
    let letters = ["A\n", "B\n", "C\n"];
    let mut rounds = [0usize; 3];
    let mut transcript = String::new();
    let mut finished = false;
    for _ in 0..100 {
        let cur = tm.current_task();
        // write
        if rounds[cur] < 3 {
            let mut cx = ecall_cx(sys_write(1, 0x8040_0100, 2));
            if let TrapAction::Write { len, .. } = trap_handler(&mut tm, &mut cx, ECALL, 0, 0) {
                assert_eq!(len, 2);
                transcript.push_str(letters[cur]);
            } else {
                panic!("write expected");
            }
            rounds[cur] += 1;
            let mut cx = ecall_cx(sys_yield());
            match trap_handler(&mut tm, &mut cx, ECALL, 0, 0) {
                TrapAction::Yielded { next: Some(_) } => {}
                other => panic!("unexpected {:?}", other),
            }
        } else {
            let mut cx = ecall_cx(sys_exit(0));
            match trap_handler(&mut tm, &mut cx, ECALL, 0, 0) {
                TrapAction::Exited { code: 0, next: Some(_) } => {}
                TrapAction::Exited { code: 0, next: None } => {
                    finished = true;
                    break;
                }
                other => panic!("unexpected {:?}", other),
            }
        }
    }
    assert!(finished);
    assert_eq!(transcript, "A\nB\nC\nA\nB\nC\nA\nB\nC\n");
    for i in 0..3 {
        assert_eq!(tm.status(i), TaskStatus::Exited);
    }
}

/// App 0 spins without syscalls; app 1 prints and yields. One timer tick
/// every 10 ms over one second.
#[test]
fn timer_preempts_a_spinning_app() {
    let mut tm = manager(2);
    let mut preempted = 0;
    let mut lines = 0;
    for _tick in 0..100 {
        assert_eq!(tm.current_task(), 0);
        let mut cx = plain_cx();
        match trap_handler(&mut tm, &mut cx, TIMER, 0, 0) {
            TrapAction::Preempted { next: Some(Switch { from: 0, to: 1 }) } => preempted += 1,
            other => panic!("unexpected {:?}", other),
        }
        let mut cx = ecall_cx(sys_write(1, 0x8042_0100, 5));
        if let TrapAction::Write { len: 5, .. } = trap_handler(&mut tm, &mut cx, ECALL, 0, 0) {
            lines += 1;
        }
        let mut cx = ecall_cx(sys_yield());
        trap_handler(&mut tm, &mut cx, ECALL, 0, 0);
    }
    assert!(preempted >= 90);
    assert!(lines >= 90);
}

#[test]
fn store_fault_kills_only_the_faulting_app() {
    let mut tm = manager(3);
    let mut cx = plain_cx();
    let a = trap_handler(&mut tm, &mut cx, STORE_PAGE_FAULT, 0xdead_0000, 0);
    assert_eq!(
        a,
        TrapAction::StoreFault { addr: 0xdead_0000, pc: 0x8040_0020, next: Some(Switch { from: 0, to: 1 }) }
    );
    assert_eq!(tm.status(0), TaskStatus::Exited);
    let mut cx = ecall_cx(sys_exit(0));
    assert_eq!(
        trap_handler(&mut tm, &mut cx, ECALL, 0, 0),
        TrapAction::Exited { code: 0, next: Some(Switch { from: 1, to: 2 }) }
    );
    let mut cx = ecall_cx(sys_exit(0));
    assert_eq!(trap_handler(&mut tm, &mut cx, ECALL, 0, 0), TrapAction::Exited { code: 0, next: None });
}

#[test]
fn store_access_fault_is_handled_alike() {
    let mut tm = manager(2);
    let mut cx = plain_cx();
    let a = trap_handler(&mut tm, &mut cx, STORE_FAULT, 0x10, 0);
    assert_eq!(a, TrapAction::StoreFault { addr: 0x10, pc: 0x8040_0020, next: Some(Switch { from: 0, to: 1 }) });
}

#[test]
fn get_time_is_monotonic_through_the_handler() {
    let mut tm = manager(1);
    let mut cx = ecall_cx(sys_get_time());
    trap_handler(&mut tm, &mut cx, ECALL, 0, jcore::timer::time_ms(1_000_000, CLOCK_FREQ));
    let first = cx.x[10];
    let mut cx = ecall_cx(sys_get_time());
    trap_handler(&mut tm, &mut cx, ECALL, 0, jcore::timer::time_ms(9_000_000, CLOCK_FREQ));
    assert_eq!(first, 80);
    assert_eq!(cx.x[10], 720);
    assert!(cx.x[10] >= first);
}

#[test]
fn exit_code_path_with_single_app() {
    let mut tm = manager(1);
    let mut cx = ecall_cx(sys_exit(42));
    assert_eq!(trap_handler(&mut tm, &mut cx, ECALL, 0, 0), TrapAction::Exited { code: 42, next: None });
    assert_eq!(tm.status(0), TaskStatus::Exited);
}

#[test]
fn illegal_instruction_kills_the_app() {
    let mut tm = manager(2);
    let mut cx = plain_cx();
    let a = trap_handler(&mut tm, &mut cx, ILLEGAL, 0, 0);
    assert_eq!(a, TrapAction::IllegalInstruction { next: Some(Switch { from: 0, to: 1 }) });
    assert_eq!(tm.status(0), TaskStatus::Exited);
    assert_eq!(tm.status(1), TaskStatus::Running);
}
