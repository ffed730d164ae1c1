use jcore::context::TaskContext;
use jcore::loader::{get_base_i, init_app_cx, load_plan, KernelStack, LoadSegment, UserStack};
use jcore::sync::UPSafeCell;
use jcore::syscall::{
    decode_syscall, sys_exit, sys_get_time, sys_write, sys_yield, SyscallFrame, SyscallRequest,
};
use jcore::timer::{next_trigger, time_ms};
use jcore::trap::TrapContext;

#[test]
fn zero_init_is_all_zero() {
    let cx = TaskContext::zero_init();
    assert_eq!(cx.ra, 0);
    assert_eq!(cx.sp, 0);
    assert_eq!(cx.s, [0; 12]);
}

#[test]
fn goto_restore_sets_return_and_stack() {
    let cx = TaskContext::goto_restore(0x8020_0abc, 0x8030_1ef0);
    assert_eq!(cx.ra, 0x8020_0abc);
    assert_eq!(cx.sp, 0x8030_1ef0);
    assert_eq!(cx.s, [0; 12]);
}

#[test]
fn cell_hands_out_its_contents() {
    let mut cell = UPSafeCell::new(5u32);
    *cell.exclusive_access() += 2;
    assert_eq!(*cell.shared_access(), 7);
}

#[test]
fn app_slots_are_consecutive() {
    assert_eq!(get_base_i(0), 0x8040_0000);
    assert_eq!(get_base_i(1), 0x8042_0000);
    assert_eq!(get_base_i(3), 0x8046_0000);
}

#[test]
fn stacks_are_addressed_from_their_top() {
    let mut ks = KernelStack { base: 0x1000, frame: None };
    let us = UserStack { base: 0x9000 };
    assert_eq!(ks.get_sp(), 0x3000);
    assert_eq!(us.get_sp(), 0xb000);
    let cx = TrapContext::app_init_context(0x8040_0000, 0xb000, 0);
    assert_eq!(ks.push_context(cx), 0x3000 - 272);
    assert_eq!(ks.frame.unwrap().sepc, 0x8040_0000);
}

#[test]
fn app_init_context_enters_user_mode() {
    let cx = TrapContext::app_init_context(0x8042_0000, 0x8038_4000, 0x8000_0002_0000_0122);
    assert_eq!(cx.sepc, 0x8042_0000);
    assert_eq!(cx.x[2], 0x8038_4000);
    for i in 0..32 {
        if i != 2 {
            assert_eq!(cx.x[i], 0);
        }
    }
    assert_eq!(cx.sstatus, 0x8000_0002_0000_0022);
    assert_eq!(cx.sstatus & 0x100, 0);
}

#[test]
fn init_app_cx_seeds_the_kernel_stack() {
    let mut ks = KernelStack { base: 0x8030_2000, frame: None };
    let us = UserStack { base: 0x8038_2000 };
    let p = init_app_cx(1, &mut ks, &us, 0x100);
    assert_eq!(p, 0x8030_4000 - 272);
    let frame = ks.frame.unwrap();
    assert_eq!(frame.sepc, 0x8042_0000);
    assert_eq!(frame.x[2], 0x8038_4000);
    assert_eq!(frame.sstatus, 0);
}

#[test]
fn load_plan_copies_each_app_to_its_slot() {
    let plan = load_plan(&vec![0x8020_5000, 0x8020_6000, 0x8020_6800, 0x8020_9000]);
    assert_eq!(
        plan,
        vec![
            LoadSegment { dst: 0x8040_0000, src: 0x8020_5000, len: 0x1000 },
            LoadSegment { dst: 0x8042_0000, src: 0x8020_6000, len: 0x800 },
            LoadSegment { dst: 0x8044_0000, src: 0x8020_6800, len: 0x2800 },
        ]
    );
    assert!(load_plan(&vec![0x8020_5000]).is_empty());
}

#[test]
fn user_frames_carry_number_and_arguments() {
    assert_eq!(sys_write(1, 0x1234, 5), SyscallFrame { id: 64, a0: 1, a1: 0x1234, a2: 5 });
    assert_eq!(sys_exit(-1), SyscallFrame { id: 93, a0: u64::MAX, a1: 0, a2: 0 });
    assert_eq!(sys_yield(), SyscallFrame { id: 124, a0: 0, a1: 0, a2: 0 });
    assert_eq!(sys_get_time(), SyscallFrame { id: 169, a0: 0, a1: 0, a2: 0 });
}

#[test]
fn kernel_reads_back_what_user_sent() {
    let f = sys_write(1, 0x8040_0100, 2);
    assert_eq!(decode_syscall(f.id, f.a0, f.a1, f.a2), SyscallRequest::Write { fd: 1, buf: 0x8040_0100, len: 2 });
    let f = sys_exit(-7);
    assert_eq!(decode_syscall(f.id, f.a0, f.a1, f.a2), SyscallRequest::Exit { code: -7 });
    let f = sys_yield();
    assert_eq!(decode_syscall(f.id, f.a0, f.a1, f.a2), SyscallRequest::Yield);
    let f = sys_get_time();
    assert_eq!(decode_syscall(f.id, f.a0, f.a1, f.a2), SyscallRequest::GetTime);
    assert_eq!(decode_syscall(65, 0, 0, 0), SyscallRequest::Unknown { id: 65 });
}

#[test]
fn time_is_scaled_to_milliseconds() {
    assert_eq!(time_ms(12_500_000, 12_500_000), 1000);
    assert_eq!(time_ms(12_499, 12_500_000), 0);
    assert_eq!(time_ms(12_500, 12_500_000), 1);
}

#[test]
fn get_time_series_never_decreases() {
    let mut last = 0;
    let mut ticks: u64 = 0;
    for k in 0..1000u64 {
        ticks += (k * 7919) % 40_000;
        let t = time_ms(ticks, 12_500_000);
        assert!(t >= last);
        last = t;
    }
}

#[test]
fn next_trigger_is_one_tick_later() {
    assert_eq!(next_trigger(1000, 12_500_000), 126_000);
    assert_eq!(next_trigger(0, 10_000_000), 100_000);
}
