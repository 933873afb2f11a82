use kernel::config::{LOW_ADDRESS_END, MAX_TID, PAGE_SIZE, USER_STACK_SIZE};
use kernel::memory::{MapArea, MemorySet, MAP_R, MAP_U, MAP_W};
use kernel::thread::{Thread, ThreadStatus};
use kernel::trap_context::TrapContext;

#[test]
fn new_thread_is_ready() {
    let t = Thread::new(4, 9, TrapContext::app_init(0x10, 0x20, 0x30));
    assert_eq!(t.tid(), 9);
    assert_eq!(t.process(), 4);
    let inner = t.read_inner();
    assert_eq!(inner.exit_code, 0);
    assert_eq!(inner.thread_status, ThreadStatus::Ready);
    assert_eq!(inner.signal_mask.bits, 0);
    assert_eq!(inner.trap_context.sepc, 0x10);
    assert_eq!(inner.trap_context.sp(), 0x20);
    assert_eq!(inner.trap_context.user_regs[1], 0);
}

#[test]
fn yield_now_marks_ready() {
    let mut t = Thread::new(1, 1, TrapContext::app_init(0, 0, 0));
    t.lock_inner().thread_status = ThreadStatus::Running;
    t.lock_inner().exit_code = 5;
    t.yield_now();
    assert_eq!(t.read_inner().thread_status, ThreadStatus::Ready);
    assert_eq!(t.read_inner().exit_code, 5);
}

#[test]
fn user_stack_addresses() {
    assert_eq!(Thread::user_stack_high_addr(0), 0x40_0000_0000);
    assert_eq!(Thread::user_stack_low_addr(0), 0x40_0000_0000 - 0x8000);
    assert_eq!(Thread::user_stack_high_addr(1), 0x40_0000_0000 - 0x9000);
    assert_eq!(Thread::user_stack_low_addr(2), 0x40_0000_0000 - 0x12000 - 0x8000);
    assert!(Thread::user_stack_low_addr(MAX_TID) < USER_STACK_SIZE + PAGE_SIZE);
    assert_eq!(Thread::user_stack_high_addr(MAX_TID), LOW_ADDRESS_END - MAX_TID as u64 * 0x9000);
}

#[test]
fn user_stacks_leave_a_guard_page() {
    for tid in 0..50usize {
        let below_high = Thread::user_stack_high_addr(tid + 1);
        let low = Thread::user_stack_low_addr(tid);
        assert_eq!(low - below_high, PAGE_SIZE);
    }
}

#[test]
fn alloc_and_dealloc_user_stack() {
    let mut ms = MemorySet::new_bare();
    let high0 = Thread::alloc_user_stack(0, &mut ms);
    let high1 = Thread::alloc_user_stack(1, &mut ms);
    assert_eq!(high0, 0x40_0000_0000);
    assert_eq!(high1, 0x40_0000_0000 - 0x9000);
    let perm = MAP_R | MAP_W | MAP_U;
    assert_eq!(
        ms.areas(),
        &[
            MapArea { start_vpn: 0x3ff_fff8, end_vpn: 0x400_0000, perm },
            MapArea { start_vpn: 0x3ff_ffef, end_vpn: 0x3ff_fff7, perm },
        ]
    );
    let t0 = Thread::new(1, 0, TrapContext::app_init(0, high0 as usize, 0));
    t0.dealloc_user_stack(&mut ms);
    assert_eq!(ms.areas(), &[MapArea { start_vpn: 0x3ff_ffef, end_vpn: 0x3ff_fff7, perm }]);
    t0.dealloc_user_stack(&mut ms);
    assert_eq!(ms.areas().len(), 1);
}

#[test]
fn remove_area_takes_first_match() {
    let mut ms = MemorySet::new_bare();
    ms.insert_framed_area(1, 2, MAP_R);
    ms.insert_framed_area(5, 6, MAP_R);
    ms.insert_framed_area(5, 9, MAP_W);
    ms.remove_area_with_start_vpn(5);
    assert_eq!(
        ms.areas(),
        &[MapArea { start_vpn: 1, end_vpn: 2, perm: MAP_R }, MapArea { start_vpn: 5, end_vpn: 9, perm: MAP_W }]
    );
}
