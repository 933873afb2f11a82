use kernel::signal::{
    KSignalAction, KSignalSet, SignalContext, SignalHandlers, SigprocmaskHow, SA_RESTORER,
    SIGKILL, SIGSTOP,
};
use kernel::syscall::{
    signal_context_addr, sys_rt_sigaction, sys_rt_sigprocmask, sys_rt_sigreturn, Errno,
    SigreturnAction, UserRead, UserWrite, SIGRETURN_FAULT_EXIT_CODE,
};
use kernel::thread::{Thread, ThreadStatus};
use kernel::trap_context::TrapContext;

fn handler_action(handler: usize) -> KSignalAction {
    KSignalAction {
        handler,
        flags: SA_RESTORER,
        restorer: 0x1000,
        mask: KSignalSet { bits: 0b100 },
    }
}

fn thread_with_mask(bits: u64) -> Thread {
    let mut t = Thread::new(7, 3, TrapContext::app_init(0x1000, 0x8000, 0));
    t.lock_inner().signal_mask = KSignalSet { bits };
    t
}

#[test]
fn sigaction_rejects_kill_and_stop() {
    let mut h = SignalHandlers::new();
    for signum in [SIGKILL, SIGSTOP] {
        let r = sys_rt_sigaction(&mut h, signum, UserRead::Value(handler_action(0x40)), UserWrite::Valid);
        assert_eq!(r.result, Err(Errno::EINVAL));
        assert_eq!(r.write_back, None);
        assert_eq!(*h.action(signum), KSignalAction::new());
        let r = sys_rt_sigaction(&mut h, signum, UserRead::Null, UserWrite::Null);
        assert_eq!(r.result, Err(Errno::EINVAL));
    }
}

#[test]
fn sigaction_rejects_unknown_signals() {
    let mut h = SignalHandlers::new();
    for signum in [0usize, 65, 265] {
        let r = sys_rt_sigaction(&mut h, signum, UserRead::Null, UserWrite::Valid);
        assert_eq!(r.result, Err(Errno::EINVAL));
    }
}

#[test]
fn sigaction_round_trip() {
    let mut h = SignalHandlers::new();
    let a = handler_action(0x4000);
    let r = sys_rt_sigaction(&mut h, 10, UserRead::Value(a), UserWrite::Null);
    assert_eq!(r.result, Ok(0));
    assert_eq!(r.write_back, None);
    let r = sys_rt_sigaction(&mut h, 10, UserRead::Null, UserWrite::Valid);
    assert_eq!(r.result, Ok(0));
    assert_eq!(r.write_back, Some(a));
    let r = sys_rt_sigaction(&mut h, 11, UserRead::Null, UserWrite::Valid);
    assert_eq!(r.write_back, Some(KSignalAction::new()));
}

#[test]
fn sigaction_reads_old_before_writing_new() {
    let mut h = SignalHandlers::new();
    let a = handler_action(0x4000);
    let b = handler_action(0x5000);
    sys_rt_sigaction(&mut h, 2, UserRead::Value(a), UserWrite::Null);
    let r = sys_rt_sigaction(&mut h, 2, UserRead::Value(b), UserWrite::Valid);
    assert_eq!(r.result, Ok(0));
    assert_eq!(r.write_back, Some(a));
    assert_eq!(*h.action(2), b);
}

#[test]
fn sigaction_without_restorer_is_refused() {
    let mut h = SignalHandlers::new();
    let mut a = handler_action(0x4000);
    a.flags = 0;
    let r = sys_rt_sigaction(&mut h, 10, UserRead::Value(a), UserWrite::Null);
    assert_eq!(r.result, Err(Errno::ENOSYS));
    assert_eq!(*h.action(10), KSignalAction::new());
}

#[test]
fn sigaction_bad_pointers() {
    let mut h = SignalHandlers::new();
    let r = sys_rt_sigaction(&mut h, 10, UserRead::Value(handler_action(1)), UserWrite::Fault);
    assert_eq!(r.result, Err(Errno::EFAULT));
    assert_eq!(*h.action(10), KSignalAction::new());
    let r = sys_rt_sigaction(&mut h, 10, UserRead::Fault, UserWrite::Valid);
    assert_eq!(r.result, Err(Errno::EFAULT));
    assert_eq!(r.write_back, Some(KSignalAction::new()));
}

#[test]
fn sigprocmask_block_then_unblock() {
    let mut t = thread_with_mask(0b0011);
    let s = KSignalSet { bits: 0b1100 };
    let r = sys_rt_sigprocmask(&mut t, 0, UserRead::Value(s), UserWrite::Null, 8);
    assert_eq!(r.result, Ok(0));
    assert_eq!(t.read_inner().signal_mask.bits, 0b1111);
    let r = sys_rt_sigprocmask(&mut t, 1, UserRead::Value(s), UserWrite::Valid, 8);
    assert_eq!(r.result, Ok(0));
    assert_eq!(r.write_back, Some(KSignalSet { bits: 0b1111 }));
    assert_eq!(t.read_inner().signal_mask.bits, 0b0011);
}

#[test]
fn sigprocmask_unblock_clears_already_blocked() {
    let mut t = thread_with_mask(0b0110);
    let s = KSignalSet { bits: 0b0100 };
    sys_rt_sigprocmask(&mut t, 0, UserRead::Value(s), UserWrite::Null, 8);
    sys_rt_sigprocmask(&mut t, 1, UserRead::Value(s), UserWrite::Null, 8);
    assert_eq!(t.read_inner().signal_mask.bits, 0b0010);
}

#[test]
fn sigprocmask_set_mask_is_exact() {
    let mut t = thread_with_mask(u64::MAX);
    let s = KSignalSet { bits: 0x8000_0001 };
    let r = sys_rt_sigprocmask(&mut t, 2, UserRead::Value(s), UserWrite::Null, 8);
    assert_eq!(r.result, Ok(0));
    assert_eq!(t.read_inner().signal_mask, s);
}

#[test]
fn sigprocmask_oversized_set_is_refused() {
    let mut t = thread_with_mask(0b1);
    let r = sys_rt_sigprocmask(&mut t, 2, UserRead::Value(KSignalSet { bits: 0 }), UserWrite::Valid, 9);
    assert_eq!(r.result, Err(Errno::EINVAL));
    assert_eq!(r.write_back, None);
    assert_eq!(t.read_inner().signal_mask.bits, 0b1);
}

#[test]
fn sigprocmask_bad_how_and_pointers() {
    let mut t = thread_with_mask(0b1);
    let r = sys_rt_sigprocmask(&mut t, 3, UserRead::Value(KSignalSet { bits: 0 }), UserWrite::Valid, 8);
    assert_eq!(r.result, Err(Errno::EINVAL));
    assert_eq!(r.write_back, Some(KSignalSet { bits: 0b1 }));
    assert_eq!(t.read_inner().signal_mask.bits, 0b1);
    let r = sys_rt_sigprocmask(&mut t, 0, UserRead::Fault, UserWrite::Null, 8);
    assert_eq!(r.result, Err(Errno::EFAULT));
    let r = sys_rt_sigprocmask(&mut t, 0, UserRead::Value(KSignalSet { bits: 2 }), UserWrite::Fault, 8);
    assert_eq!(r.result, Err(Errno::EFAULT));
    assert_eq!(t.read_inner().signal_mask.bits, 0b1);
    let r = sys_rt_sigprocmask(&mut t, 0, UserRead::Null, UserWrite::Valid, 4);
    assert_eq!(r.result, Ok(0));
    assert_eq!(r.write_back, Some(KSignalSet { bits: 0b1 }));
}

#[test]
fn how_codes() {
    assert_eq!(SigprocmaskHow::try_from_code(0), Some(SigprocmaskHow::Block));
    assert_eq!(SigprocmaskHow::try_from_code(1), Some(SigprocmaskHow::Unblock));
    assert_eq!(SigprocmaskHow::try_from_code(2), Some(SigprocmaskHow::SetMask));
    assert_eq!(SigprocmaskHow::try_from_code(3), None);
}

#[test]
fn signal_set_operations() {
    let mut s = KSignalSet::empty();
    s.insert(KSignalSet { bits: 0b101 });
    assert!(s.contains(1));
    assert!(!s.contains(2));
    assert!(s.contains(3));
    s.remove(KSignalSet { bits: 0b001 });
    assert_eq!(s.bits, 0b100);
    assert!(!KSignalSet { bits: 1 << 63 }.contains(63));
    assert!(KSignalSet { bits: 1 << 63 }.contains(64));
}

#[test]
fn sigreturn_with_bad_context_ends_process() {
    let mut t = thread_with_mask(0b10);
    assert_eq!(signal_context_addr(&t), 0x8000);
    let (r, action) = sys_rt_sigreturn(&mut t, None);
    assert_eq!(r, Err(Errno::BREAK));
    assert_eq!(action, SigreturnAction::ExitProcess(SIGRETURN_FAULT_EXIT_CODE));
    assert_eq!(SIGRETURN_FAULT_EXIT_CODE, -10);
    assert_eq!(t.read_inner().signal_mask.bits, 0b10);
    assert_eq!(t.read_inner().trap_context.sepc, 0x1000);
    assert_eq!(t.read_inner().trap_context.sp(), 0x8000);
}

#[test]
fn sigreturn_restores_saved_state() {
    let mut t = thread_with_mask(0b10);
    let mut saved = TrapContext::app_init(0x2468, 0x7f00, 0x22);
    for (i, r) in saved.user_regs.iter_mut().enumerate() {
        if i != 2 {
            *r = i * 3 + 1;
        }
    }
    let ctx = SignalContext { old_mask: KSignalSet { bits: 0xf0 }, old_trap_context: saved };
    let (r, action) = sys_rt_sigreturn(&mut t, Some(ctx));
    assert_eq!(r, Ok(0));
    assert_eq!(action, SigreturnAction::Resume);
    let inner = t.read_inner();
    assert_eq!(inner.signal_mask.bits, 0xf0);
    assert_eq!(inner.trap_context.user_regs, saved.user_regs);
    assert_eq!(inner.trap_context.sepc, 0x2468);
    assert_eq!(inner.trap_context.sstatus, 0x22);
    assert_eq!(inner.trap_context.sp(), 0x7f00);
    assert_eq!(inner.thread_status, ThreadStatus::Ready);
    assert_eq!(inner.exit_code, 0);
}
