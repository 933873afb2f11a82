use kernel::config::HART_NUM;
use kernel::console::{print, Stdout};
use kernel::hart::{BootState, Hart, Harts};
use kernel::thread::Thread;
use kernel::trap_context::TrapContext;

#[test]
fn hart_runs_and_swaps_threads() {
    let mut hart = Hart::new();
    assert_eq!(hart.hart_id(), 0);
    let t = Thread::new(11, 2, TrapContext::app_init(0x100, 0x200, 0));
    assert!(hart.replace_thread(Some(t)).is_none());
    assert_eq!(hart.curr_thread().tid(), 2);
    assert_eq!(hart.curr_process(), 11);
    assert_eq!(hart.trap_context().sepc, 0x100);
    hart.curr_thread_mut().lock_inner().exit_code = 3;
    let old = hart.replace_thread(None).unwrap();
    assert_eq!(old.read_inner().exit_code, 3);
    assert!(hart.replace_thread(None).is_none());
}

#[test]
fn harts_table_installs_ids() {
    let mut harts = Harts::new();
    for id in 0..HART_NUM {
        harts.set_local_hart(id);
    }
    for id in 0..HART_NUM {
        assert_eq!(harts.local_hart(id).hart_id(), id);
    }
    harts
        .local_hart_mut(1)
        .replace_thread(Some(Thread::new(5, 1, TrapContext::app_init(0, 0, 0))));
    assert_eq!(harts.curr_process(1), 5);
    assert_eq!(harts.local_hart(1).hart_id(), 1);
}

#[test]
fn bring_up_elects_one_leader() {
    let mut boot = BootState::new();
    let mut harts = Harts::new();
    assert!(boot.elect(2));
    assert!(!boot.elect(0));
    assert!(!boot.elect(2));
    assert!(!boot.elect(3));
    assert_eq!(boot.leader(), Some(2));
    assert!(!boot.may_install(0));
    assert!(boot.may_install(2));
    boot.install(&mut harts, 2);
    assert!(boot.is_installed(2));
    assert!(!boot.init_finished());
    boot.finish_init();
    assert!(boot.init_finished());
    for id in [0usize, 1, 3] {
        assert!(boot.may_install(id));
        boot.install(&mut harts, id);
    }
    for id in 0..HART_NUM {
        assert!(boot.is_installed(id));
        assert_eq!(harts.local_hart(id).hart_id(), id);
    }
}

#[test]
fn print_queues_bytes() {
    let mut out = Stdout::new();
    print(&mut out, "hart 0 ");
    out.write_str("up\n");
    print(&mut out, "");
    assert_eq!(out.take_pending(), b"hart 0 up\n".to_vec());
    assert!(out.take_pending().is_empty());
    print(&mut out, "é");
    assert_eq!(out.take_pending(), vec![0xc3, 0xa9]);
}
