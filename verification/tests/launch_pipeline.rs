use dialkey::launch_ipc::{
    clear_ctx, handle_copydata, set_ctx, LaunchIpcCtx, LAUNCH_BAD_REQUEST, LAUNCH_FAILED,
    LAUNCH_OK, LAUNCH_UNKNOWN,
};
use dialkey::launch_queue::{LaunchJob, LaunchQueue, SlotTable};
use dialkey::typing::{run_slot_launch, LaunchFeedback};

fn table(entries: &[(&str, u32)]) -> SlotTable<u32> {
    let mut t = SlotTable::new();
    for (id, slot) in entries {
        t.add(id.to_string(), *slot);
    }
    t
}

fn running() -> LaunchQueue<LaunchJob<u32>> {
    let mut q = LaunchQueue::new();
    q.start();
    q
}

#[test]
fn slot_table_lookup_is_exact() {
    let t = table(&[("01", 10), ("1", 11), ("01", 12)]);
    assert_eq!(t.get("01"), Some(10));
    assert_eq!(t.get("1"), Some(11));
    assert_eq!(t.get("001"), None);
    let copy = t.snapshot();
    assert_eq!(copy.get("01"), Some(10));
    assert_eq!(copy.get("1"), Some(11));
}

#[test]
fn launch_request_queues_one_job() {
    let mut ipc = LaunchIpcCtx::new();
    let mut q = running();
    set_ctx(&mut ipc, "C:\\dk".to_string(), table(&[("01", 7), ("2", 8)]));
    assert_eq!(handle_copydata(&ipc, &mut q, Some("01"), true, 42), LAUNCH_OK);
    let job = q.take_next().expect("one job");
    assert_eq!(job.slot, 7);
    assert_eq!(job.exe_dir, "C:\\dk");
    assert!(!job.folder_only);
    assert_eq!(job.notify_host, 42);
    assert_eq!(job.registry.get("2"), Some(8));
    assert!(q.take_next().is_none());
}

#[test]
fn launch_request_errors_queue_nothing() {
    let mut ipc = LaunchIpcCtx::new();
    let mut q = running();
    assert_eq!(handle_copydata(&ipc, &mut q, Some("01"), true, 1), LAUNCH_FAILED);
    set_ctx(&mut ipc, "C:\\dk".to_string(), table(&[("01", 7)]));
    assert_eq!(handle_copydata(&ipc, &mut q, None, true, 1), LAUNCH_BAD_REQUEST);
    assert_eq!(handle_copydata(&ipc, &mut q, Some("0 1"), false, 1), LAUNCH_BAD_REQUEST);
    assert_eq!(handle_copydata(&ipc, &mut q, Some("1"), true, 1), LAUNCH_UNKNOWN);
    clear_ctx(&mut ipc);
    clear_ctx(&mut ipc);
    assert_eq!(handle_copydata(&ipc, &mut q, Some("01"), true, 1), LAUNCH_FAILED);
    assert!(q.take_next().is_none());
    let mut stopped = LaunchQueue::new();
    set_ctx(&mut ipc, "C:\\dk".to_string(), table(&[("01", 7)]));
    assert_eq!(handle_copydata(&ipc, &mut stopped, Some("01"), true, 1), LAUNCH_FAILED);
    assert!(stopped.take_next().is_none());
}

#[test]
fn new_context_replaces_old() {
    let mut ipc = LaunchIpcCtx::new();
    let mut q = running();
    set_ctx(&mut ipc, "C:\\old".to_string(), table(&[("5", 50)]));
    set_ctx(&mut ipc, "C:\\new".to_string(), table(&[("6", 60)]));
    assert_eq!(handle_copydata(&ipc, &mut q, Some("5"), true, 3), LAUNCH_UNKNOWN);
    assert_eq!(handle_copydata(&ipc, &mut q, Some("6"), true, 3), LAUNCH_OK);
    let job = q.take_next().expect("job");
    assert_eq!(job.slot, 60);
    assert_eq!(job.exe_dir, "C:\\new");
}

#[test]
fn typing_slot_launch() {
    let slots = table(&[("3", 30)]);
    let mut q = running();
    let fb = run_slot_launch(&slots, &mut q, "3", "C:\\dk", true, 9, 800);
    assert_eq!(fb, LaunchFeedback { post_failed: false, shown_ok: true, hold: true, close_now: false });
    let job = q.take_next().expect("job");
    assert_eq!(job.slot, 30);
    assert!(job.folder_only);
    assert_eq!(job.notify_host, 9);
    let unknown = run_slot_launch(&slots, &mut q, "4", "C:\\dk", false, 9, 0);
    assert_eq!(unknown, LaunchFeedback { post_failed: true, shown_ok: false, hold: false, close_now: true });
    assert!(q.take_next().is_none());
    let mut stopped = LaunchQueue::new();
    let refused = run_slot_launch(&slots, &mut stopped, "3", "C:\\dk", false, 9, 0);
    assert!(refused.post_failed && !refused.shown_ok);
    assert!(stopped.take_next().is_none());
}
