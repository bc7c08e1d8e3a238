use dialkey::launch_ipc::{
    clear_ctx, launch_reply, request_id, set_ctx, signal_launch_outcome, signal_reload_outcome,
    LaunchIpcCtx, SignalLaunchError, COPYDATA_LAUNCH, LAUNCH_BAD_REQUEST, LAUNCH_FAILED, LAUNCH_OK,
    LAUNCH_UNKNOWN,
};
use dialkey::launch_queue::{job_kind, launch_is_slow, notify_failure, queue, JobKind, LaunchQueue, QueueError, WorkerStep};
use dialkey::mode_runtime::{
    arm_mode_chord, chord_key_action, configure_mode_mouse, disarm_mode_chord, hook_stalled,
    is_chord_timer, is_health_timer, is_mode_armed, keyset_id_at, keyset_id_for_letter,
    mode_mouse_enabled, mode_mouse_kind, mode_mouse_suppress, mode_pick_file, mouse_hook_beat_ms,
    note_mouse_hook_activity, post_mode_arm, set_keyset_chords, set_mode_pick_files,
    take_cursor_sample, vk_to_chord, vk_to_letter, ChordKeyAction, ModeRuntime,
};
use dialkey::mouse_hook::{configure, launch_button_kind, mouse_decision, MouseTriggerConfig, WM_MBUTTONDOWN, WM_XBUTTONDOWN};

#[test]
fn mode_pick_files_by_index() {
    let mut rt = ModeRuntime::new();
    set_mode_pick_files(&mut rt, vec!["a.json".to_string(), "b.json".to_string()]);
    assert_eq!(mode_pick_file(&rt, 1), Some("b.json".to_string()));
    assert_eq!(mode_pick_file(&rt, 2), None);
}

#[test]
fn keyset_chords_by_letter_case_insensitive() {
    let mut rt = ModeRuntime::new();
    set_keyset_chords(
        &mut rt,
        vec![('a', "numpad".to_string()), ('k', "keyboard".to_string())],
        vec!["numpad".to_string(), "keyboard".to_string()],
    );
    assert_eq!(keyset_id_for_letter(&rt, 'K'), Some("keyboard".to_string()));
    assert_eq!(keyset_id_for_letter(&rt, 'z'), None);
    assert_eq!(keyset_id_at(&rt, 0), Some("numpad".to_string()));
    assert_eq!(keyset_id_at(&rt, 2), None);
}

#[test]
fn vk_mappings() {
    assert_eq!(vk_to_letter(0x41), Some('a'));
    assert_eq!(vk_to_letter(0x5A), Some('z'));
    assert_eq!(vk_to_letter(0x30), None);
    assert_eq!(vk_to_chord(0x35), Some("5".to_string()));
    assert_eq!(vk_to_chord(0x63), Some("3".to_string()));
    assert_eq!(vk_to_chord(0x41), None);
}

#[test]
fn mode_mouse_configuration() {
    let mut rt = ModeRuntime::new();
    assert_eq!(mode_mouse_kind(&rt), 1);
    configure_mode_mouse(&mut rt, "Middle", false, true);
    assert_eq!(mode_mouse_kind(&rt), 2);
    assert!(!mode_mouse_suppress(&rt));
    assert!(mode_mouse_enabled(&rt));
    configure_mode_mouse(&mut rt, "X2", true, false);
    assert_eq!(mode_mouse_kind(&rt), 0);
    configure_mode_mouse(&mut rt, "thumb", true, true);
    assert_eq!(mode_mouse_kind(&rt), 1);
}

#[test]
fn chord_arming() {
    let mut rt = ModeRuntime::new();
    configure_mode_mouse(&mut rt, "x1", true, false);
    assert!(!arm_mode_chord(&mut rt, 1500, true));
    assert!(!is_mode_armed(&rt));
    configure_mode_mouse(&mut rt, "x1", true, true);
    assert!(!arm_mode_chord(&mut rt, 0, true));
    assert!(arm_mode_chord(&mut rt, 1500, true));
    assert!(is_mode_armed(&rt));
    // Closing the typing window drops the listen.
    assert!(!arm_mode_chord(&mut rt, 1500, false));
    assert!(!is_mode_armed(&rt));
    assert!(arm_mode_chord(&mut rt, 1500, true));
    disarm_mode_chord(&mut rt);
    assert!(!is_mode_armed(&rt));
    assert!(post_mode_arm(&rt));
    assert!(is_chord_timer(90));
    assert!(is_health_timer(91));
    assert!(!is_chord_timer(91));
}

#[test]
fn chord_keys_while_armed() {
    let mut rt = ModeRuntime::new();
    configure_mode_mouse(&mut rt, "x1", true, true);
    set_keyset_chords(&mut rt, vec![('k', "keyboard".to_string())], vec!["keyboard".to_string()]);
    assert_eq!(chord_key_action(&rt, 0, 0x0100, false, 0x31), ChordKeyAction::Pass);
    arm_mode_chord(&mut rt, 1000, false);
    assert_eq!(chord_key_action(&rt, 0, 0x0100, false, 0x31), ChordKeyAction::Pass);
    arm_mode_chord(&mut rt, 1000, true);
    assert_eq!(chord_key_action(&rt, 0, 0x0100, false, 0x31), ChordKeyAction::PostModeChord);
    assert_eq!(chord_key_action(&rt, 0, 0x0100, false, 0x4B), ChordKeyAction::PostKeysetChord);
    assert_eq!(chord_key_action(&rt, 0, 0x0100, false, 0x51), ChordKeyAction::DisarmAndPass);
    assert_eq!(chord_key_action(&rt, 0, 0x0101, false, 0x31), ChordKeyAction::Pass);
    assert_eq!(chord_key_action(&rt, 0, 0x0100, true, 0x31), ChordKeyAction::Pass);
    assert_eq!(chord_key_action(&rt, -1, 0x0100, false, 0x31), ChordKeyAction::Pass);
}

#[test]
fn hook_health() {
    let mut rt = ModeRuntime::new();
    note_mouse_hook_activity(&mut rt, 1_000);
    assert_eq!(mouse_hook_beat_ms(&rt), 1_000);
    assert!(!take_cursor_sample(&mut rt, 10, 10));
    assert!(!take_cursor_sample(&mut rt, 10, 10));
    assert!(take_cursor_sample(&mut rt, 11, 10));
    assert!(hook_stalled(true, 7_001, 2_000));
    assert!(!hook_stalled(true, 7_000, 2_000));
    assert!(!hook_stalled(false, 70_000, 2_000));
    assert!(!hook_stalled(true, 1_000, 2_000));
}

#[test]
fn launch_button_kinds() {
    assert_eq!(launch_button_kind("X1"), 1);
    assert_eq!(launch_button_kind("middle"), 2);
    assert_eq!(launch_button_kind("MButton"), 2);
    assert_eq!(launch_button_kind("x2"), 0);
    assert_eq!(launch_button_kind("other"), 0);
}

#[test]
fn mouse_decisions() {
    let mut mode = ModeRuntime::new();
    configure_mode_mouse(&mut mode, "x1", true, true);
    let mut launch = MouseTriggerConfig::new();
    configure(&mut launch, 0, true);
    let x1 = 0x0001_0000;
    let x2 = 0x0002_0000;
    let d = mouse_decision(0, WM_XBUTTONDOWN, x1, &mode, &launch, false, true);
    assert!(d.post_mode_arm && !d.post_trigger && d.swallow);
    let d = mouse_decision(0, WM_XBUTTONDOWN, x2, &mode, &launch, false, true);
    assert!(!d.post_mode_arm && d.post_trigger && d.swallow);
    let d = mouse_decision(0, WM_XBUTTONDOWN, x2, &mode, &launch, false, false);
    assert!(!d.post_trigger && d.swallow);
    let d = mouse_decision(0, WM_XBUTTONDOWN, x2, &mode, &launch, true, true);
    assert!(!d.post_trigger && !d.swallow && !d.post_mode_arm);
    let d = mouse_decision(0, WM_MBUTTONDOWN, 0, &mode, &launch, false, true);
    assert!(!d.post_trigger && !d.swallow);
    let d = mouse_decision(1, WM_XBUTTONDOWN, x2, &mode, &launch, false, true);
    assert!(!d.post_trigger && !d.swallow);
    assert_eq!(launch.kind(), 0);
    assert!(launch.suppress());
}

#[test]
fn launch_signal_outcomes() {
    assert_eq!(signal_launch_outcome(false, LAUNCH_OK), Err(SignalLaunchError::NotRunning));
    assert_eq!(signal_launch_outcome(true, LAUNCH_OK), Ok(()));
    assert_eq!(signal_launch_outcome(true, LAUNCH_UNKNOWN), Err(SignalLaunchError::Host(LAUNCH_UNKNOWN)));
    assert_eq!(signal_reload_outcome(true, true), Ok(()));
    assert_eq!(signal_reload_outcome(true, false), Err(SignalLaunchError::Host(LAUNCH_FAILED)));
    assert_eq!(signal_reload_outcome(false, true), Err(SignalLaunchError::NotRunning));
}

#[test]
fn launch_request_ids() {
    assert_eq!(request_id(COPYDATA_LAUNCH, Some(b" 12 ")), Some("12".to_string()));
    assert_eq!(request_id(COPYDATA_LAUNCH, Some("日本".as_bytes())), Some("日本".to_string()));
    assert_eq!(request_id(COPYDATA_LAUNCH, Some(&[0xFF, 0x31])), None);
    assert_eq!(request_id(COPYDATA_LAUNCH, Some(b"")), None);
    assert_eq!(request_id(1, Some(b"12")), None);
    assert_eq!(request_id(COPYDATA_LAUNCH, None), None);
}

#[test]
fn launch_replies() {
    assert_eq!(launch_reply(false, true, true, true, true), LAUNCH_BAD_REQUEST);
    assert_eq!(launch_reply(true, false, true, true, true), LAUNCH_BAD_REQUEST);
    assert_eq!(launch_reply(true, true, false, true, true), LAUNCH_FAILED);
    assert_eq!(launch_reply(true, true, true, false, true), LAUNCH_UNKNOWN);
    assert_eq!(launch_reply(true, true, true, true, true), LAUNCH_OK);
    assert_eq!(launch_reply(true, true, true, true, false), LAUNCH_FAILED);
}

#[test]
fn launch_context() {
    let mut ctx: LaunchIpcCtx<u32> = LaunchIpcCtx::new();
    assert!(ctx.get().is_none());
    set_ctx(&mut ctx, "C:\\dk".to_string(), 7);
    let (dir, slots) = ctx.get().unwrap();
    assert_eq!(dir, "C:\\dk");
    assert_eq!(*slots, 7);
    clear_ctx(&mut ctx);
    assert!(ctx.get().is_none());
}

#[test]
fn queue_is_fifo_and_needs_worker() {
    let mut q: LaunchQueue<u32> = LaunchQueue::new();
    assert_eq!(queue(&mut q, 1), Err(QueueError::NotStarted));
    q.start();
    assert_eq!(queue(&mut q, 1), Ok(()));
    assert_eq!(queue(&mut q, 2), Ok(()));
    assert_eq!(q.take_next(), Some(1));
    assert_eq!(q.take_next(), Some(2));
    assert_eq!(q.take_next(), None);
    queue(&mut q, 3).unwrap();
    q.stop();
    assert_eq!(queue(&mut q, 4), Err(QueueError::NotStarted));
    // Jobs queued before the stop still run, then the worker exits.
    assert_eq!(q.worker_step(), WorkerStep::Run(3));
    assert_eq!(q.worker_step(), WorkerStep::Exit);
}

#[test]
fn worker_idles_while_open() {
    let mut q: LaunchQueue<u32> = LaunchQueue::new();
    q.start();
    assert_eq!(q.worker_step(), WorkerStep::Idle);
    queue(&mut q, 9).unwrap();
    assert_eq!(q.worker_step(), WorkerStep::Run(9));
    assert_eq!(q.worker_step(), WorkerStep::Idle);
}

#[test]
fn job_helpers() {
    assert_eq!(job_kind(true), JobKind::OpenWorkdir);
    assert_eq!(job_kind(false), JobKind::Launch);
    assert!(launch_is_slow(250));
    assert!(!launch_is_slow(249));
    assert!(notify_failure(false, 5));
    assert!(!notify_failure(false, 0));
    assert!(!notify_failure(true, 5));
}
