use dialkey::focus_existing::{is_exe_extension, try_focus_existing, window_hit, WindowFacts, WS_EX_TOOLWINDOW};
use dialkey::host::{key_set_switch_plan, mode_switch_plan, KeySetSwitch, ModeSwitch};
use dialkey::settings::AfterSave;
use dialkey::settings_save::{
    confirm_leave_slots_book, save_draft_outcome, LeaveAnswer, LeaveInputs, SaveAbort, SaveDone, SaveInputs,
};
use dialkey::tray::{add_attempt_step, AddStep};
use dialkey::typing::{feedback_text, idle_timer_ms, paint_rows, FeedbackText, RowPaint, TypingRow};

fn good() -> SaveInputs {
    SaveInputs {
        edit_allowed: true,
        form_dirty: false,
        form_applied: false,
        fields_ok: true,
        settings_writable: true,
        chains_ok: true,
        settings_saved: true,
        target_writable: true,
        slots_writable: true,
        target_is_path_at_open: false,
        slots_written: true,
        close_after: true,
        locale_changed: false,
        slots_file_changed: false,
    }
}

#[test]
fn save_succeeds_and_closes() {
    assert_eq!(save_draft_outcome(good()), Ok(SaveDone { slots_saved: true, then: AfterSave::Close }));
    let apply = SaveInputs { close_after: false, locale_changed: true, ..good() };
    assert_eq!(save_draft_outcome(apply), Ok(SaveDone { slots_saved: true, then: AfterSave::Reopen }));
    let sample = SaveInputs { target_writable: false, close_after: false, ..good() };
    assert_eq!(save_draft_outcome(sample), Ok(SaveDone { slots_saved: false, then: AfterSave::ShowSaved }));
}

#[test]
fn save_stops_at_first_failure() {
    let form = SaveInputs { form_dirty: true, form_applied: false, fields_ok: false, ..good() };
    assert_eq!(save_draft_outcome(form), Err(SaveAbort::SlotFormRejected));
    let blocked_form = SaveInputs { edit_allowed: false, form_dirty: true, ..good() };
    assert!(save_draft_outcome(blocked_form).is_ok());
    assert_eq!(save_draft_outcome(SaveInputs { fields_ok: false, ..good() }), Err(SaveAbort::FieldRejected));
    assert_eq!(
        save_draft_outcome(SaveInputs { settings_writable: false, chains_ok: false, ..good() }),
        Err(SaveAbort::SettingsUnwritable)
    );
    assert_eq!(save_draft_outcome(SaveInputs { chains_ok: false, ..good() }), Err(SaveAbort::ChainInvalid));
    assert_eq!(save_draft_outcome(SaveInputs { settings_saved: false, ..good() }), Err(SaveAbort::SettingsWriteFailed));
    assert_eq!(
        save_draft_outcome(SaveInputs { slots_writable: false, target_is_path_at_open: true, ..good() }),
        Err(SaveAbort::SlotsUnwritable)
    );
    assert_eq!(save_draft_outcome(SaveInputs { slots_written: false, ..good() }), Err(SaveAbort::SlotsWriteFailed));
}

fn leave(form_dirty: bool, slots_changed: bool, answer: LeaveAnswer) -> LeaveInputs {
    LeaveInputs { form_dirty, slots_changed, answer, form_applied: true, target_writable: true, slots_written: true }
}

#[test]
fn leaving_a_book() {
    assert!(confirm_leave_slots_book(leave(false, false, LeaveAnswer::Cancel)));
    assert!(!confirm_leave_slots_book(leave(true, false, LeaveAnswer::Cancel)));
    assert!(confirm_leave_slots_book(leave(false, true, LeaveAnswer::No)));
    assert!(confirm_leave_slots_book(leave(false, true, LeaveAnswer::Yes)));
    assert!(!confirm_leave_slots_book(LeaveInputs { slots_written: false, ..leave(false, true, LeaveAnswer::Yes) }));
    assert!(!confirm_leave_slots_book(LeaveInputs { form_applied: false, ..leave(true, false, LeaveAnswer::Yes) }));
    assert!(confirm_leave_slots_book(LeaveInputs { target_writable: false, slots_written: false, ..leave(false, true, LeaveAnswer::Yes) }));
}

fn facts() -> WindowFacts {
    WindowFacts { visible: true, owned: false, ex_style: 0, title_matches: false, class_denied: false, image_matches: None }
}

#[test]
fn focus_candidates() {
    assert!(is_exe_extension(Some("EXE")));
    assert!(!is_exe_extension(Some("xlsx")));
    assert!(!is_exe_extension(None));
    assert!(window_hit(WindowFacts { title_matches: true, ..facts() }, false));
    assert!(!window_hit(WindowFacts { title_matches: true, class_denied: true, ..facts() }, false));
    assert!(window_hit(WindowFacts { title_matches: true, class_denied: true, ..facts() }, true));
    assert!(window_hit(WindowFacts { image_matches: Some(true), ..facts() }, true));
    assert!(!window_hit(WindowFacts { image_matches: Some(true), ..facts() }, false));
    assert!(!window_hit(WindowFacts { visible: false, title_matches: true, ..facts() }, true));
    assert!(!window_hit(WindowFacts { owned: true, title_matches: true, ..facts() }, true));
    assert!(!window_hit(WindowFacts { ex_style: WS_EX_TOOLWINDOW, title_matches: true, ..facts() }, true));
}

#[test]
fn focus_pass_takes_first_hit() {
    let ws = vec![
        (1, facts()),
        (2, WindowFacts { title_matches: true, ..facts() }),
        (3, WindowFacts { title_matches: true, ..facts() }),
    ];
    assert_eq!(try_focus_existing("C:\\doc.txt", &ws, false), Some(2));
    assert_eq!(try_focus_existing("", &ws, false), None);
    assert_eq!(try_focus_existing("C:\\doc.txt", &vec![(1, facts())], false), None);
}

#[test]
fn switching_books_and_key_sets() {
    assert_eq!(mode_switch_plan("", true, "a.json"), ModeSwitch::Ignore);
    assert_eq!(mode_switch_plan("sample.json", false, "a.json"), ModeSwitch::Ignore);
    assert_eq!(mode_switch_plan("a.json", true, "a.json"), ModeSwitch::AlreadyActive);
    assert_eq!(mode_switch_plan("b.json", true, "a.json"), ModeSwitch::Switch);
    assert_eq!(key_set_switch_plan(true, false, true), KeySetSwitch::Ignore);
    assert_eq!(key_set_switch_plan(false, true, false), KeySetSwitch::SaveOnly);
    assert_eq!(key_set_switch_plan(false, false, false), KeySetSwitch::Unknown);
    assert_eq!(key_set_switch_plan(false, false, true), KeySetSwitch::SaveAndReload);
}

#[test]
fn tray_add_attempts() {
    assert_eq!(add_attempt_step(1, true), AddStep::Added);
    assert_eq!(add_attempt_step(1, false), AddStep::Retry);
    assert_eq!(add_attempt_step(4, false), AddStep::Retry);
    assert_eq!(add_attempt_step(5, false), AddStep::GiveUp);
}

#[test]
fn feedback_lines() {
    assert_eq!(feedback_text(false, true), FeedbackText::Launching);
    assert_eq!(feedback_text(false, false), FeedbackText::LaunchFailed);
    assert_eq!(feedback_text(true, true), FeedbackText::OpeningFolder);
    assert_eq!(feedback_text(true, false), FeedbackText::OpenFolderFailed);
}

fn row(k: &str, t: &str) -> TypingRow {
    TypingRow { key: k.to_string(), title: t.to_string() }
}

#[test]
fn painting_rows() {
    let rows = vec![row("", "--------"), row("1", "Editor"), row("", "free"), row("12", "Mail")];
    let widths = vec![0, 10, 99, 20];
    let ops = paint_rows(&rows, &widths, None, 420);
    assert_eq!(
        ops,
        vec![
            RowPaint::Rule { y: 20, x1: 12, x2: 408 },
            RowPaint::KeyAndTitle { key_x: 12, title_x: 44, y: 30 },
            RowPaint::Title { x: 12, y: 48 },
            RowPaint::KeyAndTitle { key_x: 12, title_x: 44, y: 66 },
        ]
    );
    let ops2 = paint_rows(&rows, &widths, Some(2), 0);
    assert_eq!(ops2[2], RowPaint::Rule { y: 56, x1: 12, x2: 408 });
    let ops3 = paint_rows(&rows, &widths, None, 40);
    assert_eq!(ops3[0], RowPaint::Rule { y: 20, x1: 12, x2: 52 });
}

#[test]
fn idle_timer() {
    assert_eq!(idle_timer_ms(0), None);
    assert_eq!(idle_timer_ms(30), Some(30_000));
}

#[test]
fn locale_names() {
    let mut buf = [0u16; 85];
    for (i, u) in "ja-JP".encode_utf16().enumerate() {
        buf[i] = u;
    }
    assert_eq!(dialkey::locale::locale_name(&buf, 6), Some("ja-JP".to_string()));
    assert_eq!(dialkey::locale::locale_name(&buf, 1), None);
    assert_eq!(dialkey::locale::locale_name(&buf, 0), None);
}

#[test]
fn settings_close_if_open() {
    let mut rt = dialkey::settings::SettingsRuntime::new();
    assert_eq!(dialkey::settings::close_if_open(&rt), None);
    dialkey::settings::settings_opened(&mut rt, 8);
    assert_eq!(dialkey::settings::close_if_open(&rt), Some(8));
    dialkey::settings::settings_closed(&mut rt);
    assert_eq!(dialkey::settings::close_if_open(&rt), None);
}
