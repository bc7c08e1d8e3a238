use dialkey::mode_runtime::{mode_pick_file, ModeRuntime};
use dialkey::shell::{shell_open, shell_request};
use dialkey::tray::{fit_units, menu_command, TrayClick, TrayCommand, WindowsTray};
use dialkey::typing::{
    dial_area_rows, handle_key, mode_mouse_on, slot_launch_feedback, slot_name, trigger_action,
    typing_key_rows, with_pack_line, KeyAction, KeyEvent, KeyFilter, KeyMatch, KeyRoute,
    SlotName, TriggerAction, TypingRow,
};

fn strings(v: &[&str]) -> Vec<String> {
    v.iter().map(|s| s.to_string()).collect()
}

#[test]
fn tray_callbacks() {
    let tray = WindowsTray::new(1, 2);
    assert_eq!(tray.handle_callback(0x0400), TrayClick::OpenSearch);
    assert_eq!(tray.handle_callback(0x0202), TrayClick::OpenSearch);
    assert_eq!(tray.handle_callback(0x007B), TrayClick::ContextMenu);
    assert_eq!(tray.handle_callback(0x0205), TrayClick::ContextMenu);
    assert_eq!(tray.handle_callback(0x0001_0205), TrayClick::ContextMenu);
    assert_eq!(tray.handle_callback(0x0200), TrayClick::Ignore);
}

#[test]
fn tray_added_state() {
    let mut tray = WindowsTray::new(1, 2);
    assert!(!tray.is_added());
    assert!(!tray.notify());
    tray.mark_added();
    assert!(tray.notify());
    assert!(tray.remove());
    assert!(!tray.remove());
    assert_eq!((tray.hwnd(), tray.icon()), (1, 2));
}

#[test]
fn tray_menu_commands() {
    assert_eq!(menu_command(1001, 0, 0), TrayCommand::Run);
    assert_eq!(menu_command(1006, 0, 0), TrayCommand::Quit);
    assert_eq!(menu_command(1101, 2, 0), TrayCommand::ModePick(1));
    assert_eq!(menu_command(1102, 2, 0), TrayCommand::Nothing);
    assert_eq!(menu_command(1200, 0, 1), TrayCommand::KeysetPick(0));
    assert_eq!(menu_command(0, 2, 2), TrayCommand::Nothing);
}

#[test]
fn tray_context_menu_marks_current() {
    let mut tray = WindowsTray::new(1, 2);
    let mut rt = ModeRuntime::new();
    tray.set_mode_files(&mut rt, strings(&["home.json", "work.json"]), strings(&["Home"]), "WORK.json".to_string());
    tray.set_key_sets(strings(&["numpad", "keyboard"]), strings(&["Numpad", "Keyboard"]), "numpad".to_string());
    assert_eq!(mode_pick_file(&rt, 1), Some("work.json".to_string()));
    let m = tray.context_menu();
    assert_eq!(m.mode_items.len(), 2);
    assert_eq!((m.mode_items[0].id, m.mode_items[0].label.as_str(), m.mode_items[0].checked), (1100, "Home", false));
    assert_eq!((m.mode_items[1].id, m.mode_items[1].label.as_str(), m.mode_items[1].checked), (1101, "work.json", true));
    assert_eq!((m.keyset_items[0].id, m.keyset_items[0].checked), (1200, true));
    assert_eq!((m.keyset_items[1].label.as_str(), m.keyset_items[1].checked), ("Keyboard", false));
}

#[test]
fn fit_units_keeps_what_fits() {
    assert_eq!(fit_units(&[0x41, 0x42, 0x43], 2), vec![0x41, 0x42]);
    assert_eq!(fit_units(&[0x41, 0x42, 0], 128), vec![0x41, 0x42, 0]);
}

#[test]
fn shell_requests() {
    let r = shell_request("C:\\a.txt", Some("")).unwrap();
    assert_eq!(r.file, "C:\\a.txt");
    assert_eq!(r.directory, None);
    let r2 = shell_request("C:\\a.txt", Some("C:\\")).unwrap();
    assert_eq!(r2.directory, Some("C:\\".to_string()));
    assert!(shell_request("", Some("C:\\")).is_none());
}

#[test]
fn shell_open_results() {
    assert_eq!(shell_open("C:\\a.txt", true, false), Ok(()));
    assert_eq!(shell_open("C:\\a.txt", false, true), Ok(()));
    assert_eq!(shell_open("C:\\a.txt", false, false), Err("ShellExecute failed for C:\\a.txt".to_string()));
}

#[test]
fn key_filter_posts_once_per_press() {
    let mut f = KeyFilter::new();
    assert_eq!(f.on_key(0, 0x0100, false, true, 0x31, true), KeyAction::Pass);
    f.install();
    assert_eq!(f.on_key(0, 0x0100, false, true, 0x31, true), KeyAction::PostAndSwallow);
    assert_eq!(f.on_key(0, 0x0100, false, true, 0x31, true), KeyAction::Swallow);
    assert_eq!(f.on_key(0, 0x0101, false, true, 0x31, true), KeyAction::Swallow);
    assert_eq!(f.on_key(0, 0x0100, false, true, 0x31, true), KeyAction::PostAndSwallow);
    assert_eq!(f.on_key(0, 0x0100, false, true, 0x41, false), KeyAction::Pass);
    assert_eq!(f.on_key(0, 0x0100, true, true, 0x32, true), KeyAction::Pass);
    assert_eq!(f.on_key(0, 0x0100, false, false, 0x32, true), KeyAction::Pass);
    f.clear();
    assert_eq!(f.on_key(0, 0x0104, false, true, 0x31, true), KeyAction::PostAndSwallow);
    // The session closed: its hook is gone and every key passes.
    f.uninstall();
    assert_eq!(f.on_key(0, 0x0100, false, true, 0x32, true), KeyAction::Pass);
    assert_eq!(f.on_key(0, 0x0101, false, true, 0x31, true), KeyAction::Pass);
}

fn m() -> KeyMatch {
    KeyMatch {
        cancel: false,
        start: false,
        confirm: false,
        open_workdir: false,
        digit_back: false,
        search: false,
        wake: false,
        digit: None,
    }
}

#[test]
fn key_routes() {
    assert_eq!(handle_key(true, KeyMatch { cancel: true, ..m() }), KeyRoute::Feedback { close: true });
    assert_eq!(handle_key(true, KeyMatch { digit: Some(3), ..m() }), KeyRoute::Feedback { close: false });
    assert_eq!(handle_key(false, KeyMatch { wake: true, cancel: true, ..m() }), KeyRoute::Ignore);
    assert_eq!(handle_key(false, KeyMatch { cancel: true, start: true, ..m() }), KeyRoute::Event(KeyEvent::Cancel));
    assert_eq!(handle_key(false, KeyMatch { search: true, digit: Some(1), ..m() }), KeyRoute::Event(KeyEvent::Search));
    assert_eq!(handle_key(false, KeyMatch { digit: Some(7), ..m() }), KeyRoute::Event(KeyEvent::Digit(7)));
    assert_eq!(handle_key(false, m()), KeyRoute::Ignore);
}

#[test]
fn launch_feedback() {
    let f = slot_launch_feedback(1200, true, true);
    assert!(f.shown_ok && !f.post_failed && f.hold && !f.close_now);
    let g = slot_launch_feedback(0, false, true);
    assert!(!g.shown_ok && g.post_failed && !g.hold && g.close_now);
    assert!(slot_launch_feedback(800, true, false).post_failed);
}

#[test]
fn trigger_actions() {
    assert_eq!(trigger_action(true, false, false, false), TriggerAction::Ignore);
    assert_eq!(trigger_action(false, true, false, false), TriggerAction::Ignore);
    assert_eq!(trigger_action(false, false, true, true), TriggerAction::CloseSearch);
    assert_eq!(trigger_action(false, false, false, true), TriggerAction::CloseTyping);
    assert_eq!(trigger_action(false, false, false, false), TriggerAction::OpenTyping);
}

#[test]
fn mode_mouse_switch() {
    assert!(mode_mouse_on("x2", "x1", 1500));
    assert!(!mode_mouse_on("x1", " X1 ", 1500));
    assert!(!mode_mouse_on("x2", "x1", 0));
    assert!(mode_mouse_on("x1", "", 1500));
}

#[test]
fn typing_rows_are_padded() {
    let rows = typing_key_rows(vec![TypingRow { key: "+".to_string(), title: "Search".to_string() }]);
    assert_eq!(rows.len(), 6);
    assert_eq!(rows[0].title, "--------");
    assert_eq!((rows[1].key.as_str(), rows[1].title.as_str()), ("+", "Search"));
    assert_eq!((rows[5].key.as_str(), rows[5].title.as_str()), ("", ""));
}

#[test]
fn about_text_with_pack_line() {
    assert_eq!(with_pack_line("DialKey 1.0\nDocs", "Language pack: ja"), "DialKey 1.0\nLanguage pack: ja\nDocs");
    assert_eq!(with_pack_line("DialKey 1.0", "Language pack: ja"), "DialKey 1.0\nLanguage pack: ja");
}

fn registry() -> Vec<SlotName> {
    vec![
        SlotName { id: "1".to_string(), name: "Editor".to_string() },
        SlotName { id: "12".to_string(), name: "Mail".to_string() },
    ]
}

#[test]
fn slot_names() {
    assert_eq!(slot_name(&registry(), "12"), "Mail");
    assert_eq!(slot_name(&registry(), "99"), "");
}

#[test]
fn dial_rows() {
    let ids = strings(&["1", "12", "", "13"]);
    let instant = strings(&["12"]);
    let rows = dial_area_rows(&ids, "1_", "1", true, &instant, &registry());
    assert_eq!(rows.len(), 4);
    assert_eq!((rows[0].key.as_str(), rows[0].title.as_str()), ("1_", "Editor"));
    assert_eq!((rows[1].key.as_str(), rows[1].title.as_str()), ("12", "Mail"));
    assert_eq!((rows[2].key.as_str(), rows[2].title.as_str()), ("", ""));
    assert_eq!((rows[3].key.as_str(), rows[3].title.as_str()), ("13", ""));
    let typing = dial_area_rows(&ids, "", "", false, &instant, &registry());
    assert_eq!(typing[0].title, "");
    assert_eq!(typing[1].title, "Mail");
}
