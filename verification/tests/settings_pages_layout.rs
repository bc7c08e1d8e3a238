use dialkey::settings_general::{general_layout, GeneralWidths, Placed};
use dialkey::settings_keys::{keys_layout, KeysWidths};
use dialkey::settings_pages::{
    mode_page_layout, search_page_layout, slots_page_layout, triggers_page_layout, ModeWidths,
    TriggersWidths,
};
use dialkey::settings_restore::{
    restore_layout, restore_outer_size, restore_step, RestoreChoice, RestoreScope, RestoreStep,
    RestoreTexts,
};
use dialkey::settings_tabs::{place_tab_buttons, TabWidths};

fn p(x: i32, y: i32, w: i32, h: i32) -> Placed {
    Placed { x, y, w, h }
}

fn gw() -> GeneralWidths {
    GeneralWidths { autostart_text: 300, open_folder: 120, browse: 90, backup: 100, restore: 110 }
}

#[test]
fn general_tab_basic() {
    assert!(general_layout(0, 600, true, false, gw()).is_none());
    assert!(general_layout(700, 600, false, false, gw()).is_none());
    let l = general_layout(700, 600, true, false, gw()).unwrap();
    assert_eq!(l.lang_label, p(28, 34, 644, 26));
    assert_eq!(l.locale_combo, p(28, 64, 260, 200));
    assert_eq!(l.autostart, p(28, 104, 644, 22));
    assert_eq!(l.open_folder, p(28, 138, 120, 28));
    assert_eq!(l.backup_label, p(28, 178, 644, 26));
    assert_eq!(l.backup_edit, p(28, 208, 320, 24));
    assert_eq!(l.backup_browse, p(356, 208, 90, 28));
    assert_eq!(l.backup_config, p(454, 208, 100, 28));
    assert_eq!(l.backup_restore, p(562, 208, 110, 28));
    assert!(l.advanced.is_none());
    assert_eq!(l.group, p(12, 6, 676, 248));
    assert_eq!(l.status, p(28, 262, 644, 40));
    assert_eq!(l.height, 302);
}

#[test]
fn general_tab_advanced() {
    let l = general_layout(700, 600, true, true, gw()).unwrap();
    let a = l.advanced.unwrap();
    assert_eq!(a.slots_label, p(28, 138, 644, 26));
    assert_eq!(a.slots_combo, p(28, 168, 300, 28));
    assert_eq!(l.open_folder, p(552, 168, 120, 28));
    assert_eq!(l.backup_label.y, 208);
    assert_eq!(a.timeout_label, p(28, 278, 644, 26));
    assert_eq!(a.timeout_edit, p(28, 308, 80, 24));
    assert_eq!(a.log_combo, p(28, 506, 140, 200));
    assert_eq!(l.group, p(12, 6, 676, 546));
    assert_eq!(l.height, 600);
}

#[test]
fn general_tab_wraps_long_autostart_caption() {
    let mut w = gw();
    w.autostart_text = 700;
    let l = general_layout(700, 600, true, false, w).unwrap();
    assert_eq!(l.autostart.h, 36);
}

fn kw() -> KeysWidths {
    KeysWidths {
        capture_btn: 80,
        caption_col: 100,
        set_label_text: 60,
        wake_text: 700,
        reset_btn: 90,
        idle_up: 70,
        idle_down: 80,
        multi_up: 70,
        multi_down: 80,
    }
}

#[test]
fn keys_tab() {
    assert!(keys_layout(700, 600, false, kw()).is_none());
    let l = keys_layout(700, 600, true, kw()).unwrap();
    assert_eq!(l.set_label, p(28, 34, 72, 26));
    assert_eq!(l.set_combo, p(112, 34, 140, 200));
    assert_eq!(l.rows.len(), 6);
    assert_eq!(l.rows[0].caption, p(28, 72, 100, 26));
    assert_eq!(l.rows[0].value, p(140, 72, 372, 26));
    assert_eq!(l.rows[0].display, p(524, 72, 56, 24));
    assert_eq!(l.rows[0].capture, p(592, 72, 80, 24));
    assert_eq!(l.rows[5].caption.y, 262);
    assert_eq!(l.wake_check, p(28, 300, 644, 36));
    assert_eq!(l.wake_caption, p(28, 348, 100, 26));
    assert_eq!(l.wake_capture, p(592, 348, 80, 24));
    assert_eq!(l.reset, p(28, 386, 90, 26));
    assert_eq!(l.keys_group, p(12, 6, 676, 418));
    assert_eq!(l.legend_idle_label, p(28, 460, 314, 26));
    assert_eq!(l.legend_multi_label, p(358, 460, 314, 26));
    assert_eq!(l.legend_checks.len(), 5);
    assert_eq!(l.legend_checks[0], (p(28, 490, 314, 22), p(358, 490, 314, 22)));
    assert_eq!(l.legend_checks[4].0.y, 626);
    assert_eq!(l.idle_up, p(28, 672, 70, 24));
    assert_eq!(l.idle_down, p(106, 672, 80, 24));
    assert_eq!(l.multi_up, p(358, 672, 70, 24));
    assert_eq!(l.multi_down, p(436, 672, 80, 24));
    assert_eq!(l.legend_group, p(12, 432, 676, 276));
    assert_eq!(l.capture_status, p(28, 716, 644, 56));
    assert_eq!(l.height, 772);
}

fn rt() -> RestoreTexts {
    RestoreTexts { ok_btn: 60, cancel_btn: 100, all_text: 150, current_text: 170, settings_text: 160, hint_text: 250 }
}

#[test]
fn restore_dialog_layout() {
    let l = restore_layout(rt());
    assert_eq!(l.radio_all, p(16, 16, 198, 22));
    assert_eq!(l.radio_current, p(16, 42, 198, 22));
    assert_eq!(l.settings_check, p(16, 68, 198, 22));
    assert_eq!(l.hint, p(16, 98, 250, 22));
    assert_eq!(l.ok, p(78, 132, 80, 28));
    assert_eq!(l.cancel, p(166, 132, 100, 28));
    assert_eq!((l.client_w, l.client_h), (282, 176));
    assert_eq!(restore_outer_size(282, 176, None), (298, 215));
    assert_eq!(restore_outer_size(282, 176, Some((300, 200))), (300, 200));
    assert_eq!(restore_outer_size(282, 176, Some((10, 10))), (282, 176));
}

#[test]
fn restore_dialog_answers() {
    assert_eq!(
        restore_step(4, true, false),
        RestoreStep::Finish(Some(RestoreChoice { scope: RestoreScope::AllBooks, include_settings: false }))
    );
    assert_eq!(
        restore_step(0x0001_0004, false, true),
        RestoreStep::Finish(Some(RestoreChoice { scope: RestoreScope::CurrentBook, include_settings: true }))
    );
    assert_eq!(restore_step(5, true, true), RestoreStep::Finish(None));
    assert_eq!(restore_step(1, true, true), RestoreStep::Continue);
}

fn tw() -> TabWidths {
    TabWidths { general: 60, slots: 90, mode: 70, keys: 100, triggers: 85, search: 95, advanced_text: 100 }
}

#[test]
fn tabs_without_advanced() {
    assert!(place_tab_buttons(0, false, tw()).is_none());
    let t = place_tab_buttons(900, false, tw()).unwrap();
    assert_eq!(t.general.rect, p(12, 10, 80, 26));
    assert_eq!(t.slots.rect, p(100, 10, 90, 26));
    assert!(!t.mode.shown && !t.keys.shown && !t.triggers.shown && !t.search.shown);
    assert_eq!(t.mode.rect.x, 198);
    assert_eq!(t.search.rect.x, 198);
    assert_eq!(t.advanced_check, p(752, 10, 128, 26));
}

#[test]
fn tabs_with_advanced() {
    let t = place_tab_buttons(900, true, tw()).unwrap();
    assert_eq!(t.mode.rect, p(198, 10, 80, 26));
    assert_eq!(t.keys.rect, p(286, 10, 100, 26));
    assert_eq!(t.triggers.rect, p(394, 10, 85, 26));
    assert_eq!(t.search.rect, p(487, 10, 95, 26));
    assert!(t.search.shown);
    let narrow = place_tab_buttons(300, true, tw()).unwrap();
    assert_eq!(narrow.advanced_check.x, 590);
}

#[test]
fn slots_tab() {
    assert!(slots_page_layout(900, 0).is_none());
    let l = slots_page_layout(900, 700).unwrap();
    assert_eq!(l.current_label, p(12, 12, 876, 26));
    assert_eq!(l.id_label, p(292, 42, 120, 26));
    assert_eq!(l.name_label, p(424, 42, 464, 26));
    assert_eq!(l.id_edit, p(292, 72, 100, 24));
    assert_eq!(l.path_edit, p(292, 138, 596, 24));
    assert_eq!(l.workdir_edit, p(292, 204, 596, 24));
    assert_eq!(l.instant_check, p(292, 308, 596, 22));
    assert_eq!(l.desc_label, p(292, 342, 596, 26));
    assert_eq!(l.desc_edit, p(292, 372, 596, 160));
    assert_eq!(l.warn, p(292, 544, 596, 56));
    assert_eq!(l.list, p(12, 42, 260, 558));
    assert_eq!(l.height, 524);
}

#[test]
fn slots_tab_short_panel() {
    let l = slots_page_layout(900, 450).unwrap();
    assert_eq!(l.desc_edit.h, 48);
    assert_eq!(l.warn, p(292, 432, 596, 28));
    assert_eq!(l.list.h, 418);
}

#[test]
fn search_tab() {
    let l = search_page_layout(700, 500, true, 100).unwrap();
    assert_eq!(l.match_label, p(28, 34, 644, 26));
    assert_eq!(l.mode_combo, p(28, 64, 160, 200));
    assert_eq!(l.case_check, p(28, 104, 644, 22));
    assert_eq!(l.group, p(12, 6, 676, 138));
    assert_eq!(l.height, 144);
    assert!(search_page_layout(700, 500, false, 100).is_none());
}

#[test]
fn triggers_tab() {
    let w = TriggersWidths {
        capture_btn: 80,
        mode_suppress_text: 100,
        numpad_label_text: 60,
        keyboard_label_text: 70,
        suppress_text: 100,
        reset_btn: 90,
    };
    let l = triggers_page_layout(700, 600, true, w).unwrap();
    assert_eq!(l.mode_mouse_combo, p(28, 64, 120, 200));
    assert_eq!(l.mode_timeout_edit, p(28, 168, 80, 24));
    assert_eq!(l.numpad_letter_label, p(28, 204, 72, 26));
    assert_eq!(l.numpad_letter_combo, p(112, 204, 56, 200));
    assert_eq!(l.keyboard_letter_label, p(200, 204, 82, 26));
    assert_eq!(l.keyboard_letter_combo, p(294, 204, 56, 200));
    assert_eq!(l.switch_group, p(12, 6, 676, 240));
    assert_eq!(l.mouse_combo, p(28, 312, 120, 200));
    assert_eq!(l.mouse_capture, p(156, 312, 80, 24));
    assert_eq!(l.hotkey_edit, p(28, 412, 220, 24));
    assert_eq!(l.reset, p(28, 478, 90, 26));
    assert_eq!(l.status, p(28, 508, 644, 26));
    assert_eq!(l.triggers_group, p(12, 254, 676, 292));
    assert_eq!(l.height, 546);
}

#[test]
fn mode_tab() {
    let w = ModeWidths { current_label_text: 80, file_label_text: 50, set_btn: 70, clear_btn: 80, list_item_h: 18 };
    let l = mode_page_layout(700, 600, true, w).unwrap();
    assert_eq!(l.current_label, p(28, 34, 88, 26));
    assert_eq!(l.current_combo, p(124, 34, 548, 200));
    assert_eq!(l.hint, p(28, 74, 644, 36));
    assert_eq!(l.chords_label, p(28, 122, 210, 26));
    assert_eq!(l.file_label, p(246, 122, 72, 26));
    assert_eq!(l.file_combo, p(326, 122, 180, 200));
    assert_eq!(l.set_btn, p(514, 122, 70, 24));
    assert_eq!(l.clear_btn, p(592, 122, 80, 24));
    assert_eq!(l.chord_list, p(28, 152, 644, 184));
    assert_eq!(l.status, p(28, 340, 644, 26));
    assert_eq!(l.group, p(12, 6, 676, 372));
    assert_eq!(l.height, 378);
}
