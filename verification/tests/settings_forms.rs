use dialkey::settings::{
    mode_chord_row_text,
    backup_parent, restore_source_forbidden, NoBackupFolder,
    after_save, set_mode_override, slots_save_plan, AfterSave, SlotsSave, backup_dest_forbidden, backup_folder_display, backup_folder_store,
    capture_mouse_button, captured_mouse_button, choice_at, chord_list_selection,
    clear_mode_override, command_parts, initial_page, is_instant_digit_id, is_open,
    legend_move_sel, log_level_for_index, mode_mouse_for_index, mouse_button_for_index, open,
    open_at_page, page_after_advanced_toggle, parse_chord_timeout, parse_feedback_ms,
    parse_max_digits, parse_timeout, role_label, search_mode_for_index, settings_closed, settings_opened,
    slot_apply_check, slot_form_dirty, slot_from_form, slots_edit_allowed,
    slots_edit_block_message, swap_check, take_reopen_request, triggers_disabled,
    warn_missing_path, ChordOverrides, FieldError, OpenPlan, Page, RoleLabel, SearchMode,
    SettingsRuntime, SlotFields, SlotForm, SlotFormError, SlotsBlock, SwapCheck,
};

fn form(id: &str, name: &str, path: &str) -> SlotForm {
    SlotForm {
        id: id.to_string(),
        name: name.to_string(),
        path: path.to_string(),
        description: String::new(),
        workdir: String::new(),
        open_workdir_checked: false,
        focus_existing_checked: true,
    }
}

#[test]
fn page_codes() {
    for code in 0u8..6 {
        assert_eq!(Page::from_u8(code).as_u8(), code);
    }
    assert_eq!(Page::from_u8(9), Page::Slots);
    assert!(Page::Keys.is_advanced());
    assert!(!Page::General.is_advanced());
    assert_eq!(initial_page(Page::Keys.as_u8(), false), Page::Slots);
    assert_eq!(initial_page(Page::Keys.as_u8(), true), Page::Keys);
    assert_eq!(initial_page(Page::General.as_u8(), false), Page::General);
    assert_eq!(page_after_advanced_toggle(Page::Mode, false), Page::Slots);
    assert_eq!(page_after_advanced_toggle(Page::Mode, true), Page::Mode);
}

#[test]
fn settings_runtime_open_and_reopen() {
    let mut rt = SettingsRuntime::new();
    assert!(!is_open(&rt));
    assert_eq!(open(&rt, true), OpenPlan::Create(Page::Slots));
    assert_eq!(open_at_page(&rt, Page::Search.as_u8(), false), OpenPlan::Create(Page::Slots));
    assert!(!triggers_disabled(&rt));
    settings_opened(&mut rt, 33);
    assert!(is_open(&rt));
    assert!(triggers_disabled(&rt));
    assert_eq!(rt.window(), 33);
    assert_eq!(open(&rt, true), OpenPlan::FocusExisting);
    assert_eq!(open_at_page(&rt, Page::Keys.as_u8(), true), OpenPlan::FocusExisting);
    assert_eq!(take_reopen_request(&mut rt), None);
    rt.request_reopen(Page::Search);
    assert_eq!(settings_closed(&mut rt), dialkey::host::WM_DK_SETTINGS_CLOSED);
    assert!(!is_open(&rt));
    assert!(!triggers_disabled(&rt));
    assert_eq!(take_reopen_request(&mut rt), Some(Page::Search));
    assert_eq!(take_reopen_request(&mut rt), None);
}

#[test]
fn instant_digit_ids() {
    assert!(is_instant_digit_id("7"));
    assert!(!is_instant_digit_id("17"));
    assert!(!is_instant_digit_id("a"));
    assert!(!is_instant_digit_id(""));
}

#[test]
fn slot_form_checks() {
    assert_eq!(slot_apply_check(false, true, &form("1", "n", "p")), Err(SlotFormError::EditBlocked));
    assert_eq!(slot_apply_check(true, false, &form("x", "n", "p")), Err(SlotFormError::InvalidId));
    assert_eq!(slot_apply_check(true, true, &form("1", "", "p")), Err(SlotFormError::NameOrPathRequired));
    assert_eq!(slot_apply_check(true, true, &form("1", "n", "")), Err(SlotFormError::NameOrPathRequired));
    assert_eq!(slot_apply_check(true, true, &form("1", "n", "p")), Ok(()));
}

#[test]
fn slot_from_form_forces_url_flags() {
    let mut f = form("1", "Docs", "https://example.com");
    f.open_workdir_checked = true;
    f.focus_existing_checked = false;
    let s = slot_from_form(&f, true);
    assert!(!s.open_workdir);
    assert!(s.focus_existing);
    let s2 = slot_from_form(&f, false);
    assert!(s2.open_workdir);
    assert!(!s2.focus_existing);
    assert_eq!(s2.name, "Docs");
}

#[test]
fn slot_form_dirtiness() {
    let blank = form("", "", "");
    assert!(!slot_form_dirty(&blank, false, None));
    let f = form("1", "Editor", "C:\\ed.exe");
    assert!(slot_form_dirty(&f, false, None));
    let same = SlotFields {
        name: "Editor".to_string(),
        path: "C:\\ed.exe".to_string(),
        description: String::new(),
        workdir: String::new(),
        open_workdir: false,
        focus_existing: true,
    };
    assert!(!slot_form_dirty(&f, false, Some(&same)));
    let mut other = same.clone();
    other.name = "Other".to_string();
    assert!(slot_form_dirty(&f, false, Some(&other)));
}

#[test]
fn missing_path_warning() {
    assert!(warn_missing_path(false, true, false));
    assert!(!warn_missing_path(true, true, false));
    assert!(!warn_missing_path(false, false, false));
    assert!(!warn_missing_path(false, true, true));
}

#[test]
fn swap_checks() {
    let ids = vec!["10".to_string(), "11".to_string()];
    assert_eq!(swap_check(-1, &ids, "11", true, true), SwapCheck::SelectFirst);
    assert_eq!(swap_check(5, &ids, "11", true, true), SwapCheck::Nothing);
    assert_eq!(swap_check(0, &ids, "x", false, false), SwapCheck::InvalidId);
    assert_eq!(swap_check(0, &ids, "10", true, true), SwapCheck::NeedOther);
    assert_eq!(swap_check(0, &ids, "12", true, false), SwapCheck::TargetMissing);
    assert_eq!(swap_check(0, &ids, "11", true, true), SwapCheck::Swap);
}

#[test]
fn slots_edit_rules() {
    assert!(!slots_edit_allowed(false, true, false));
    assert!(!slots_edit_allowed(true, false, true));
    assert!(slots_edit_allowed(true, false, false));
    assert!(slots_edit_allowed(true, true, true));
    assert_eq!(slots_edit_block_message(false, false, true), SlotsBlock::ReadOnly);
    assert_eq!(slots_edit_block_message(true, false, true), SlotsBlock::Unwritable);
}

#[test]
fn combo_choices() {
    assert_eq!(mouse_button_for_index(1), "x1");
    assert_eq!(mouse_button_for_index(2), "middle");
    assert_eq!(mouse_button_for_index(-1), "x2");
    assert_eq!(mode_mouse_for_index(1), "x2");
    assert_eq!(mode_mouse_for_index(0), "x1");
    assert_eq!(log_level_for_index(2), "debug");
    assert_eq!(log_level_for_index(7), "warn");
    assert_eq!(search_mode_for_index(3), SearchMode::Fuzzy);
    assert_eq!(search_mode_for_index(-1), SearchMode::Substring);
    assert_eq!(captured_mouse_button(0), ("middle", 2));
    assert_eq!(captured_mouse_button(1), ("x1", 1));
    assert_eq!(captured_mouse_button(2), ("x2", 0));
    let choices = vec!["a.json".to_string(), "b.json".to_string()];
    assert_eq!(choice_at(&choices, 1), "b.json");
    assert_eq!(choice_at(&choices, -1), "");
    assert_eq!(choice_at(&choices, 2), "");
}

#[test]
fn numeric_fields() {
    assert_eq!(parse_timeout(" 30 "), Ok(30));
    assert_eq!(parse_timeout("0"), Err(FieldError::TimeoutZero));
    assert_eq!(parse_timeout("abc"), Err(FieldError::TimeoutNotNumber));
    assert_eq!(parse_timeout("-3"), Err(FieldError::TimeoutNotNumber));
    assert_eq!(parse_timeout("+7"), Ok(7));
    assert_eq!(parse_max_digits("32"), Ok(32));
    assert_eq!(parse_max_digits("33"), Err(FieldError::MaxDigitsRange));
    assert_eq!(parse_max_digits("0"), Err(FieldError::MaxDigitsRange));
    assert_eq!(parse_max_digits(""), Err(FieldError::MaxDigitsNotNumber));
    assert_eq!(parse_max_digits("4294967296"), Err(FieldError::MaxDigitsRange));
    assert_eq!(parse_feedback_ms("0"), Ok(0));
    assert_eq!(parse_feedback_ms("4294967296"), Err(FieldError::FeedbackNotNumber));
    assert_eq!(parse_chord_timeout("1500", 800), 1500);
    assert_eq!(parse_chord_timeout("soon", 800), 800);
}

#[test]
fn capture_mouse_codes() {
    assert_eq!(capture_mouse_button(0, 0x0207, 0), Some(0));
    assert_eq!(capture_mouse_button(0, 0x020B, 0x0001_0000), Some(1));
    assert_eq!(capture_mouse_button(0, 0x020B, 0x0002_0000), Some(2));
    assert_eq!(capture_mouse_button(0, 0x0201, 0), None);
    assert_eq!(capture_mouse_button(0, 0x0204, 0), None);
    assert_eq!(capture_mouse_button(1, 0x0207, 0), None);
}

#[test]
fn command_words() {
    assert_eq!(command_parts((0x0300 << 16) | 1112), (0x0300, 1112));
}

#[test]
fn role_labels() {
    assert_eq!(role_label("start"), RoleLabel::Start);
    assert_eq!(role_label("openWorkdir"), RoleLabel::OpenWorkdir);
    assert_eq!(role_label("wake"), RoleLabel::Wake);
}

#[test]
fn legend_moves_and_undo() {
    let mut order: Vec<String> = ["a", "b", "c"].iter().map(|s| s.to_string()).collect();
    assert_eq!(legend_move_sel(&mut order, 1, -1), Some(0));
    assert_eq!(order, vec!["b", "a", "c"]);
    assert_eq!(legend_move_sel(&mut order, 0, 1), Some(1));
    assert_eq!(order, vec!["a", "b", "c"]);
    assert_eq!(legend_move_sel(&mut order, 0, -1), None);
    assert_eq!(legend_move_sel(&mut order, 2, 1), None);
    assert_eq!(order, vec!["a", "b", "c"]);
}

#[test]
fn backup_folder_text() {
    assert_eq!(backup_folder_display("", Some("C:\\Users\\me\\Desktop")), "C:\\Users\\me\\Desktop");
    assert_eq!(backup_folder_display("D:\\bk", Some("C:\\Desktop")), "D:\\bk");
    assert_eq!(backup_folder_store("C:\\Desktop", true), "");
    assert_eq!(backup_folder_store("D:\\bk", false), "D:\\bk");
    assert!(backup_dest_forbidden(true, false));
    assert!(backup_dest_forbidden(false, true));
    assert!(!backup_dest_forbidden(false, false));
}

#[test]
fn backup_folder_round_trip() {
    // Whitespace around a stored folder goes; the folder itself stays.
    let shown = backup_folder_display(" \t D:\\bk \u{3000}", Some("C:\\Desktop"));
    assert_eq!(shown, "D:\\bk");
    assert_eq!(backup_folder_store(&shown, false), "D:\\bk");
    // Nothing stored: the Desktop is shown, and stored back as nothing.
    let shown = backup_folder_display("  ", Some("C:\\Desktop"));
    assert_eq!(shown, "C:\\Desktop");
    assert_eq!(backup_folder_store(&shown, true), "");
    assert_eq!(backup_folder_display("\u{a0}", None), "");
    assert_eq!(backup_folder_store("", false), "");
}

#[test]
fn chord_overrides() {
    let mut keys = ChordOverrides::new();
    keys.insert("1".to_string(), "work.json".to_string());
    assert_eq!(keys.get("1"), Some("work.json".to_string()));
    assert_eq!(keys.get("2"), None);
    clear_mode_override(&mut keys, "1");
    assert_eq!(keys.get("1"), None);
    assert_eq!(chord_list_selection(Some(3), 1), 3);
    assert_eq!(chord_list_selection(None, 1), 1);
    assert_eq!(chord_list_selection(Some(-1), 1), 1);
}

#[test]
fn pinning_a_chord_swaps_with_the_code_that_had_the_file() {
    let mut keys = ChordOverrides::new();
    let effective = vec![
        ("1".to_string(), "home.json".to_string()),
        ("2".to_string(), "work.json".to_string()),
    ];
    let other = set_mode_override(&mut keys, &effective, "1", "work.json");
    assert_eq!(other, Some("2".to_string()));
    assert_eq!(keys.get("1"), Some("work.json".to_string()));
    assert_eq!(keys.get("2"), Some("home.json".to_string()));
}

#[test]
fn pinning_a_free_file() {
    let mut keys = ChordOverrides::new();
    let effective = vec![("1".to_string(), "home.json".to_string())];
    assert_eq!(set_mode_override(&mut keys, &effective, "3", "new.json"), None);
    assert_eq!(keys.get("3"), Some("new.json".to_string()));
}

#[test]
fn saving_plans() {
    assert_eq!(slots_save_plan(false, true, false), SlotsSave::Skip);
    assert_eq!(slots_save_plan(true, false, true), SlotsSave::Refuse);
    assert_eq!(slots_save_plan(true, false, false), SlotsSave::Save);
    assert_eq!(after_save(true, true, true), AfterSave::Close);
    assert_eq!(after_save(false, true, false), AfterSave::Reopen);
    assert_eq!(after_save(false, false, true), AfterSave::Reopen);
    assert_eq!(after_save(false, false, false), AfterSave::ShowSaved);
}

#[test]
fn backup_and_restore_folders() {
    assert_eq!(backup_parent("  D:\\bk ", Some("C:\\Desktop")), Ok("D:\\bk".to_string()));
    assert_eq!(backup_parent("", Some("C:\\Desktop")), Ok("C:\\Desktop".to_string()));
    assert_eq!(backup_parent(" ", None), Err(NoBackupFolder));
    assert!(restore_source_forbidden(true, false));
    assert!(restore_source_forbidden(false, true));
    assert!(!restore_source_forbidden(false, false));
}

#[test]
fn chord_rows() {
    assert_eq!(mode_chord_row_text("3", None, ""), "3");
    assert_eq!(mode_chord_row_text("3", Some(""), "Work"), "3");
    assert_eq!(mode_chord_row_text("3", Some("work.json"), "Work"), "3\twork.json\tWork");
}
