use dialkey::hotkey::{
    hotkey_string_from_triggers, parse_hotkey, parse_vk_extended, HotkeyInstall, HotkeyModifiers,
    HotkeyTrigger, TriggerSpec, VkName, MOD_ALT, MOD_CONTROL, MOD_SHIFT, MOD_WIN,
};
use dialkey::text::{
    eq_ignore_ascii_case, split_on, starts_with, to_ascii_lowercase, to_ascii_uppercase, to_wide,
    trim_owned,
};

fn table() -> Vec<VkName> {
    vec![
        VkName { name: "VK_F9".to_string(), vk: 0x78 },
        VkName { name: "VK_SPACE".to_string(), vk: 0x20 },
        VkName { name: "VK_D".to_string(), vk: 0x44 },
    ]
}

#[test]
fn to_wide_appends_nul() {
    assert_eq!(to_wide("AB"), vec![0x41, 0x42, 0]);
    assert_eq!(to_wide(""), vec![0]);
}

#[test]
fn to_wide_encodes_surrogate_pairs() {
    // U+1F600 is outside the BMP: a surrogate pair.
    assert_eq!(to_wide("\u{1F600}"), vec![0xD83D, 0xDE00, 0]);
    assert_eq!(to_wide("é"), vec![0xE9, 0]);
}

#[test]
fn trim_owned_strips_whitespace() {
    assert_eq!(trim_owned("  F9 \t"), "F9");
    assert_eq!(trim_owned("   "), "");
}

#[test]
fn split_on_keeps_empty_pieces() {
    assert_eq!(split_on("Ctrl++D", '+'), vec!["Ctrl", "", "D"]);
    assert_eq!(split_on("", '+'), vec![""]);
}

#[test]
fn ascii_case_helpers() {
    assert_eq!(to_ascii_lowercase("CtRl-É"), "ctrl-É");
    assert_eq!(to_ascii_uppercase("vk_f9"), "VK_F9");
    assert!(eq_ignore_ascii_case("XButton1", "xbutton1"));
    assert!(!eq_ignore_ascii_case("x1", "x2"));
    assert!(starts_with("VK_F9", "VK_"));
    assert!(!starts_with("VK", "VK_"));
}

#[test]
fn extended_vk_names() {
    assert_eq!(parse_vk_extended("VK_A"), Some(0x41));
    assert_eq!(parse_vk_extended("VK_Z"), Some(0x5A));
    assert_eq!(parse_vk_extended("VK_F1"), Some(0x70));
    assert_eq!(parse_vk_extended("VK_F12"), Some(0x7B));
    assert_eq!(parse_vk_extended("VK_F13"), None);
    assert_eq!(parse_vk_extended("VK_a"), None);
    assert_eq!(parse_vk_extended("F9"), None);
}

#[test]
fn parse_plain_function_key() {
    let t = table();
    assert_eq!(parse_hotkey("F9", &t), Some((HotkeyModifiers::none(), 0x78)));
    assert_eq!(parse_hotkey("VK_F9", &t), Some((HotkeyModifiers::none(), 0x78)));
    assert_eq!(parse_hotkey("f9", &t), Some((HotkeyModifiers::none(), 0x78)));
}

#[test]
fn parse_modifiers_and_key() {
    let t = table();
    let (m, vk) = parse_hotkey("Ctrl+Alt+D", &t).unwrap();
    assert_eq!(vk, 0x44);
    assert!(m.ctrl && m.alt && !m.shift && !m.win);
    assert_eq!(m.bits(), MOD_CONTROL | MOD_ALT);
    let (m2, vk2) = parse_hotkey(" shift + win + F4 ", &t).unwrap();
    assert_eq!(vk2, 0x73);
    assert_eq!(m2.bits(), MOD_SHIFT | MOD_WIN);
}

#[test]
fn parse_rejects_modifiers_alone_and_unknown_keys() {
    let t = table();
    assert_eq!(parse_hotkey("Ctrl+Alt", &t), None);
    assert_eq!(parse_hotkey("Ctrl+Nope", &t), None);
    assert_eq!(parse_hotkey("", &t), None);
}

#[test]
fn install_plan_cases() {
    let t = table();
    assert_eq!(HotkeyTrigger::install_plan("   ", &t), HotkeyInstall::Disabled);
    assert_eq!(HotkeyTrigger::install_plan("Ctrl+Nope", &t), HotkeyInstall::Unparsed);
    assert_eq!(
        HotkeyTrigger::install_plan(" Ctrl+Space ", &t),
        HotkeyInstall::Register { mods: MOD_CONTROL, vk: 0x20 }
    );
}

#[test]
fn hotkey_registration_bookkeeping() {
    let mut h = HotkeyTrigger::new(42);
    assert_eq!(h.hwnd(), 42);
    assert!(!h.is_registered());
    assert!(!h.uninstall());
    h.mark_registered();
    assert!(h.is_registered());
    assert!(h.uninstall());
    assert!(!h.is_registered());
}

#[test]
fn hotkey_string_takes_first_hotkey_trigger() {
    let ts = vec![
        TriggerSpec { kind: Some("mouse".to_string()), key: Some("X1".to_string()) },
        TriggerSpec { kind: Some("hotkey".to_string()), key: Some("Ctrl+F9".to_string()) },
        TriggerSpec { kind: Some("hotkey".to_string()), key: Some("F10".to_string()) },
    ];
    assert_eq!(hotkey_string_from_triggers(&ts), "Ctrl+F9");
    let none_key = vec![TriggerSpec { kind: Some("hotkey".to_string()), key: None }];
    assert_eq!(hotkey_string_from_triggers(&none_key), "");
    assert_eq!(hotkey_string_from_triggers(&[]), "");
}

#[test]
fn trim_removes_unicode_white_space_only() {
    assert_eq!(dialkey::text::trim_owned(" a "), "a");
    assert_eq!(dialkey::text::trim_owned("\u{3000}\t a b\u{85}\u{2028}"), "a b");
    assert_eq!(dialkey::text::trim_owned("\u{200b}a"), "\u{200b}a");
    assert_eq!(dialkey::text::trim_owned(" \u{a0} "), "");
}

#[test]
fn lossy_utf16_replaces_lone_surrogates() {
    let buf: Vec<u16> = vec![0x61, 0xD83D, 0xDE00, 0xD800, 0x62, 0xDC00, 0];
    assert_eq!(
        dialkey::locale::locale_name(&buf, 7),
        Some("a\u{1F600}\u{FFFD}b\u{FFFD}".to_string())
    );
}
