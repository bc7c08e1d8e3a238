use dialkey::host::{
    host_msg, host_plan, HostMsg, HostView, WindowKind, WM_DK_HELP, WM_DK_KEY, WM_DK_QUIT, WM_DK_RELOAD,
    WM_DK_SEARCH, WM_DK_SETTINGS, WM_DK_TRIGGER, WM_HOTKEY, WM_TIMER,
};
use dialkey::settings::Page;
use dialkey::settings_dispatch::{settings_command, CaptureButton, SettingsCommand};
use dialkey::tray::{is_taskbar_created, register_taskbar_created_message, taskbar_created_msg, TaskbarCreated};

fn view(disabled: bool, settings: bool, search: bool, typing: bool) -> HostView {
    HostView { triggers_disabled: disabled, settings_open: settings, search_open: search, typing_open: typing }
}

#[test]
fn classify_messages() {
    let mut tc = TaskbarCreated::new();
    assert_eq!(host_msg(true, WM_DK_TRIGGER, &tc), HostMsg::Trigger);
    assert_eq!(host_msg(true, WM_HOTKEY, &tc), HostMsg::Trigger);
    assert_eq!(host_msg(true, WM_DK_KEY, &tc), HostMsg::Key);
    assert_eq!(host_msg(true, WM_TIMER, &tc), HostMsg::Timer);
    assert_eq!(host_msg(true, WM_DK_HELP, &tc), HostMsg::Help);
    assert_eq!(host_msg(false, WM_DK_TRIGGER, &tc), HostMsg::Other);
    assert_eq!(host_msg(true, 0xC123, &tc), HostMsg::Other);
    register_taskbar_created_message(&mut tc, 0xC123);
    assert_eq!(taskbar_created_msg(&tc), 0xC123);
    assert!(is_taskbar_created(&tc, 0xC123));
    assert_eq!(host_msg(true, 0xC123, &tc), HostMsg::TaskbarCreated);
}

#[test]
fn unregistered_taskbar_id_matches_nothing() {
    let tc = TaskbarCreated::new();
    assert_eq!(taskbar_created_msg(&tc), 0);
    assert!(!is_taskbar_created(&tc, 0));
}

#[test]
fn trigger_toggles_typing_window() {
    let open = host_plan(HostMsg::Trigger, view(false, false, false, false));
    assert!(open.open_typing && !open.close_typing);
    let close = host_plan(HostMsg::Trigger, view(false, false, false, true));
    assert!(close.close_typing && !close.open_typing);
}

#[test]
fn trigger_closes_search_first() {
    let p = host_plan(HostMsg::Trigger, view(false, false, true, true));
    assert!(p.close_search && !p.close_typing && !p.open_typing);
}

#[test]
fn settings_blocks_triggers() {
    let p = host_plan(HostMsg::Trigger, view(false, true, false, false));
    assert!(!p.open_typing && !p.close_search && !p.close_typing);
    let d = host_plan(HostMsg::Trigger, view(true, false, false, false));
    assert!(!d.open_typing);
    let s = host_plan(HostMsg::Search, view(false, true, false, false));
    assert!(!s.open_search);
    let arm = host_plan(HostMsg::ModeArm, view(false, true, false, false));
    assert!(!arm.arm_chord);
    assert!(host_plan(HostMsg::ModeArm, view(false, false, false, true)).arm_chord);
}

#[test]
fn chord_listen_needs_typing_window() {
    assert!(!host_plan(HostMsg::ModeArm, view(false, false, false, false)).arm_chord);
    let close = host_plan(HostMsg::Trigger, view(false, false, false, true));
    assert!(close.close_typing && close.disarm_chord);
    let timeout = host_plan(HostMsg::Timeout, view(false, false, false, true));
    assert!(timeout.close_typing && timeout.disarm_chord);
    let search = host_plan(HostMsg::Search, view(false, false, false, true));
    assert!(search.close_typing && search.disarm_chord && search.open_search);
}

#[test]
fn failed_open_is_reported() {
    for k in [WindowKind::Typing, WindowKind::Search, WindowKind::Settings] {
        let p = host_plan(HostMsg::OpenFailed(k), view(false, false, false, false));
        assert!(p.notify_open_failed);
        assert!(!p.open_typing && !p.open_search && !p.open_settings);
        assert!(!p.close_typing && !p.close_search && !p.close_settings && !p.dispatch);
    }
    assert!(!host_plan(HostMsg::Trigger, view(false, false, false, false)).notify_open_failed);
}

#[test]
fn reload_closes_everything() {
    let p = host_plan(HostMsg::Reload, view(false, true, true, true));
    assert!(p.close_typing && p.close_search && p.close_settings && p.reload_config);
}

#[test]
fn settings_message_closes_others() {
    let p = host_plan(HostMsg::Settings, view(false, false, true, true));
    assert!(p.close_typing && p.close_search && p.open_settings);
}

#[test]
fn quit_plan() {
    let p = host_plan(HostMsg::Quit, view(false, true, true, false));
    assert!(p.quit && p.disarm_chord && p.stop_health_timer && p.close_settings && p.close_search);
    assert!(host_plan(HostMsg::Other, view(false, false, false, false)).dispatch);
    let _ = (WM_DK_QUIT, WM_DK_RELOAD, WM_DK_SEARCH, WM_DK_SETTINGS);
}

#[test]
fn key_goes_to_open_session_only() {
    assert!(host_plan(HostMsg::Key, view(false, false, false, true)).forward_key);
    assert!(!host_plan(HostMsg::Key, view(false, false, false, false)).forward_key);
}

#[test]
fn settings_commands() {
    assert_eq!(settings_command(1001), SettingsCommand::ShowPage(Page::Slots));
    assert_eq!(settings_command(1006), SettingsCommand::ShowPage(Page::Mode));
    assert_eq!(settings_command(1400), SettingsCommand::Save);
    assert_eq!(settings_command(1402), SettingsCommand::Apply);
    assert_eq!(settings_command(1401), SettingsCommand::Cancel);
    assert_eq!(settings_command(1225), SettingsCommand::Capture(CaptureButton::Mouse));
    assert_eq!(settings_command(1602), SettingsCommand::LegendCheck { idle: true, row: 2 });
    assert_eq!(settings_command(1614), SettingsCommand::LegendCheck { idle: false, row: 4 });
    assert_eq!(settings_command(1615), SettingsCommand::Ignore);
    assert_eq!(settings_command(1622), SettingsCommand::LegendMove { idle: false, up: true });
    assert_eq!(settings_command((0x0100 << 16) | 1110), SettingsCommand::StopCapture);
    assert_eq!(settings_command((1 << 16) | 1100), SettingsCommand::SlotSelected);
    assert_eq!(settings_command((2 << 16) | 1503), SettingsCommand::ModeChordActivated);
    assert_eq!(settings_command((1 << 16) | 1510), SettingsCommand::KeySetLetterSelected { keyboard: true });
    assert_eq!(settings_command((0x0300 << 16) | 1112), SettingsCommand::SlotFieldChanged);
    assert_eq!(settings_command((0x0300 << 16) | 1111), SettingsCommand::Ignore);
}
