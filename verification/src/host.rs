//! The resident host's message loop, as decisions: which message arrived,
//! and what the loop does about it given which windows are open.

use vstd::prelude::*;

use crate::tray::{is_taskbar_created, TaskbarCreated};
use crate::typing::{trigger_action, trigger_action_spec, TriggerAction};

verus! {

pub const WM_APP: u32 = 0x8000;
pub const WM_HOTKEY: u32 = 0x0312;
pub const WM_TIMER: u32 = 0x0113;

/// Open or toggle the typing window.
pub const WM_DK_TRIGGER: u32 = 0x8001;
/// Digit / bound key from the keyboard hook.
pub const WM_DK_KEY: u32 = 0x8002;
/// Typing window timed out or was cancelled.
pub const WM_DK_TIMEOUT: u32 = 0x8003;
/// Tray icon callback from the shell.
pub const WM_DK_TRAY: u32 = 0x800A;
/// Reload configuration.
pub const WM_DK_RELOAD: u32 = 0x800B;
/// Quit the application.
pub const WM_DK_QUIT: u32 = 0x800C;
/// Tray callback re-posted for the main loop.
pub const WM_DK_TRAY_DISPATCH: u32 = 0x800E;
/// Open the Search window.
pub const WM_DK_SEARCH: u32 = 0x800F;
/// The Search window closed.
pub const WM_DK_SEARCH_CLOSED: u32 = 0x8010;
/// Open the settings window.
pub const WM_DK_SETTINGS: u32 = 0x8011;
/// The settings window closed.
pub const WM_DK_SETTINGS_CLOSED: u32 = 0x8012;
/// Settings were saved: reload the configuration from disk.
pub const WM_DK_SETTINGS_APPLIED: u32 = 0x8013;
/// Mode-switch leader pressed: arm the chord listen.
pub const WM_DK_MODE_ARM: u32 = 0x8014;
/// Chord key while armed; wparam is the virtual key.
pub const WM_DK_MODE_CHORD: u32 = 0x8015;
/// Tray picked a mode file; wparam is its index.
pub const WM_DK_MODE_PICK: u32 = 0x8016;
/// Periodic mouse-hook health check.
pub const WM_DK_HOOK_HEALTH: u32 = 0x8017;
/// A launch failed (toast).
pub const WM_DK_LAUNCH_FAILED: u32 = 0x8018;
/// Letter chord for a key set; wparam is the virtual key.
pub const WM_DK_KEYSET_CHORD: u32 = 0x8019;
/// Tray picked a key set; wparam is its index.
pub const WM_DK_KEYSET_PICK: u32 = 0x801A;
/// Help / About from the tray.
pub const WM_DK_HELP: u32 = 0x800D;

/// The windows the host opens.
#[derive(Clone, Copy, Debug, PartialEq, Eq, Structural)]
pub enum WindowKind {
    Typing,
    Search,
    Settings,
}

/// A message of the host's loop, by meaning.
#[derive(Clone, Copy, Debug, PartialEq, Eq, Structural)]
pub enum HostMsg {
    Trigger,
    Key,
    Timeout,
    TrayDispatch,
    TaskbarCreated,
    Reload,
    ModeArm,
    ModeChord,
    ModePick,
    KeysetChord,
    KeysetPick,
    Timer,
    Help,
    Search,
    SearchClosed,
    Settings,
    LaunchFailed,
    SettingsApplied,
    SettingsClosed,
    Quit,
    /// The loop tried to open this window, as a plan asked, and it failed.
    /// The loop feeds this back itself; no queued message maps to it.
    OpenFailed(WindowKind),
    /// Not the host's: translate and dispatch as usual.
    Other,
}

pub open spec fn host_msg_spec(msg: u32, taskbar_created: u32) -> HostMsg {
    if msg == WM_DK_TRIGGER || msg == WM_HOTKEY {
        HostMsg::Trigger
    } else if msg == WM_DK_KEY {
        HostMsg::Key
    } else if msg == WM_DK_TIMEOUT {
        HostMsg::Timeout
    } else if msg == WM_DK_TRAY_DISPATCH {
        HostMsg::TrayDispatch
    } else if msg == taskbar_created && msg != 0 {
        HostMsg::TaskbarCreated
    } else if msg == WM_DK_RELOAD {
        HostMsg::Reload
    } else if msg == WM_DK_MODE_ARM {
        HostMsg::ModeArm
    } else if msg == WM_DK_MODE_CHORD {
        HostMsg::ModeChord
    } else if msg == WM_DK_MODE_PICK {
        HostMsg::ModePick
    } else if msg == WM_DK_KEYSET_CHORD {
        HostMsg::KeysetChord
    } else if msg == WM_DK_KEYSET_PICK {
        HostMsg::KeysetPick
    } else if msg == WM_TIMER {
        HostMsg::Timer
    } else if msg == WM_DK_HELP {
        HostMsg::Help
    } else if msg == WM_DK_SEARCH {
        HostMsg::Search
    } else if msg == WM_DK_SEARCH_CLOSED {
        HostMsg::SearchClosed
    } else if msg == WM_DK_SETTINGS {
        HostMsg::Settings
    } else if msg == WM_DK_LAUNCH_FAILED {
        HostMsg::LaunchFailed
    } else if msg == WM_DK_SETTINGS_APPLIED {
        HostMsg::SettingsApplied
    } else if msg == WM_DK_SETTINGS_CLOSED {
        HostMsg::SettingsClosed
    } else if msg == WM_DK_QUIT {
        HostMsg::Quit
    } else {
        HostMsg::Other
    }
}

/// Classify a message taken from the queue. Only messages for the host
/// window or the thread itself (`for_host`) are the host's; the
/// `TaskbarCreated` id is compared as registered.
pub fn host_msg(for_host: bool, msg: u32, tc: &TaskbarCreated) -> (r: HostMsg)
    ensures
        r == (if for_host {
            host_msg_spec(msg, tc.spec_id())
        } else {
            HostMsg::Other
        }),
{
    if !for_host {
        return HostMsg::Other;
    }
    if msg == WM_DK_TRIGGER || msg == WM_HOTKEY {
        HostMsg::Trigger
    } else if msg == WM_DK_KEY {
        HostMsg::Key
    } else if msg == WM_DK_TIMEOUT {
        HostMsg::Timeout
    } else if msg == WM_DK_TRAY_DISPATCH {
        HostMsg::TrayDispatch
    } else if is_taskbar_created(tc, msg) {
        HostMsg::TaskbarCreated
    } else if msg == WM_DK_RELOAD {
        HostMsg::Reload
    } else if msg == WM_DK_MODE_ARM {
        HostMsg::ModeArm
    } else if msg == WM_DK_MODE_CHORD {
        HostMsg::ModeChord
    } else if msg == WM_DK_MODE_PICK {
        HostMsg::ModePick
    } else if msg == WM_DK_KEYSET_CHORD {
        HostMsg::KeysetChord
    } else if msg == WM_DK_KEYSET_PICK {
        HostMsg::KeysetPick
    } else if msg == WM_TIMER {
        HostMsg::Timer
    } else if msg == WM_DK_HELP {
        HostMsg::Help
    } else if msg == WM_DK_SEARCH {
        HostMsg::Search
    } else if msg == WM_DK_SEARCH_CLOSED {
        HostMsg::SearchClosed
    } else if msg == WM_DK_SETTINGS {
        HostMsg::Settings
    } else if msg == WM_DK_LAUNCH_FAILED {
        HostMsg::LaunchFailed
    } else if msg == WM_DK_SETTINGS_APPLIED {
        HostMsg::SettingsApplied
    } else if msg == WM_DK_SETTINGS_CLOSED {
        HostMsg::SettingsClosed
    } else if msg == WM_DK_QUIT {
        HostMsg::Quit
    } else {
        HostMsg::Other
    }
}

/// Which windows are open, and whether Settings has the triggers off.
#[derive(Clone, Copy, Debug, PartialEq, Eq, Structural)]
pub struct HostView {
    pub triggers_disabled: bool,
    pub settings_open: bool,
    pub search_open: bool,
    pub typing_open: bool,
}

/// What the loop does for one message, in this order: close windows, then
/// the message's own work.
#[derive(Clone, Copy, Debug, PartialEq, Eq, Structural)]
pub struct HostPlan {
    pub close_typing: bool,
    pub close_search: bool,
    pub close_settings: bool,
    pub open_typing: bool,
    pub open_search: bool,
    pub open_settings: bool,
    /// Hand the key to the typing session (it may ask to close).
    pub forward_key: bool,
    pub handle_tray_callback: bool,
    pub reregister_tray: bool,
    /// Reload the configuration from disk and apply it.
    pub reload_config: bool,
    pub arm_chord: bool,
    pub disarm_chord: bool,
    /// Switch mode by the chord key in wparam.
    pub switch_mode_by_chord: bool,
    /// Switch mode by the tray index in wparam.
    pub switch_mode_by_index: bool,
    /// Switch key set by the letter key in wparam.
    pub switch_keyset_by_letter: bool,
    /// Switch key set by the tray index in wparam.
    pub switch_keyset_by_index: bool,
    /// Timer: chord timeout or hook health check, by its id.
    pub handle_timer: bool,
    pub show_help: bool,
    pub notify_launch_failed: bool,
    /// Tell the user (tray notification) that a window failed to open.
    pub notify_open_failed: bool,
    /// Reopen Settings on the requested tab, if one was requested.
    pub serve_reopen: bool,
    pub stop_health_timer: bool,
    pub quit: bool,
    /// Not the host's message: translate and dispatch it.
    pub dispatch: bool,
}

pub open spec fn nothing() -> HostPlan {
    HostPlan {
        close_typing: false,
        close_search: false,
        close_settings: false,
        open_typing: false,
        open_search: false,
        open_settings: false,
        forward_key: false,
        handle_tray_callback: false,
        reregister_tray: false,
        reload_config: false,
        arm_chord: false,
        disarm_chord: false,
        switch_mode_by_chord: false,
        switch_mode_by_index: false,
        switch_keyset_by_letter: false,
        switch_keyset_by_index: false,
        handle_timer: false,
        show_help: false,
        notify_launch_failed: false,
        notify_open_failed: false,
        serve_reopen: false,
        stop_health_timer: false,
        quit: false,
        dispatch: false,
    }
}

pub open spec fn base_plan_spec(m: HostMsg, v: HostView) -> HostPlan {
    let n = nothing();
    match m {
        HostMsg::Trigger => match trigger_action_spec(
            v.triggers_disabled,
            v.settings_open,
            v.search_open,
            v.typing_open,
        ) {
            TriggerAction::Ignore => n,
            TriggerAction::CloseSearch => HostPlan { close_search: true, ..n },
            TriggerAction::CloseTyping => HostPlan { close_typing: true, ..n },
            TriggerAction::OpenTyping => HostPlan { open_typing: true, ..n },
        },
        HostMsg::Key => HostPlan { forward_key: v.typing_open, ..n },
        HostMsg::Timeout => HostPlan { close_typing: true, ..n },
        HostMsg::TrayDispatch => HostPlan { handle_tray_callback: true, ..n },
        HostMsg::TaskbarCreated => HostPlan { reregister_tray: true, ..n },
        HostMsg::Reload => HostPlan {
            close_typing: true,
            close_search: true,
            close_settings: true,
            reload_config: true,
            ..n
        },
        HostMsg::ModeArm => HostPlan {
            arm_chord: v.typing_open && !(v.triggers_disabled || v.settings_open),
            ..n
        },
        HostMsg::ModeChord => HostPlan { disarm_chord: true, switch_mode_by_chord: true, ..n },
        HostMsg::ModePick => HostPlan { switch_mode_by_index: true, ..n },
        HostMsg::KeysetChord => if v.settings_open {
            n
        } else {
            HostPlan { disarm_chord: true, switch_keyset_by_letter: true, ..n }
        },
        HostMsg::KeysetPick => if v.settings_open {
            n
        } else {
            HostPlan { switch_keyset_by_index: true, ..n }
        },
        HostMsg::Timer => HostPlan { handle_timer: true, ..n },
        HostMsg::Help => HostPlan { show_help: true, ..n },
        HostMsg::Search => if v.settings_open {
            n
        } else {
            HostPlan { close_typing: true, open_search: true, ..n }
        },
        HostMsg::SearchClosed => n,
        HostMsg::Settings => HostPlan {
            close_typing: true,
            close_search: true,
            open_settings: true,
            ..n
        },
        HostMsg::LaunchFailed => HostPlan { notify_launch_failed: true, ..n },
        HostMsg::SettingsApplied => HostPlan { close_typing: true, reload_config: true, ..n },
        HostMsg::SettingsClosed => HostPlan { serve_reopen: true, ..n },
        HostMsg::Quit => HostPlan {
            disarm_chord: true,
            stop_health_timer: true,
            close_settings: true,
            close_search: true,
            quit: true,
            ..n
        },
        HostMsg::OpenFailed(_) => HostPlan { notify_open_failed: true, ..n },
        HostMsg::Other => HostPlan { dispatch: true, ..n },
    }
}

/// Closing the typing window also ends any chord listen: the keyboard is
/// read only while a typing window is open.
pub open spec fn with_chord_dropped(p: HostPlan) -> HostPlan {
    HostPlan { disarm_chord: p.disarm_chord || p.close_typing, ..p }
}

pub open spec fn host_plan_spec(m: HostMsg, v: HostView) -> HostPlan {
    with_chord_dropped(base_plan_spec(m, v))
}

fn plan_nothing() -> (r: HostPlan)
    ensures
        r == nothing(),
{
    HostPlan {
        close_typing: false,
        close_search: false,
        close_settings: false,
        open_typing: false,
        open_search: false,
        open_settings: false,
        forward_key: false,
        handle_tray_callback: false,
        reregister_tray: false,
        reload_config: false,
        arm_chord: false,
        disarm_chord: false,
        switch_mode_by_chord: false,
        switch_mode_by_index: false,
        switch_keyset_by_letter: false,
        switch_keyset_by_index: false,
        handle_timer: false,
        show_help: false,
        notify_launch_failed: false,
        notify_open_failed: false,
        serve_reopen: false,
        stop_health_timer: false,
        quit: false,
        dispatch: false,
    }
}

/// The loop's decision for one message.
pub fn host_plan(m: HostMsg, v: HostView) -> (r: HostPlan)
    ensures
        r == host_plan_spec(m, v),
{
    let p = base_plan(m, v);
    HostPlan { disarm_chord: p.disarm_chord || p.close_typing, ..p }
}

fn base_plan(m: HostMsg, v: HostView) -> (r: HostPlan)
    ensures
        r == base_plan_spec(m, v),
{
    let n = plan_nothing();
    match m {
        HostMsg::Trigger => match trigger_action(
            v.triggers_disabled,
            v.settings_open,
            v.search_open,
            v.typing_open,
        ) {
            TriggerAction::Ignore => n,
            TriggerAction::CloseSearch => HostPlan { close_search: true, ..n },
            TriggerAction::CloseTyping => HostPlan { close_typing: true, ..n },
            TriggerAction::OpenTyping => HostPlan { open_typing: true, ..n },
        },
        HostMsg::Key => HostPlan { forward_key: v.typing_open, ..n },
        HostMsg::Timeout => HostPlan { close_typing: true, ..n },
        HostMsg::TrayDispatch => HostPlan { handle_tray_callback: true, ..n },
        HostMsg::TaskbarCreated => HostPlan { reregister_tray: true, ..n },
        HostMsg::Reload => HostPlan {
            close_typing: true,
            close_search: true,
            close_settings: true,
            reload_config: true,
            ..n
        },
        HostMsg::ModeArm => HostPlan {
            arm_chord: v.typing_open && !(v.triggers_disabled || v.settings_open),
            ..n
        },
        HostMsg::ModeChord => HostPlan { disarm_chord: true, switch_mode_by_chord: true, ..n },
        HostMsg::ModePick => HostPlan { switch_mode_by_index: true, ..n },
        HostMsg::KeysetChord => if v.settings_open {
            n
        } else {
            HostPlan { disarm_chord: true, switch_keyset_by_letter: true, ..n }
        },
        HostMsg::KeysetPick => if v.settings_open {
            n
        } else {
            HostPlan { switch_keyset_by_index: true, ..n }
        },
        HostMsg::Timer => HostPlan { handle_timer: true, ..n },
        HostMsg::Help => HostPlan { show_help: true, ..n },
        HostMsg::Search => if v.settings_open {
            n
        } else {
            HostPlan { close_typing: true, open_search: true, ..n }
        },
        HostMsg::SearchClosed => n,
        HostMsg::Settings => HostPlan {
            close_typing: true,
            close_search: true,
            open_settings: true,
            ..n
        },
        HostMsg::LaunchFailed => HostPlan { notify_launch_failed: true, ..n },
        HostMsg::SettingsApplied => HostPlan { close_typing: true, reload_config: true, ..n },
        HostMsg::SettingsClosed => HostPlan { serve_reopen: true, ..n },
        HostMsg::Quit => HostPlan {
            disarm_chord: true,
            stop_health_timer: true,
            close_settings: true,
            close_search: true,
            quit: true,
            ..n
        },
        HostMsg::OpenFailed(_) => HostPlan { notify_open_failed: true, ..n },
        HostMsg::Other => HostPlan { dispatch: true, ..n },
    }
}

/// What switching to another slot book (mode) does.
#[derive(Clone, Copy, Debug, PartialEq, Eq, Structural)]
pub enum ModeSwitch {
    /// Empty or read-only (sample) book name: ignored.
    Ignore,
    /// Already the active book: only tell the user.
    AlreadyActive,
    /// Store the new book in the settings, reload, and reinstall the mouse hook.
    Switch,
}

/// `name`: the normalized book file name; `writable`: it may be selected;
/// `current`: the settings' active book.
pub fn mode_switch_plan(name: &str, writable: bool, current: &str) -> (r: ModeSwitch)
    ensures
        r == (if name@.len() == 0 || !writable {
            ModeSwitch::Ignore
        } else if current@ == name@ {
            ModeSwitch::AlreadyActive
        } else {
            ModeSwitch::Switch
        }),
{
    if name.is_empty() || !writable {
        ModeSwitch::Ignore
    } else if crate::text::str_eq(current, name) {
        ModeSwitch::AlreadyActive
    } else {
        ModeSwitch::Switch
    }
}

/// What switching to another key set does.
#[derive(Clone, Copy, Debug, PartialEq, Eq, Structural)]
pub enum KeySetSwitch {
    /// Settings is open (it owns the key sets): ignored.
    Ignore,
    /// No key set has this id.
    Unknown,
    /// Already active: save the settings and refresh (no reload).
    SaveOnly,
    /// Activate it, save the settings and reload the configuration.
    SaveAndReload,
}

pub fn key_set_switch_plan(settings_open: bool, already_active: bool, known: bool) -> (r: KeySetSwitch)
    ensures
        r == (if settings_open {
            KeySetSwitch::Ignore
        } else if already_active {
            KeySetSwitch::SaveOnly
        } else if !known {
            KeySetSwitch::Unknown
        } else {
            KeySetSwitch::SaveAndReload
        }),
{
    if settings_open {
        KeySetSwitch::Ignore
    } else if already_active {
        KeySetSwitch::SaveOnly
    } else if !known {
        KeySetSwitch::Unknown
    } else {
        KeySetSwitch::SaveAndReload
    }
}

/// While Settings is open, nothing the host receives opens the typing window
/// or Search, arms a chord or switches key set.
pub proof fn lemma_settings_open_blocks_triggers(m: HostMsg, v: HostView)
    requires
        v.settings_open,
    ensures
        !host_plan_spec(m, v).open_typing,
        !host_plan_spec(m, v).open_search,
        !host_plan_spec(m, v).arm_chord,
        !host_plan_spec(m, v).switch_keyset_by_letter,
        !host_plan_spec(m, v).switch_keyset_by_index,
{
    match m {
        HostMsg::Trigger => {},
        HostMsg::Key => {},
        HostMsg::Timeout => {},
        HostMsg::TrayDispatch => {},
        HostMsg::TaskbarCreated => {},
        HostMsg::Reload => {},
        HostMsg::ModeArm => {},
        HostMsg::ModeChord => {},
        HostMsg::ModePick => {},
        HostMsg::KeysetChord => {},
        HostMsg::KeysetPick => {},
        HostMsg::Timer => {},
        HostMsg::Help => {},
        HostMsg::Search => {},
        HostMsg::SearchClosed => {},
        HostMsg::Settings => {},
        HostMsg::LaunchFailed => {},
        HostMsg::SettingsApplied => {},
        HostMsg::SettingsClosed => {},
        HostMsg::Quit => {},
        HostMsg::OpenFailed(_) => {},
        HostMsg::Other => {},
    }
}

/// At most one window is opened per message, and a window is never opened
/// while the plan also closes it.
pub proof fn lemma_one_window_opens(m: HostMsg, v: HostView)
    ensures
        ({
            let p = host_plan_spec(m, v);
            &&& !(p.open_typing && p.open_search)
            &&& !(p.open_typing && p.open_settings)
            &&& !(p.open_search && p.open_settings)
            &&& !(p.open_typing && p.close_typing)
            &&& !(p.open_search && p.close_search)
            &&& !(p.open_settings && p.close_settings)
        }),
{
    match m {
        HostMsg::Trigger => {},
        HostMsg::Key => {},
        HostMsg::Timeout => {},
        HostMsg::TrayDispatch => {},
        HostMsg::TaskbarCreated => {},
        HostMsg::Reload => {},
        HostMsg::ModeArm => {},
        HostMsg::ModeChord => {},
        HostMsg::ModePick => {},
        HostMsg::KeysetChord => {},
        HostMsg::KeysetPick => {},
        HostMsg::Timer => {},
        HostMsg::Help => {},
        HostMsg::Search => {},
        HostMsg::SearchClosed => {},
        HostMsg::Settings => {},
        HostMsg::LaunchFailed => {},
        HostMsg::SettingsApplied => {},
        HostMsg::SettingsClosed => {},
        HostMsg::Quit => {},
        HostMsg::OpenFailed(_) => {},
        HostMsg::Other => {},
    }
}

/// The chord listen is armed only while a typing window is open and stays
/// open, and any plan that closes the typing window ends the listen.
pub proof fn lemma_chord_only_with_typing_window(m: HostMsg, v: HostView)
    ensures
        host_plan_spec(m, v).arm_chord ==> v.typing_open && !host_plan_spec(m, v).close_typing,
        host_plan_spec(m, v).close_typing ==> host_plan_spec(m, v).disarm_chord,
{
    match m {
        HostMsg::Trigger => {},
        HostMsg::Key => {},
        HostMsg::Timeout => {},
        HostMsg::TrayDispatch => {},
        HostMsg::TaskbarCreated => {},
        HostMsg::Reload => {},
        HostMsg::ModeArm => {},
        HostMsg::ModeChord => {},
        HostMsg::ModePick => {},
        HostMsg::KeysetChord => {},
        HostMsg::KeysetPick => {},
        HostMsg::Timer => {},
        HostMsg::Help => {},
        HostMsg::Search => {},
        HostMsg::SearchClosed => {},
        HostMsg::Settings => {},
        HostMsg::LaunchFailed => {},
        HostMsg::SettingsApplied => {},
        HostMsg::SettingsClosed => {},
        HostMsg::Quit => {},
        HostMsg::OpenFailed(_) => {},
        HostMsg::Other => {},
    }
}

/// A window that failed to open is reported, and nothing else happens: no
/// window opens or closes.
pub proof fn lemma_failed_open_notifies(k: WindowKind, v: HostView)
    ensures
        host_plan_spec(HostMsg::OpenFailed(k), v) == (HostPlan { notify_open_failed: true, ..nothing() }),
        !host_plan_spec(HostMsg::OpenFailed(k), v).open_typing,
        !host_plan_spec(HostMsg::OpenFailed(k), v).open_search,
        !host_plan_spec(HostMsg::OpenFailed(k), v).open_settings,
{
}

/// Each of the host's messages is classified as itself, whatever id the
/// `TaskbarCreated` broadcast was given (registered ids lie at 0xC000 and
/// above), and only for the host window or thread.
pub proof fn lemma_host_messages(tc: u32, msg: u32)
    requires
        tc >= 0xC000 || tc == 0,
    ensures
        host_msg_spec(0x8001, tc) == HostMsg::Trigger,
        host_msg_spec(0x0312, tc) == HostMsg::Trigger,
        host_msg_spec(0x8002, tc) == HostMsg::Key,
        host_msg_spec(0x8003, tc) == HostMsg::Timeout,
        host_msg_spec(0x800B, tc) == HostMsg::Reload,
        host_msg_spec(0x800C, tc) == HostMsg::Quit,
        host_msg_spec(0x800D, tc) == HostMsg::Help,
        host_msg_spec(0x800E, tc) == HostMsg::TrayDispatch,
        host_msg_spec(0x800F, tc) == HostMsg::Search,
        host_msg_spec(0x8010, tc) == HostMsg::SearchClosed,
        host_msg_spec(0x8011, tc) == HostMsg::Settings,
        host_msg_spec(0x8012, tc) == HostMsg::SettingsClosed,
        host_msg_spec(0x8013, tc) == HostMsg::SettingsApplied,
        host_msg_spec(0x8014, tc) == HostMsg::ModeArm,
        host_msg_spec(0x8015, tc) == HostMsg::ModeChord,
        host_msg_spec(0x8016, tc) == HostMsg::ModePick,
        host_msg_spec(0x8018, tc) == HostMsg::LaunchFailed,
        host_msg_spec(0x8019, tc) == HostMsg::KeysetChord,
        host_msg_spec(0x801A, tc) == HostMsg::KeysetPick,
        host_msg_spec(0x0113, tc) == HostMsg::Timer,
        tc != 0 ==> host_msg_spec(tc, tc) == HostMsg::TaskbarCreated,
        host_msg_spec(msg, tc) != HostMsg::Other ==> (0x8001 <= msg <= 0x801A || msg == 0x0312
            || msg == 0x0113 || (msg == tc && tc != 0)),
{
}

/// While Settings is open or has the triggers off, the trigger does nothing;
/// otherwise, with Search open, it closes Search and opens nothing.
pub proof fn lemma_trigger_respects_settings_and_search(v: HostView)
    ensures
        (v.triggers_disabled || v.settings_open) ==> host_plan_spec(HostMsg::Trigger, v)
            == nothing(),
        (!v.triggers_disabled && !v.settings_open && v.search_open) ==> host_plan_spec(
            HostMsg::Trigger,
            v,
        ) == (HostPlan { close_search: true, ..nothing() }),
{
}

/// With nothing open and triggers on, the trigger opens the typing window;
/// with only the typing window open, it closes it.
pub proof fn lemma_trigger_toggles_typing(v: HostView)
    requires
        !v.triggers_disabled,
        !v.settings_open,
        !v.search_open,
    ensures
        v.typing_open ==> host_plan_spec(HostMsg::Trigger, v).close_typing && !host_plan_spec(
            HostMsg::Trigger,
            v,
        ).open_typing,
        !v.typing_open ==> host_plan_spec(HostMsg::Trigger, v).open_typing,
{
}

} // verus!
