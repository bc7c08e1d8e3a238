//! Which Settings action a `WM_COMMAND` from one of its controls asks for.

use vstd::prelude::*;

use crate::settings::Page;

verus! {

pub const IDC_TAB_SLOTS: usize = 1001;
pub const IDC_TAB_KEYS: usize = 1002;
pub const IDC_TAB_TRIGGERS: usize = 1003;
pub const IDC_TAB_SEARCH: usize = 1004;
pub const IDC_TAB_GENERAL: usize = 1005;
pub const IDC_TAB_MODE: usize = 1006;
pub const IDC_SLOT_LIST: usize = 1100;
pub const IDC_SLOT_ADD: usize = 1101;
pub const IDC_SLOT_DELETE: usize = 1102;
pub const IDC_SLOT_SWAP: usize = 1103;
pub const IDC_SLOT_ID: usize = 1110;
pub const IDC_SLOT_PATH: usize = 1112;
pub const IDC_SLOT_APPLY: usize = 1116;
pub const IDC_SLOT_INSTANT: usize = 1119;
pub const IDC_CAP_START: usize = 1210;
pub const IDC_CAP_CONFIRM: usize = 1211;
pub const IDC_CAP_CANCEL: usize = 1212;
pub const IDC_CAP_SEARCH: usize = 1213;
pub const IDC_CAP_OPEN_WORKDIR: usize = 1214;
pub const IDC_CAP_DIGIT_BACK: usize = 1215;
pub const IDC_WAKE: usize = 1217;
pub const IDC_KEY_SET: usize = 1218;
pub const IDC_KEY_CHORD: usize = 1219;
pub const IDC_RESET_KEYS: usize = 1223;
pub const IDC_CAP_MOUSE: usize = 1225;
pub const IDC_CAP_WAKE: usize = 1226;
pub const IDC_RESET_TRIGGERS: usize = 1227;
pub const IDC_SLOTS_FILE: usize = 1328;
pub const IDC_OPEN_CONFIG_FOLDER: usize = 1329;
pub const IDC_BACKUP_CONFIG: usize = 1330;
pub const IDC_BACKUP_BROWSE: usize = 1332;
pub const IDC_BACKUP_RESTORE: usize = 1333;
pub const IDC_SAVE: usize = 1400;
pub const IDC_CANCEL: usize = 1401;
pub const IDC_APPLY: usize = 1402;
pub const IDC_ADVANCED: usize = 1403;
pub const IDC_MODE_CHORD_LIST: usize = 1503;
pub const IDC_MODE_SET_OVERRIDE: usize = 1506;
pub const IDC_MODE_CLEAR_OVERRIDE: usize = 1507;
pub const IDC_MODE_CURRENT: usize = 1509;
pub const IDC_MODE_LETTER_KEYBOARD: usize = 1510;
pub const IDC_LEGEND_IDLE_0: usize = 1600;
pub const IDC_LEGEND_MULTI_0: usize = 1610;
pub const IDC_LEGEND_IDLE_UP: usize = 1620;
pub const IDC_LEGEND_IDLE_DOWN: usize = 1621;
pub const IDC_LEGEND_MULTI_UP: usize = 1622;
pub const IDC_LEGEND_MULTI_DOWN: usize = 1623;

/// Button click (and menu / accelerator: code 0).
pub const BN_CLICKED: usize = 0;
pub const LBN_SELCHANGE: usize = 1;
pub const CBN_SELCHANGE: usize = 1;
pub const LBN_DBLCLK: usize = 2;
pub const EN_SETFOCUS: usize = 0x0100;
pub const EN_CHANGE: usize = 0x0300;
/// Legend check boxes per list.
pub const LEGEND_CHECKS: usize = 5;

/// A Capture button.
#[derive(Clone, Copy, Debug, PartialEq, Eq, Structural)]
pub enum CaptureButton {
    Start,
    Confirm,
    Cancel,
    Search,
    OpenWorkdir,
    DigitBack,
    Wake,
    Mouse,
}

/// What a control's command asks of the Settings window.
#[derive(Clone, Copy, Debug, PartialEq, Eq, Structural)]
pub enum SettingsCommand {
    /// An edit box took the focus: end any key capture.
    StopCapture,
    ShowPage(Page),
    /// The "advanced" box changed: re-read it, leave an advanced tab, refit.
    ToggleAdvanced,
    SlotAdd,
    SlotDelete,
    SlotSwap,
    /// The instant-fire box of the slot being edited changed.
    SlotInstant,
    SlotApply,
    Capture(CaptureButton),
    /// The wake box changed.
    WakeToggle,
    ResetKeys,
    ResetTriggers,
    ModeSetOverride,
    ModeClearOverride,
    /// Move the selected legend entry: idle list or multi-digit list, up or down.
    LegendMove { idle: bool, up: bool },
    /// A legend check box changed: idle list or multi-digit list, its row.
    LegendCheck { idle: bool, row: usize },
    OpenConfigFolder,
    BackupBrowse,
    BackupConfig,
    BackupRestore,
    Save,
    Apply,
    Cancel,
    /// Another slot row was selected: load it into the form.
    SlotSelected,
    /// Another mode-chord row was selected.
    ModeChordSelected,
    /// A mode-chord row was double-clicked.
    ModeChordActivated,
    ModeCurrentSelected,
    SlotsFileSelected,
    KeySetSelected,
    /// A key-set letter was picked: numpad set or keyboard set.
    KeySetLetterSelected { keyboard: bool },
    /// The slot id or path text changed: re-check whether editing is allowed.
    SlotFieldChanged,
    Ignore,
}

pub open spec fn clicked_spec(id: usize) -> SettingsCommand {
    if id == IDC_TAB_SLOTS {
        SettingsCommand::ShowPage(Page::Slots)
    } else if id == IDC_TAB_KEYS {
        SettingsCommand::ShowPage(Page::Keys)
    } else if id == IDC_TAB_TRIGGERS {
        SettingsCommand::ShowPage(Page::Triggers)
    } else if id == IDC_TAB_SEARCH {
        SettingsCommand::ShowPage(Page::Search)
    } else if id == IDC_TAB_MODE {
        SettingsCommand::ShowPage(Page::Mode)
    } else if id == IDC_TAB_GENERAL {
        SettingsCommand::ShowPage(Page::General)
    } else if id == IDC_ADVANCED {
        SettingsCommand::ToggleAdvanced
    } else if id == IDC_SLOT_ADD {
        SettingsCommand::SlotAdd
    } else if id == IDC_SLOT_DELETE {
        SettingsCommand::SlotDelete
    } else if id == IDC_SLOT_SWAP {
        SettingsCommand::SlotSwap
    } else if id == IDC_SLOT_INSTANT {
        SettingsCommand::SlotInstant
    } else if id == IDC_SLOT_APPLY {
        SettingsCommand::SlotApply
    } else if id == IDC_CAP_START {
        SettingsCommand::Capture(CaptureButton::Start)
    } else if id == IDC_CAP_CONFIRM {
        SettingsCommand::Capture(CaptureButton::Confirm)
    } else if id == IDC_CAP_CANCEL {
        SettingsCommand::Capture(CaptureButton::Cancel)
    } else if id == IDC_CAP_SEARCH {
        SettingsCommand::Capture(CaptureButton::Search)
    } else if id == IDC_CAP_OPEN_WORKDIR {
        SettingsCommand::Capture(CaptureButton::OpenWorkdir)
    } else if id == IDC_CAP_DIGIT_BACK {
        SettingsCommand::Capture(CaptureButton::DigitBack)
    } else if id == IDC_CAP_WAKE {
        SettingsCommand::Capture(CaptureButton::Wake)
    } else if id == IDC_CAP_MOUSE {
        SettingsCommand::Capture(CaptureButton::Mouse)
    } else if id == IDC_WAKE {
        SettingsCommand::WakeToggle
    } else if id == IDC_RESET_KEYS {
        SettingsCommand::ResetKeys
    } else if id == IDC_RESET_TRIGGERS {
        SettingsCommand::ResetTriggers
    } else if id == IDC_MODE_SET_OVERRIDE {
        SettingsCommand::ModeSetOverride
    } else if id == IDC_MODE_CLEAR_OVERRIDE {
        SettingsCommand::ModeClearOverride
    } else if id == IDC_LEGEND_IDLE_UP {
        SettingsCommand::LegendMove { idle: true, up: true }
    } else if id == IDC_LEGEND_IDLE_DOWN {
        SettingsCommand::LegendMove { idle: true, up: false }
    } else if id == IDC_LEGEND_MULTI_UP {
        SettingsCommand::LegendMove { idle: false, up: true }
    } else if id == IDC_LEGEND_MULTI_DOWN {
        SettingsCommand::LegendMove { idle: false, up: false }
    } else if id == IDC_OPEN_CONFIG_FOLDER {
        SettingsCommand::OpenConfigFolder
    } else if id == IDC_BACKUP_BROWSE {
        SettingsCommand::BackupBrowse
    } else if id == IDC_BACKUP_CONFIG {
        SettingsCommand::BackupConfig
    } else if id == IDC_BACKUP_RESTORE {
        SettingsCommand::BackupRestore
    } else if id == IDC_SAVE {
        SettingsCommand::Save
    } else if id == IDC_APPLY {
        SettingsCommand::Apply
    } else if id == IDC_CANCEL {
        SettingsCommand::Cancel
    } else if IDC_LEGEND_IDLE_0 <= id < IDC_LEGEND_IDLE_0 + LEGEND_CHECKS {
        SettingsCommand::LegendCheck { idle: true, row: (id - IDC_LEGEND_IDLE_0) as usize }
    } else if IDC_LEGEND_MULTI_0 <= id < IDC_LEGEND_MULTI_0 + LEGEND_CHECKS {
        SettingsCommand::LegendCheck { idle: false, row: (id - IDC_LEGEND_MULTI_0) as usize }
    } else {
        SettingsCommand::Ignore
    }
}

pub open spec fn notified_spec(id: usize, notify: usize) -> SettingsCommand {
    if id == IDC_SLOT_LIST && notify == LBN_SELCHANGE {
        SettingsCommand::SlotSelected
    } else if id == IDC_MODE_CHORD_LIST && notify == LBN_SELCHANGE {
        SettingsCommand::ModeChordSelected
    } else if id == IDC_MODE_CHORD_LIST && notify == LBN_DBLCLK {
        SettingsCommand::ModeChordActivated
    } else if id == IDC_MODE_CURRENT && notify == CBN_SELCHANGE {
        SettingsCommand::ModeCurrentSelected
    } else if id == IDC_SLOTS_FILE && notify == CBN_SELCHANGE {
        SettingsCommand::SlotsFileSelected
    } else if id == IDC_KEY_SET && notify == CBN_SELCHANGE {
        SettingsCommand::KeySetSelected
    } else if id == IDC_KEY_CHORD && notify == CBN_SELCHANGE {
        SettingsCommand::KeySetLetterSelected { keyboard: false }
    } else if id == IDC_MODE_LETTER_KEYBOARD && notify == CBN_SELCHANGE {
        SettingsCommand::KeySetLetterSelected { keyboard: true }
    } else if (id == IDC_SLOT_ID || id == IDC_SLOT_PATH) && notify == EN_CHANGE {
        SettingsCommand::SlotFieldChanged
    } else {
        SettingsCommand::Ignore
    }
}

/// The command for a `WM_COMMAND` whose wparam carries the notification
/// code (high word) and the control id (low word). Click codes and the
/// other notifications never share a value, so one message asks for one
/// thing.
pub open spec fn settings_command_spec(wparam: usize) -> SettingsCommand {
    let notify = (wparam / 0x1_0000) % 0x1_0000;
    let id = wparam % 0x1_0000;
    if notify == EN_SETFOCUS {
        SettingsCommand::StopCapture
    } else if notify == BN_CLICKED {
        clicked_spec(id)
    } else {
        notified_spec(id, notify)
    }
}

fn clicked(id: usize) -> (r: SettingsCommand)
    requires
        id < 0x1_0000,
    ensures
        r == clicked_spec(id),
{
    if id == IDC_TAB_SLOTS {
        SettingsCommand::ShowPage(Page::Slots)
    } else if id == IDC_TAB_KEYS {
        SettingsCommand::ShowPage(Page::Keys)
    } else if id == IDC_TAB_TRIGGERS {
        SettingsCommand::ShowPage(Page::Triggers)
    } else if id == IDC_TAB_SEARCH {
        SettingsCommand::ShowPage(Page::Search)
    } else if id == IDC_TAB_MODE {
        SettingsCommand::ShowPage(Page::Mode)
    } else if id == IDC_TAB_GENERAL {
        SettingsCommand::ShowPage(Page::General)
    } else if id == IDC_ADVANCED {
        SettingsCommand::ToggleAdvanced
    } else if id == IDC_SLOT_ADD {
        SettingsCommand::SlotAdd
    } else if id == IDC_SLOT_DELETE {
        SettingsCommand::SlotDelete
    } else if id == IDC_SLOT_SWAP {
        SettingsCommand::SlotSwap
    } else if id == IDC_SLOT_INSTANT {
        SettingsCommand::SlotInstant
    } else if id == IDC_SLOT_APPLY {
        SettingsCommand::SlotApply
    } else if id == IDC_CAP_START {
        SettingsCommand::Capture(CaptureButton::Start)
    } else if id == IDC_CAP_CONFIRM {
        SettingsCommand::Capture(CaptureButton::Confirm)
    } else if id == IDC_CAP_CANCEL {
        SettingsCommand::Capture(CaptureButton::Cancel)
    } else if id == IDC_CAP_SEARCH {
        SettingsCommand::Capture(CaptureButton::Search)
    } else if id == IDC_CAP_OPEN_WORKDIR {
        SettingsCommand::Capture(CaptureButton::OpenWorkdir)
    } else if id == IDC_CAP_DIGIT_BACK {
        SettingsCommand::Capture(CaptureButton::DigitBack)
    } else if id == IDC_CAP_WAKE {
        SettingsCommand::Capture(CaptureButton::Wake)
    } else if id == IDC_CAP_MOUSE {
        SettingsCommand::Capture(CaptureButton::Mouse)
    } else if id == IDC_WAKE {
        SettingsCommand::WakeToggle
    } else if id == IDC_RESET_KEYS {
        SettingsCommand::ResetKeys
    } else if id == IDC_RESET_TRIGGERS {
        SettingsCommand::ResetTriggers
    } else if id == IDC_MODE_SET_OVERRIDE {
        SettingsCommand::ModeSetOverride
    } else if id == IDC_MODE_CLEAR_OVERRIDE {
        SettingsCommand::ModeClearOverride
    } else if id == IDC_LEGEND_IDLE_UP {
        SettingsCommand::LegendMove { idle: true, up: true }
    } else if id == IDC_LEGEND_IDLE_DOWN {
        SettingsCommand::LegendMove { idle: true, up: false }
    } else if id == IDC_LEGEND_MULTI_UP {
        SettingsCommand::LegendMove { idle: false, up: true }
    } else if id == IDC_LEGEND_MULTI_DOWN {
        SettingsCommand::LegendMove { idle: false, up: false }
    } else if id == IDC_OPEN_CONFIG_FOLDER {
        SettingsCommand::OpenConfigFolder
    } else if id == IDC_BACKUP_BROWSE {
        SettingsCommand::BackupBrowse
    } else if id == IDC_BACKUP_CONFIG {
        SettingsCommand::BackupConfig
    } else if id == IDC_BACKUP_RESTORE {
        SettingsCommand::BackupRestore
    } else if id == IDC_SAVE {
        SettingsCommand::Save
    } else if id == IDC_APPLY {
        SettingsCommand::Apply
    } else if id == IDC_CANCEL {
        SettingsCommand::Cancel
    } else if IDC_LEGEND_IDLE_0 <= id && id < IDC_LEGEND_IDLE_0 + LEGEND_CHECKS {
        SettingsCommand::LegendCheck { idle: true, row: id - IDC_LEGEND_IDLE_0 }
    } else if IDC_LEGEND_MULTI_0 <= id && id < IDC_LEGEND_MULTI_0 + LEGEND_CHECKS {
        SettingsCommand::LegendCheck { idle: false, row: id - IDC_LEGEND_MULTI_0 }
    } else {
        SettingsCommand::Ignore
    }
}

fn notified(id: usize, notify: usize) -> (r: SettingsCommand)
    ensures
        r == notified_spec(id, notify),
{
    if id == IDC_SLOT_LIST && notify == LBN_SELCHANGE {
        SettingsCommand::SlotSelected
    } else if id == IDC_MODE_CHORD_LIST && notify == LBN_SELCHANGE {
        SettingsCommand::ModeChordSelected
    } else if id == IDC_MODE_CHORD_LIST && notify == LBN_DBLCLK {
        SettingsCommand::ModeChordActivated
    } else if id == IDC_MODE_CURRENT && notify == CBN_SELCHANGE {
        SettingsCommand::ModeCurrentSelected
    } else if id == IDC_SLOTS_FILE && notify == CBN_SELCHANGE {
        SettingsCommand::SlotsFileSelected
    } else if id == IDC_KEY_SET && notify == CBN_SELCHANGE {
        SettingsCommand::KeySetSelected
    } else if id == IDC_KEY_CHORD && notify == CBN_SELCHANGE {
        SettingsCommand::KeySetLetterSelected { keyboard: false }
    } else if id == IDC_MODE_LETTER_KEYBOARD && notify == CBN_SELCHANGE {
        SettingsCommand::KeySetLetterSelected { keyboard: true }
    } else if (id == IDC_SLOT_ID || id == IDC_SLOT_PATH) && notify == EN_CHANGE {
        SettingsCommand::SlotFieldChanged
    } else {
        SettingsCommand::Ignore
    }
}

/// Route one `WM_COMMAND` of the Settings window.
pub fn settings_command(wparam: usize) -> (r: SettingsCommand)
    ensures
        r == settings_command_spec(wparam),
{
    let notify = (wparam / 0x1_0000) % 0x1_0000;
    let id = wparam % 0x1_0000;
    if notify == EN_SETFOCUS {
        SettingsCommand::StopCapture
    } else if notify == BN_CLICKED {
        clicked(id)
    } else {
        notified(id, notify)
    }
}

/// A legend check box's command names the row it sits on, within the list.
pub proof fn lemma_legend_check_rows(id: usize)
    requires
        id < 0x1_0000,
    ensures
        clicked_spec(id) matches SettingsCommand::LegendCheck { idle, row } ==> row < LEGEND_CHECKS
            && id == (if idle {
            IDC_LEGEND_IDLE_0
        } else {
            IDC_LEGEND_MULTI_0
        }) + row,
{
}


/// A click (notification 0) on each button of the window asks for that
/// button's own action: the tab buttons 1001 .. 1006 show Slots, Keys,
/// Triggers, Search, General and Mode; Save 1400, Cancel 1401, Apply 1402,
/// Advanced 1403; the slot buttons Add 1101, Delete 1102, Swap 1103, Apply
/// 1116, Instant 1119. Focus entering an edit field (0x0100 in the high
/// word) always stops a key capture.
pub proof fn lemma_buttons_do_their_action(id: usize)
    requires
        id < 0x1_0000,
    ensures
        settings_command_spec(1001) == SettingsCommand::ShowPage(Page::Slots),
        settings_command_spec(1002) == SettingsCommand::ShowPage(Page::Keys),
        settings_command_spec(1003) == SettingsCommand::ShowPage(Page::Triggers),
        settings_command_spec(1004) == SettingsCommand::ShowPage(Page::Search),
        settings_command_spec(1005) == SettingsCommand::ShowPage(Page::General),
        settings_command_spec(1006) == SettingsCommand::ShowPage(Page::Mode),
        settings_command_spec(1400) == SettingsCommand::Save,
        settings_command_spec(1401) == SettingsCommand::Cancel,
        settings_command_spec(1402) == SettingsCommand::Apply,
        settings_command_spec(1403) == SettingsCommand::ToggleAdvanced,
        settings_command_spec(1101) == SettingsCommand::SlotAdd,
        settings_command_spec(1102) == SettingsCommand::SlotDelete,
        settings_command_spec(1103) == SettingsCommand::SlotSwap,
        settings_command_spec(1116) == SettingsCommand::SlotApply,
        settings_command_spec(1119) == SettingsCommand::SlotInstant,
        settings_command_spec((0x0100 * 0x1_0000 + id) as usize) == SettingsCommand::StopCapture,
{
    assert(((0x0100 * 0x1_0000 + id) as usize) / 0x1_0000 == 0x0100);
}

} // verus!
