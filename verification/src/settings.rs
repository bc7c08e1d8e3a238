//! Settings window: tabs, open/reopen state, and the rules behind its forms
//! (slot editing, swaps, numeric fields, combo choices, key capture, legend
//! order, backup folder, mode-chord overrides, saving).

use vstd::prelude::*;

use crate::mode_runtime::{opt_view, strings_view};
use crate::text::{parse_u32, parse_u32_spec, parse_usize, parse_usize_spec, str_eq, string_of, trim, trimmed};

verus! {

/// Settings tabs.
#[derive(Clone, Copy, Debug, PartialEq, Eq, Structural)]
pub enum Page {
    Slots,
    Mode,
    Keys,
    Triggers,
    Search,
    General,
}

pub open spec fn page_code(p: Page) -> u8 {
    match p {
        Page::Slots => 0,
        Page::Mode => 1,
        Page::Keys => 2,
        Page::Triggers => 3,
        Page::Search => 4,
        Page::General => 5,
    }
}

pub open spec fn page_of(v: u8) -> Page {
    if v == 1 {
        Page::Mode
    } else if v == 2 {
        Page::Keys
    } else if v == 3 {
        Page::Triggers
    } else if v == 4 {
        Page::Search
    } else if v == 5 {
        Page::General
    } else {
        Page::Slots
    }
}

impl Page {
    pub fn as_u8(self) -> (r: u8)
        ensures
            r == page_code(self),
    {
        match self {
            Page::Slots => 0,
            Page::Mode => 1,
            Page::Keys => 2,
            Page::Triggers => 3,
            Page::Search => 4,
            Page::General => 5,
        }
    }

    /// Unknown codes mean the Slots tab.
    pub fn from_u8(v: u8) -> (r: Page)
        ensures
            r == page_of(v),
    {
        if v == 1 {
            Page::Mode
        } else if v == 2 {
            Page::Keys
        } else if v == 3 {
            Page::Triggers
        } else if v == 4 {
            Page::Search
        } else if v == 5 {
            Page::General
        } else {
            Page::Slots
        }
    }

    /// Tabs shown only with Advanced on.
    pub fn is_advanced(self) -> (r: bool)
        ensures
            r == (self == Page::Mode || self == Page::Keys || self == Page::Triggers || self
                == Page::Search),
    {
        match self {
            Page::Mode | Page::Keys | Page::Triggers | Page::Search => true,
            _ => false,
        }
    }
}

/// A tab survives the trip through its code (the reopen request carries it).
pub proof fn lemma_page_code_round_trip(p: Page)
    ensures
        page_of(page_code(p)) == p,
        page_code(p) < 6,
{
}

/// Codes of real tabs come back unchanged; anything else becomes Slots.
pub proof fn lemma_code_page_round_trip(v: u8)
    ensures
        v < 6 ==> page_code(page_of(v)) == v,
        v >= 6 ==> page_of(v) == Page::Slots,
{
}

pub open spec fn is_advanced_spec(p: Page) -> bool {
    p == Page::Mode || p == Page::Keys || p == Page::Triggers || p == Page::Search
}

/// The tab a freshly opened window shows: the requested one, unless it is an
/// Advanced tab while Advanced is off (then Slots).
pub open spec fn initial_page_spec(code: u8, show_advanced: bool) -> Page {
    if !show_advanced && is_advanced_spec(page_of(code)) {
        Page::Slots
    } else {
        page_of(code)
    }
}

pub fn initial_page(code: u8, show_advanced: bool) -> (r: Page)
    ensures
        r == initial_page_spec(code, show_advanced),
{
    let p = Page::from_u8(code);
    if !show_advanced && p.is_advanced() {
        Page::Slots
    } else {
        p
    }
}

/// Turning Advanced off while on an Advanced tab falls back to Slots.
pub fn page_after_advanced_toggle(page: Page, show_advanced: bool) -> (r: Page)
    ensures
        r == (if !show_advanced && is_advanced_spec(page) {
            Page::Slots
        } else {
            page
        }),
{
    if !show_advanced && page.is_advanced() {
        Page::Slots
    } else {
        page
    }
}

/// Process-wide Settings state: the open window (0 when closed), the
/// trigger gate, and a pending reopen (after a language / book change).
/// Triggers are off exactly while the window is open.
pub struct SettingsRuntime {
    window: isize,
    triggers_off: bool,
    reopen: Option<Page>,
}

impl SettingsRuntime {
    /// The trigger gate is closed exactly while a Settings window is open.
    #[verifier::type_invariant]
    spec fn gate_follows_window(self) -> bool {
        self.triggers_off == (self.window != 0)
    }

    pub closed spec fn spec_window(&self) -> isize {
        self.window
    }

    pub closed spec fn spec_triggers_off(&self) -> bool {
        self.triggers_off
    }

    pub closed spec fn spec_reopen(&self) -> Option<Page> {
        self.reopen
    }

    pub fn new() -> (r: SettingsRuntime)
        ensures
            r.spec_window() == 0,
            !r.spec_triggers_off(),
            r.spec_reopen() is None,
    {
        SettingsRuntime { window: 0, triggers_off: false, reopen: None }
    }

    pub fn window(&self) -> (r: isize)
        ensures
            r == self.spec_window(),
    {
        self.window
    }

    /// Ask for the window to be rebuilt on `page` after it closes.
    pub fn request_reopen(&mut self, page: Page)
        ensures
            final(self).spec_reopen() == Some(page),
            final(self).spec_window() == old(self).spec_window(),
            final(self).spec_triggers_off() == old(self).spec_triggers_off(),
    {
        proof {
            use_type_invariant(&*self);
        }
        self.reopen = Some(page);
    }
}

/// The Settings window `hwnd` (non-zero) was created: record it and switch
/// the launch triggers off while it is open.
pub fn settings_opened(rt: &mut SettingsRuntime, hwnd: isize)
    requires
        hwnd != 0,
    ensures
        final(rt).spec_window() == hwnd,
        final(rt).spec_triggers_off(),
        final(rt).spec_reopen() == old(rt).spec_reopen(),
{
    let reopen = rt.reopen;
    *rt = SettingsRuntime { window: hwnd, triggers_off: true, reopen };
}

/// The Settings window was destroyed: forget it and switch the triggers back
/// on. Returns the message the caller posts to the host (Settings closed).
pub fn settings_closed(rt: &mut SettingsRuntime) -> (post: u32)
    ensures
        final(rt).spec_window() == 0,
        !final(rt).spec_triggers_off(),
        final(rt).spec_reopen() == old(rt).spec_reopen(),
        post == crate::host::WM_DK_SETTINGS_CLOSED,
{
    let reopen = rt.reopen;
    *rt = SettingsRuntime { window: 0, triggers_off: false, reopen };
    crate::host::WM_DK_SETTINGS_CLOSED
}

/// Triggers are off exactly while Settings is open.
pub fn triggers_disabled(rt: &SettingsRuntime) -> (r: bool)
    ensures
        r == rt.spec_triggers_off(),
        r == (rt.spec_window() != 0),
{
    proof {
        use_type_invariant(rt);
    }
    rt.triggers_off
}

/// The pending reopen request, at most once.
pub fn take_reopen_request(rt: &mut SettingsRuntime) -> (r: Option<Page>)
    ensures
        r == old(rt).spec_reopen(),
        final(rt).spec_reopen() is None,
        final(rt).spec_window() == old(rt).spec_window(),
        final(rt).spec_triggers_off() == old(rt).spec_triggers_off(),
{
    proof {
        use_type_invariant(&*rt);
    }
    let r = rt.reopen;
    rt.reopen = None;
    r
}

pub fn is_open(rt: &SettingsRuntime) -> (r: bool)
    ensures
        r == (rt.spec_window() != 0),
        r == rt.spec_triggers_off(),
{
    proof {
        use_type_invariant(rt);
    }
    rt.window != 0
}

/// The window to destroy for `close_if_open` (none when closed).
pub fn close_if_open(rt: &SettingsRuntime) -> (r: Option<isize>)
    ensures
        r == (if rt.spec_window() != 0 {
            Some(rt.spec_window())
        } else {
            None::<isize>
        }),
{
    if rt.window != 0 {
        Some(rt.window)
    } else {
        None
    }
}

/// What opening Settings does.
#[derive(Clone, Copy, Debug, PartialEq, Eq, Structural)]
pub enum OpenPlan {
    /// Already open: bring it to the front.
    FocusExisting,
    /// Create the window on this tab.
    Create(Page),
}

/// Open on the tab with code `page` (see `Page::as_u8`).
pub fn open_at_page(rt: &SettingsRuntime, page: u8, show_advanced: bool) -> (r: OpenPlan)
    ensures
        r == (if rt.spec_window() != 0 {
            OpenPlan::FocusExisting
        } else {
            OpenPlan::Create(initial_page_spec(page, show_advanced))
        }),
{
    if rt.window != 0 {
        OpenPlan::FocusExisting
    } else {
        OpenPlan::Create(initial_page(page, show_advanced))
    }
}

/// Open on the Slots tab.
pub fn open(rt: &SettingsRuntime, show_advanced: bool) -> (r: OpenPlan)
    ensures
        r == (if rt.spec_window() != 0 {
            OpenPlan::FocusExisting
        } else {
            OpenPlan::Create(Page::Slots)
        }),
{
    open_at_page(rt, 0, show_advanced)
}

// ── Slots tab ───────────────────────────────────────────────────────────

/// `"0"`..`"9"`: ids that can fire instantly.
pub open spec fn is_single_digit_id(id: Seq<char>) -> bool {
    id.len() == 1 && '0' <= id[0] && id[0] <= '9'
}

pub fn is_instant_digit_id(id: &str) -> (r: bool)
    ensures
        r == is_single_digit_id(id@),
{
    if id.unicode_len() != 1 {
        return false;
    }
    let c = id.get_char(0);
    '0' <= c && c <= '9'
}

/// A registered slot as the form edits it.
#[derive(Clone, Debug)]
pub struct SlotFields {
    pub name: String,
    pub path: String,
    pub description: String,
    pub workdir: String,
    pub open_workdir: bool,
    pub focus_existing: bool,
}

/// The form's fields, already trimmed, and its two checkboxes.
#[derive(Clone, Debug)]
pub struct SlotForm {
    pub id: String,
    pub name: String,
    pub path: String,
    pub description: String,
    pub workdir: String,
    pub open_workdir_checked: bool,
    pub focus_existing_checked: bool,
}

/// URL and `chain:` paths have no window to focus and no folder to open:
/// focus-existing is forced on and open-workdir off for them.
pub open spec fn effective_focus(form: SlotForm, url_or_chain: bool) -> bool {
    url_or_chain || form.focus_existing_checked
}

pub open spec fn effective_open_workdir(form: SlotForm, url_or_chain: bool) -> bool {
    form.open_workdir_checked && !url_or_chain
}

pub open spec fn form_blank(form: SlotForm, url_or_chain: bool) -> bool {
    form.id@.len() == 0 && form.name@.len() == 0 && form.path@.len() == 0
        && form.description@.len() == 0 && form.workdir@.len() == 0 && !form.open_workdir_checked
        && effective_focus(form, url_or_chain)
}

/// Whether the form differs from the draft slot with its id (a form for an id
/// not in the draft is new, hence dirty; a blank form is never dirty).
pub open spec fn slot_form_dirty_spec(
    form: SlotForm,
    url_or_chain: bool,
    existing: Option<SlotFields>,
) -> bool {
    if form_blank(form, url_or_chain) {
        false
    } else {
        match existing {
            Some(s) => s.name@ != form.name@ || s.path@ != form.path@ || s.description@
                != form.description@ || s.workdir@ != form.workdir@ || s.open_workdir
                != form.open_workdir_checked || s.focus_existing != effective_focus(
                form,
                url_or_chain,
            ),
            None => true,
        }
    }
}

pub fn slot_form_dirty(form: &SlotForm, url_or_chain: bool, existing: Option<&SlotFields>) -> (r:
    bool)
    ensures
        r == slot_form_dirty_spec(
            *form,
            url_or_chain,
            match existing {
                Some(s) => Some(*s),
                None => None,
            },
        ),
{
    let focus = url_or_chain || form.focus_existing_checked;
    if form.id.as_str().unicode_len() == 0 && form.name.as_str().unicode_len() == 0
        && form.path.as_str().unicode_len() == 0 && form.description.as_str().unicode_len() == 0
        && form.workdir.as_str().unicode_len() == 0 && !form.open_workdir_checked && focus {
        return false;
    }
    match existing {
        Some(s) => s.name != form.name || s.path != form.path || s.description != form.description
            || s.workdir != form.workdir || s.open_workdir != form.open_workdir_checked
            || s.focus_existing != focus,
        None => true,
    }
}

/// Why the slot form cannot be applied.
#[derive(Clone, Copy, Debug, PartialEq, Eq, Structural)]
pub enum SlotFormError {
    /// The selected slot file may not be edited.
    EditBlocked,
    /// The id is not a valid slot id (digits).
    InvalidId,
    /// Name and path are required.
    NameOrPathRequired,
}

/// Checks before a form is applied, in this order.
pub open spec fn slot_apply_check_spec(
    edit_allowed: bool,
    id_valid: bool,
    form: SlotForm,
) -> Result<(), SlotFormError> {
    if !edit_allowed {
        Err(SlotFormError::EditBlocked)
    } else if !id_valid {
        Err(SlotFormError::InvalidId)
    } else if form.name@.len() == 0 || form.path@.len() == 0 {
        Err(SlotFormError::NameOrPathRequired)
    } else {
        Ok(())
    }
}

pub fn slot_apply_check(edit_allowed: bool, id_valid: bool, form: &SlotForm) -> (r: Result<
    (),
    SlotFormError,
>)
    ensures
        r == slot_apply_check_spec(edit_allowed, id_valid, *form),
{
    if !edit_allowed {
        Err(SlotFormError::EditBlocked)
    } else if !id_valid {
        Err(SlotFormError::InvalidId)
    } else if form.name.as_str().unicode_len() == 0 || form.path.as_str().unicode_len() == 0 {
        Err(SlotFormError::NameOrPathRequired)
    } else {
        Ok(())
    }
}

/// The slot a valid form stores: open-workdir only for file paths,
/// focus-existing forced on for URL / `chain:` paths.
pub fn slot_from_form(form: &SlotForm, url_or_chain: bool) -> (r: SlotFields)
    ensures
        r.name@ == form.name@,
        r.path@ == form.path@,
        r.description@ == form.description@,
        r.workdir@ == form.workdir@,
        r.open_workdir == effective_open_workdir(*form, url_or_chain),
        r.focus_existing == effective_focus(*form, url_or_chain),
{
    SlotFields {
        name: form.name.clone(),
        path: form.path.clone(),
        description: form.description.clone(),
        workdir: form.workdir.clone(),
        open_workdir: form.open_workdir_checked && !url_or_chain,
        focus_existing: url_or_chain || form.focus_existing_checked,
    }
}

/// An absolute file path that does not exist earns a warning (the slot is
/// still stored); URLs and `chain:` paths are never checked.
pub fn warn_missing_path(url_or_chain: bool, absolute: bool, exists: bool) -> (r: bool)
    ensures
        r == (!url_or_chain && absolute && !exists),
{
    !url_or_chain && absolute && !exists
}

/// Outcome of the Swap button.
#[derive(Clone, Copy, Debug, PartialEq, Eq, Structural)]
pub enum SwapCheck {
    /// No row selected.
    SelectFirst,
    /// Selection does not name a slot: nothing happens.
    Nothing,
    /// The target id is not a valid slot id.
    InvalidId,
    /// The target is the selected slot itself.
    NeedOther,
    /// No slot has the target id.
    TargetMissing,
    /// Swap the two ids.
    Swap,
}

pub open spec fn swap_check_spec(
    selected: Option<Seq<char>>,
    sel_valid_row: bool,
    target: Seq<char>,
    target_valid: bool,
    target_exists: bool,
) -> SwapCheck {
    if !sel_valid_row {
        SwapCheck::SelectFirst
    } else {
        match selected {
            None => SwapCheck::Nothing,
            Some(from) => if !target_valid {
                SwapCheck::InvalidId
            } else if from == target {
                SwapCheck::NeedOther
            } else if !target_exists {
                SwapCheck::TargetMissing
            } else {
                SwapCheck::Swap
            },
        }
    }
}

/// `sel`: list selection (negative when none); `ids`: list rows' slot ids;
/// `target`: the trimmed id field.
pub fn swap_check(
    sel: isize,
    ids: &Vec<String>,
    target: &str,
    target_valid: bool,
    target_exists: bool,
) -> (r: SwapCheck)
    ensures
        r == swap_check_spec(
            if sel >= 0 && (sel as int) < ids@.len() {
                Some(ids@[sel as int]@)
            } else {
                None
            },
            sel >= 0,
            target@,
            target_valid,
            target_exists,
        ),
{
    if sel < 0 {
        return SwapCheck::SelectFirst;
    }
    let i = sel as usize;
    if i >= ids.len() {
        return SwapCheck::Nothing;
    }
    if !target_valid {
        return SwapCheck::InvalidId;
    }
    if str_eq(ids[i].as_str(), target) {
        return SwapCheck::NeedOther;
    }
    if !target_exists {
        return SwapCheck::TargetMissing;
    }
    SwapCheck::Swap
}

/// Whether the Slots tab may change the draft for the selected book: never
/// for a read-only (sample) book, and never for the broken file that was open
/// when the window opened.
pub fn slots_edit_allowed(name_writable: bool, slots_writable: bool, is_path_at_open: bool) -> (r:
    bool)
    ensures
        r == (name_writable && !(!slots_writable && is_path_at_open)),
{
    if !name_writable {
        return false;
    }
    if !slots_writable && is_path_at_open {
        return false;
    }
    true
}

/// Which message explains a blocked Slots tab.
#[derive(Clone, Copy, Debug, PartialEq, Eq, Structural)]
pub enum SlotsBlock {
    ReadOnly,
    Unwritable,
}

pub fn slots_edit_block_message(name_writable: bool, slots_writable: bool, is_path_at_open: bool) -> (r:
    SlotsBlock)
    ensures
        r == (if name_writable && !slots_writable && is_path_at_open {
            SlotsBlock::Unwritable
        } else {
            SlotsBlock::ReadOnly
        }),
{
    if !name_writable {
        SlotsBlock::ReadOnly
    } else if !slots_writable && is_path_at_open {
        SlotsBlock::Unwritable
    } else {
        SlotsBlock::ReadOnly
    }
}

// ── Form fields ─────────────────────────────────────────────────────────

/// Launch-trigger button chosen in the Triggers combo.
pub fn mouse_button_for_index(idx: isize) -> (r: &'static str)
    ensures
        r@ == (if idx == 1 {
            "x1"@
        } else if idx == 2 {
            "middle"@
        } else {
            "x2"@
        }),
{
    if idx == 1 {
        "x1"
    } else if idx == 2 {
        "middle"
    } else {
        "x2"
    }
}

/// Mode-switch leader button chosen in the Mode combo (default X1).
pub fn mode_mouse_for_index(idx: isize) -> (r: &'static str)
    ensures
        r@ == (if idx == 1 {
            "x2"@
        } else if idx == 2 {
            "middle"@
        } else {
            "x1"@
        }),
{
    if idx == 1 {
        "x2"
    } else if idx == 2 {
        "middle"
    } else {
        "x1"
    }
}

/// Log level chosen in the General combo.
pub fn log_level_for_index(idx: isize) -> (r: &'static str)
    ensures
        r@ == (if idx == 1 {
            "info"@
        } else if idx == 2 {
            "debug"@
        } else {
            "warn"@
        }),
{
    if idx == 1 {
        "info"
    } else if idx == 2 {
        "debug"
    } else {
        "warn"
    }
}

/// Search matching mode.
#[derive(Clone, Copy, Debug, PartialEq, Eq, Structural)]
pub enum SearchMode {
    Substring,
    Prefix,
    Exact,
    Fuzzy,
}

pub fn search_mode_for_index(idx: isize) -> (r: SearchMode)
    ensures
        r == (if idx == 1 {
            SearchMode::Prefix
        } else if idx == 2 {
            SearchMode::Exact
        } else if idx == 3 {
            SearchMode::Fuzzy
        } else {
            SearchMode::Substring
        }),
{
    if idx == 1 {
        SearchMode::Prefix
    } else if idx == 2 {
        SearchMode::Exact
    } else if idx == 3 {
        SearchMode::Fuzzy
    } else {
        SearchMode::Substring
    }
}

/// The capture-mouse code of a button: 0 middle, 1 X1, anything else X2;
/// with the Triggers combo index it selects.
pub fn captured_mouse_button(code: usize) -> (r: (&'static str, usize))
    ensures
        r.0@ == (if code == 0 {
            "middle"@
        } else if code == 1 {
            "x1"@
        } else {
            "x2"@
        }),
        r.1 == (if code == 0 {
            2usize
        } else if code == 1 {
            1usize
        } else {
            0usize
        }),
{
    if code == 0 {
        ("middle", 2)
    } else if code == 1 {
        ("x1", 1)
    } else {
        ("x2", 0)
    }
}

/// The combo entry at a selection index; empty when nothing is selected
/// (negative index) or the index is past the end.
pub fn choice_at(choices: &Vec<String>, idx: isize) -> (r: String)
    ensures
        r@ == (if 0 <= idx && (idx as int) < choices@.len() {
            choices@[idx as int]@
        } else {
            Seq::<char>::empty()
        }),
{
    if idx >= 0 && (idx as usize) < choices.len() {
        choices[idx as usize].clone()
    } else {
        String::new()
    }
}

/// Why a numeric field was refused.
#[derive(Clone, Copy, Debug, PartialEq, Eq, Structural)]
pub enum FieldError {
    TimeoutNotNumber,
    TimeoutZero,
    MaxDigitsNotNumber,
    MaxDigitsRange,
    FeedbackNotNumber,
}

/// Idle timeout in seconds: a whole number, at least 1.
pub fn parse_timeout(text: &str) -> (r: Result<u32, FieldError>)
    ensures
        r == (match parse_u32_spec(trimmed(text@)) {
            None => Err(FieldError::TimeoutNotNumber),
            Some(0) => Err(FieldError::TimeoutZero),
            Some(v) => Ok(v),
        }),
{
    match parse_u32(trim(text)) {
        None => Err(FieldError::TimeoutNotNumber),
        Some(v) => if v == 0 {
            Err(FieldError::TimeoutZero)
        } else {
            Ok(v)
        },
    }
}

/// Digits in a multi-digit id: 1 to 32 (read as a `usize`).
pub fn parse_max_digits(text: &str) -> (r: Result<usize, FieldError>)
    ensures
        r == (match parse_usize_spec(trimmed(text@)) {
            None => Err(FieldError::MaxDigitsNotNumber),
            Some(v) => if v == 0 || v > 32 {
                Err(FieldError::MaxDigitsRange)
            } else {
                Ok(v)
            },
        }),
{
    match parse_usize(trim(text)) {
        None => Err(FieldError::MaxDigitsNotNumber),
        Some(v) => if v == 0 || v > 32 {
            Err(FieldError::MaxDigitsRange)
        } else {
            Ok(v)
        },
    }
}

/// Launch feedback time in milliseconds (0 closes at once).
pub fn parse_feedback_ms(text: &str) -> (r: Result<u32, FieldError>)
    ensures
        r == (match parse_u32_spec(trimmed(text@)) {
            None => Err(FieldError::FeedbackNotNumber),
            Some(v) => Ok(v),
        }),
{
    match parse_u32(trim(text)) {
        None => Err(FieldError::FeedbackNotNumber),
        Some(v) => Ok(v),
    }
}

/// Chord timeout: the typed number, or the previous value when it does not parse.
pub fn parse_chord_timeout(text: &str, previous: u32) -> (r: u32)
    ensures
        r == (match parse_u32_spec(trimmed(text@)) {
            None => previous,
            Some(v) => v,
        }),
{
    match parse_u32(trim(text)) {
        None => previous,
        Some(v) => v,
    }
}

// ── Key capture ─────────────────────────────────────────────────────────

pub const WM_LBUTTONDOWN: u32 = 0x0201;
pub const WM_RBUTTONDOWN: u32 = 0x0204;

/// What the capture mouse hook does with a button press: left and right are
/// never captured (the window must stay usable); middle is code 0, X1 is 1,
/// X2 is 2; anything else passes.
pub open spec fn capture_mouse_spec(code: i32, msg: u32, mouse_data: u32) -> Option<u16> {
    if code != 0 || msg == WM_LBUTTONDOWN || msg == WM_RBUTTONDOWN {
        None
    } else if msg == crate::mouse_hook::WM_MBUTTONDOWN {
        Some(0)
    } else if msg == crate::mouse_hook::WM_XBUTTONDOWN {
        let x = (mouse_data / 0x10000) as u16;
        if x == crate::mouse_hook::XBUTTON1 {
            Some(1)
        } else if x == crate::mouse_hook::XBUTTON2 {
            Some(2)
        } else {
            None
        }
    } else {
        None
    }
}

pub fn capture_mouse_button(code: i32, msg: u32, mouse_data: u32) -> (r: Option<u16>)
    ensures
        r == capture_mouse_spec(code, msg, mouse_data),
{
    if code != 0 || msg == WM_LBUTTONDOWN || msg == WM_RBUTTONDOWN {
        return None;
    }
    if msg == crate::mouse_hook::WM_MBUTTONDOWN {
        Some(0)
    } else if msg == crate::mouse_hook::WM_XBUTTONDOWN {
        let x = (mouse_data / 0x10000) as u16;
        if x == crate::mouse_hook::XBUTTON1 {
            Some(1)
        } else if x == crate::mouse_hook::XBUTTON2 {
            Some(2)
        } else {
            None
        }
    } else {
        None
    }
}

/// `WM_COMMAND`'s `wParam`: notification code (high word) and control id
/// (low word).
pub fn command_parts(wparam: usize) -> (r: (u16, isize))
    ensures
        r.0 == ((wparam / 0x10000) % 0x10000) as u16,
        r.1 == (wparam % 0x10000) as isize,
{
    let notify = ((wparam / 0x10000) % 0x10000) as u16;
    let id = (wparam % 0x10000) as isize;
    (notify, id)
}

/// Role names as shown in key-binding messages.
#[derive(Clone, Copy, Debug, PartialEq, Eq, Structural)]
pub enum RoleLabel {
    Start,
    Confirm,
    Cancel,
    Search,
    OpenWorkdir,
    DigitBack,
    Wake,
    /// Not a known role: shown as written.
    Other,
}

pub open spec fn role_label_spec(role: Seq<char>) -> RoleLabel {
    if role == "start"@ {
        RoleLabel::Start
    } else if role == "confirm"@ {
        RoleLabel::Confirm
    } else if role == "cancel"@ {
        RoleLabel::Cancel
    } else if role == "search"@ {
        RoleLabel::Search
    } else if role == "openWorkdir"@ {
        RoleLabel::OpenWorkdir
    } else if role == "digitBack"@ {
        RoleLabel::DigitBack
    } else if role == "wake"@ {
        RoleLabel::Wake
    } else {
        RoleLabel::Other
    }
}

pub fn role_label(role: &str) -> (r: RoleLabel)
    ensures
        r == role_label_spec(role@),
{
    if str_eq(role, "start") {
        RoleLabel::Start
    } else if str_eq(role, "confirm") {
        RoleLabel::Confirm
    } else if str_eq(role, "cancel") {
        RoleLabel::Cancel
    } else if str_eq(role, "search") {
        RoleLabel::Search
    } else if str_eq(role, "openWorkdir") {
        RoleLabel::OpenWorkdir
    } else if str_eq(role, "digitBack") {
        RoleLabel::DigitBack
    } else if str_eq(role, "wake") {
        RoleLabel::Wake
    } else {
        RoleLabel::Other
    }
}

// ── Legend order ────────────────────────────────────────────────────────

/// Move the selected legend item up (`delta` -1) or down (+1): swap it with
/// its neighbour and return the new selection; nothing changes (and `None`)
/// when the move would leave the list or there are fewer than two items.
pub fn legend_move_sel(order: &mut Vec<String>, sel: usize, delta: i32) -> (r: Option<usize>)
    requires
        sel < old(order)@.len(),
        old(order)@.len() <= i32::MAX,
    ensures
        ({
            let n = old(order)@.len();
            let j = sel + delta;
            if n < 2 || j < 0 || j >= n {
                r is None && final(order)@ == old(order)@
            } else {
                r == Some(j as usize) && final(order)@ == old(order)@.update(sel as int, old(
                    order,
                )@[j]).update(j, old(order)@[sel as int])
            }
        }),
{
    let n = order.len();
    if n < 2 {
        return None;
    }
    let j: i64 = sel as i64 + delta as i64;
    if j < 0 || j >= n as i64 {
        return None;
    }
    let j = j as usize;
    let a = order[sel].clone();
    let b = order[j].clone();
    order.set(sel, b);
    order.set(j, a);
    Some(j)
}

/// Moving an item down and back up restores the order.
pub proof fn lemma_legend_move_undo(order: Seq<Seq<char>>, sel: int)
    requires
        0 <= sel,
        sel + 1 < order.len(),
    ensures
        ({
            let once = order.update(sel, order[sel + 1]).update(sel + 1, order[sel]);
            let back = once.update(sel + 1, once[sel]).update(sel, once[sel + 1]);
            back == order
        }),
{
    let once = order.update(sel, order[sel + 1]).update(sel + 1, order[sel]);
    let back = once.update(sel + 1, once[sel]).update(sel, once[sel + 1]);
    assert(back =~= order);
}

// ── Backup folder ───────────────────────────────────────────────────────

pub open spec fn backup_display_spec(stored: Seq<char>, desktop: Option<Seq<char>>) -> Seq<char> {
    if trimmed(stored).len() == 0 {
        match desktop {
            Some(d) => d,
            None => Seq::<char>::empty(),
        }
    } else {
        trimmed(stored)
    }
}

pub open spec fn backup_store_spec(shown: Seq<char>, is_desktop: bool) -> Seq<char> {
    if trimmed(shown).len() == 0 || is_desktop {
        Seq::<char>::empty()
    } else {
        trimmed(shown)
    }
}

pub open spec fn opt_str_seq(d: Option<&str>) -> Option<Seq<char>> {
    match d {
        Some(x) => Some(x@),
        None => None,
    }
}

/// Text shown for the stored backup folder: the stored path, or the Desktop
/// when none is stored (empty when the Desktop is unknown).
pub fn backup_folder_display(stored: &str, desktop: Option<&str>) -> (r: String)
    ensures
        r@ == backup_display_spec(stored@, opt_str_seq(desktop)),
{
    let s = trim(stored);
    if s.unicode_len() == 0 {
        match desktop {
            Some(d) => string_of(d),
            None => String::new(),
        }
    } else {
        string_of(s)
    }
}

/// Value stored for the folder typed in the field: empty for nothing or for
/// the Desktop itself (the default), otherwise the trimmed text.
/// `is_desktop`: the trimmed text names the Desktop folder.
pub fn backup_folder_store(shown: &str, is_desktop: bool) -> (r: String)
    ensures
        r@ == backup_store_spec(shown@, is_desktop),
{
    let s = trim(shown);
    if s.unicode_len() == 0 {
        return String::new();
    }
    if is_desktop {
        return String::new();
    }
    string_of(s)
}

/// A stored backup folder survives being shown and stored again, and the
/// Desktop default is stored as empty. `is_desktop` is the judgment on the
/// shown text; the Desktop folder names itself, so it holds whenever the
/// Desktop is what is shown.
pub proof fn lemma_backup_folder_round_trip(
    stored: Seq<char>,
    desktop: Option<Seq<char>>,
    is_desktop: bool,
)
    requires
        trimmed(stored).len() == 0 && desktop is Some ==> is_desktop,
    ensures
        ({
            let t = trimmed(stored);
            backup_store_spec(backup_display_spec(stored, desktop), is_desktop) == (if t.len() == 0
                || is_desktop {
                Seq::<char>::empty()
            } else {
                t
            })
        }),
{
    crate::text::lemma_trimmed_idempotent(stored);
    if trimmed(stored).len() == 0 && desktop is None {
        assert(trimmed(Seq::<char>::empty()) == Seq::<char>::empty());
    }
}

/// A backup may not go inside the config folder nor beside the exe.
pub fn backup_dest_forbidden(inside_config: bool, inside_exe_dir: bool) -> (r: bool)
    ensures
        r == (inside_config || inside_exe_dir),
{
    inside_config || inside_exe_dir
}

/// A restore may not read from the live config folder (nor from a folder
/// that contains it).
pub fn restore_source_forbidden(source_inside_config: bool, config_inside_source: bool) -> (r: bool)
    ensures
        r == (source_inside_config || config_inside_source),
{
    source_inside_config || config_inside_source
}

/// No folder is typed and the Desktop is unknown.
#[derive(Clone, Copy, Debug, PartialEq, Eq, Structural)]
pub struct NoBackupFolder;

/// The folder a backup goes into (or a restore starts from): the typed
/// folder, trimmed, or the Desktop when nothing is typed.
pub fn backup_parent(shown: &str, desktop: Option<&str>) -> (r: Result<String, NoBackupFolder>)
    ensures
        trimmed(shown@).len() != 0 ==> (r matches Ok(p) && p@ == trimmed(shown@)),
        trimmed(shown@).len() == 0 ==> match desktop {
            Some(d) => (r matches Ok(p) && p@ == d@),
            None => r == Err::<String, NoBackupFolder>(NoBackupFolder),
        },
{
    let s = trim(shown);
    if s.unicode_len() == 0 {
        match desktop {
            Some(d) => Ok(string_of(d)),
            None => Err(NoBackupFolder),
        }
    } else {
        Ok(string_of(s))
    }
}

// ── Saving ──────────────────────────────────────────────────────────────

/// Whether the slots file is written on save.
#[derive(Clone, Copy, Debug, PartialEq, Eq, Structural)]
pub enum SlotsSave {
    /// Sample or read-only selection: settings only.
    Skip,
    /// The broken file that was open: refuse, never overwrite it.
    Refuse,
    Save,
}

pub fn slots_save_plan(target_writable: bool, slots_writable: bool, target_is_path_at_open: bool) -> (r:
    SlotsSave)
    ensures
        r == (if !target_writable {
            SlotsSave::Skip
        } else if !slots_writable && target_is_path_at_open {
            SlotsSave::Refuse
        } else {
            SlotsSave::Save
        }),
{
    if !target_writable {
        SlotsSave::Skip
    } else if !slots_writable && target_is_path_at_open {
        SlotsSave::Refuse
    } else {
        SlotsSave::Save
    }
}

/// What follows a successful save.
#[derive(Clone, Copy, Debug, PartialEq, Eq, Structural)]
pub enum AfterSave {
    /// Save (OK): close the window.
    Close,
    /// Apply with a language or slot-file change: rebuild the window on the
    /// current tab.
    Reopen,
    /// Apply: tell the user it was saved.
    ShowSaved,
}

pub fn after_save(close_after: bool, locale_changed: bool, slots_file_changed: bool) -> (r:
    AfterSave)
    ensures
        r == (if close_after {
            AfterSave::Close
        } else if locale_changed || slots_file_changed {
            AfterSave::Reopen
        } else {
            AfterSave::ShowSaved
        }),
{
    if close_after {
        AfterSave::Close
    } else if locale_changed || slots_file_changed {
        AfterSave::Reopen
    } else {
        AfterSave::ShowSaved
    }
}

// ── Mode-chord overrides ────────────────────────────────────────────────

/// Pinned chord codes: code → slot file, at most one entry per code.
pub struct ChordOverrides {
    entries: Vec<(String, String)>,
}

pub open spec fn pairs_view(v: Seq<(String, String)>) -> Seq<(Seq<char>, Seq<char>)> {
    v.map_values(|e: (String, String)| (e.0@, e.1@))
}

pub open spec fn keys_unique(p: Seq<(Seq<char>, Seq<char>)>) -> bool {
    forall|a: int, b: int| 0 <= a < b < p.len() ==> p[a].0 != p[b].0
}

/// The map an association list (with distinct keys) stands for.
pub open spec fn pairs_map(p: Seq<(Seq<char>, Seq<char>)>) -> Map<Seq<char>, Seq<char>>
    decreases p.len(),
{
    if p.len() == 0 {
        Map::empty()
    } else {
        pairs_map(p.drop_last()).insert(p.last().0, p.last().1)
    }
}

/// First value for `k` in an association list (the iteration order of a map).
pub open spec fn pairs_lookup(p: Seq<(Seq<char>, Seq<char>)>, k: Seq<char>) -> Option<Seq<char>>
    decreases p.len(),
{
    if p.len() == 0 {
        None
    } else if p[0].0 == k {
        Some(p[0].1)
    } else {
        pairs_lookup(p.drop_first(), k)
    }
}

/// First code other than `code` whose file is `file`.
pub open spec fn other_code_for(
    p: Seq<(Seq<char>, Seq<char>)>,
    code: Seq<char>,
    file: Seq<char>,
) -> Option<Seq<char>>
    decreases p.len(),
{
    if p.len() == 0 {
        None
    } else if p[0].1 == file && p[0].0 != code {
        Some(p[0].0)
    } else {
        other_code_for(p.drop_first(), code, file)
    }
}

/// Pin `code` to `file`. `effective` is the current code → file assignment
/// (overrides plus automatic ones, in map order). When another code already
/// shows `file`, the two codes swap: `code` gets `file` and the other code
/// gets `code`'s previous file (if it had a different one). Otherwise every
/// override of `code` or of `file` is dropped and `code` is pinned to `file`.
pub open spec fn set_override_spec(
    keys: Map<Seq<char>, Seq<char>>,
    effective: Seq<(Seq<char>, Seq<char>)>,
    code: Seq<char>,
    file: Seq<char>,
) -> Map<Seq<char>, Seq<char>> {
    match other_code_for(effective, code, file) {
        Some(other) => {
            let base = keys.remove(code).remove(other).insert(code, file);
            match pairs_lookup(effective, code) {
                Some(prev) => if prev != file {
                    base.insert(other, prev)
                } else {
                    base
                },
                None => base,
            }
        },
        None => Map::new(
            |k: Seq<char>| keys.dom().contains(k) && k != code && keys[k] != file,
            |k: Seq<char>| keys[k],
        ).insert(code, file),
    }
}

impl ChordOverrides {
    pub closed spec fn wf(&self) -> bool {
        keys_unique(pairs_view(self.entries@))
    }

    pub closed spec fn spec_map(&self) -> Map<Seq<char>, Seq<char>> {
        pairs_map(pairs_view(self.entries@))
    }

    pub fn new() -> (r: ChordOverrides)
        ensures
            r.wf(),
            r.spec_map() == Map::<Seq<char>, Seq<char>>::empty(),
    {
        let r = ChordOverrides { entries: Vec::new() };
        assert(pairs_view(r.entries@) =~= Seq::empty());
        r
    }

    /// The pinned file of `code`.
    pub fn get(&self, code: &str) -> (r: Option<String>)
        requires
            self.wf(),
        ensures
            match r {
                Some(f) => self.spec_map().dom().contains(code@) && self.spec_map()[code@] == f@,
                None => !self.spec_map().dom().contains(code@),
            },
    {
        let ghost p = pairs_view(self.entries@);
        let mut i: usize = 0;
        while i < self.entries.len()
            invariant
                p == pairs_view(self.entries@),
                keys_unique(p),
                0 <= i <= self.entries.len(),
                forall|k: int| 0 <= k < i ==> p[k].0 != code@,
            decreases self.entries.len() - i,
        {
            assert(p[i as int] == (self.entries@[i as int].0@, self.entries@[i as int].1@));
            if str_eq(self.entries[i].0.as_str(), code) {
                let f = self.entries[i].1.clone();
                proof {
                    lemma_pairs_map_at(p, i as int);
                }
                return Some(f);
            }
            i += 1;
        }
        proof {
            lemma_pairs_map_absent(p, code@);
        }
        None
    }

    /// Drop the override of `code`.
    pub fn remove(&mut self, code: &str)
        requires
            old(self).wf(),
        ensures
            final(self).wf(),
            final(self).spec_map() == old(self).spec_map().remove(code@),
    {
        let ghost p0 = pairs_view(self.entries@);
        let mut kept: Vec<(String, String)> = Vec::new();
        let mut i: usize = 0;
        while i < self.entries.len()
            invariant
                p0 == pairs_view(self.entries@),
                keys_unique(p0),
                0 <= i <= self.entries.len(),
                keys_unique(pairs_view(kept@)),
                forall|k: int| 0 <= k < kept@.len() ==> pairs_view(kept@)[k].0 != code@,
                forall|k: int| #![trigger pairs_view(kept@)[k]] 0 <= k < kept@.len() ==> exists|m: int| 0 <= m < i && pairs_view(kept@)[k] == #[trigger] p0[m],
                pairs_map(pairs_view(kept@)) == pairs_map(p0.take(i as int)).remove(code@),
            decreases self.entries.len() - i,
        {
            proof {
                assert(p0.take(i + 1).drop_last() =~= p0.take(i as int));
                assert(p0.take(i + 1).last() == p0[i as int]);
            }
            assert(p0[i as int] == (self.entries@[i as int].0@, self.entries@[i as int].1@));
            if !str_eq(self.entries[i].0.as_str(), code) {
                let e = (self.entries[i].0.clone(), self.entries[i].1.clone());
                let ghost before = kept@;
                kept.push(e);
                proof {
                    assert(pairs_view(kept@) =~= pairs_view(before).push(p0[i as int]));
                    assert forall|a: int, b: int| 0 <= a < b < pairs_view(kept@).len() implies pairs_view(kept@)[a].0 != pairs_view(kept@)[b].0 by {
                        if b == pairs_view(kept@).len() - 1 {
                            let m = choose|m: int| 0 <= m < i && pairs_view(before)[a] == #[trigger] p0[m];
                            assert(pairs_view(kept@)[a] == p0[m]);
                        }
                    }
                    assert forall|k: int| #![trigger pairs_view(kept@)[k]] 0 <= k < pairs_view(kept@).len() implies exists|m: int| 0 <= m < i + 1 && pairs_view(kept@)[k] == #[trigger] p0[m] by {
                        if k < pairs_view(before).len() {
                            let m = choose|m: int| 0 <= m < i && pairs_view(before)[k] == #[trigger] p0[m];
                            assert(pairs_view(kept@)[k] == p0[m]);
                        } else {
                            assert(pairs_view(kept@)[k] == p0[i as int]);
                        }
                    }
                    assert(pairs_view(kept@).drop_last() =~= pairs_view(before));
                    assert(pairs_map(pairs_view(kept@)) == pairs_map(pairs_view(before)).insert(p0[i as int].0, p0[i as int].1));
                    assert(pairs_map(pairs_view(kept@)) =~= pairs_map(p0.take(i + 1)).remove(code@));
                }
            } else {
                proof {
                    assert(pairs_map(p0.take(i + 1)).remove(code@) =~= pairs_map(p0.take(i as int)).remove(code@));
                }
            }
            i += 1;
        }
        proof {
            assert(p0.take(self.entries@.len() as int) =~= p0);
        }
        self.entries = kept;
    }

    /// Pin `code` to `file` (replacing its previous override).
    pub fn insert(&mut self, code: String, file: String)
        requires
            old(self).wf(),
        ensures
            final(self).wf(),
            final(self).spec_map() == old(self).spec_map().insert(code@, file@),
    {
        self.remove(code.as_str());
        let ghost before = self.entries@;
        let ghost cv = code@;
        let ghost fv = file@;
        proof {
            lemma_pairs_map_absent(pairs_view(before), cv);
        }
        self.entries.push((code, file));
        proof {
            assert(pairs_view(self.entries@) =~= pairs_view(before).push((cv, fv)));
            assert(pairs_view(self.entries@).drop_last() =~= pairs_view(before));
            assert forall|a: int, b: int| 0 <= a < b < pairs_view(self.entries@).len() implies pairs_view(self.entries@)[a].0 != pairs_view(self.entries@)[b].0 by {
                if b == pairs_view(self.entries@).len() - 1 && pairs_view(self.entries@)[a].0 == cv {
                    lemma_pairs_map_at(pairs_view(before), a);
                }
            }
        }
    }

    /// Keep only overrides whose code is not `code` and whose file is not `file`.
    pub fn retain_other(&mut self, code: &str, file: &str)
        requires
            old(self).wf(),
        ensures
            final(self).wf(),
            final(self).spec_map() == Map::new(
                |k: Seq<char>| old(self).spec_map().dom().contains(k) && k != code@ && old(self).spec_map()[k] != file@,
                |k: Seq<char>| old(self).spec_map()[k],
            ),
    {
        let ghost p0 = pairs_view(self.entries@);
        let ghost m0 = pairs_map(p0);
        let mut kept: Vec<(String, String)> = Vec::new();
        let mut i: usize = 0;
        while i < self.entries.len()
            invariant
                p0 == pairs_view(self.entries@),
                m0 == pairs_map(p0),
                keys_unique(p0),
                0 <= i <= self.entries.len(),
                keys_unique(pairs_view(kept@)),
                forall|k: int| #![trigger pairs_view(kept@)[k]] 0 <= k < kept@.len() ==> exists|m: int| 0 <= m < i && pairs_view(kept@)[k] == #[trigger] p0[m],
                pairs_map(pairs_view(kept@)) == Map::new(
                    |k: Seq<char>| pairs_map(p0.take(i as int)).dom().contains(k) && k != code@ && pairs_map(p0.take(i as int))[k] != file@,
                    |k: Seq<char>| pairs_map(p0.take(i as int))[k],
                ),
            decreases self.entries.len() - i,
        {
            proof {
                assert(p0.take(i + 1).drop_last() =~= p0.take(i as int));
                assert(p0.take(i + 1).last() == p0[i as int]);
                lemma_pairs_map_absent(p0.take(i as int), p0[i as int].0);
            }
            assert(p0[i as int] == (self.entries@[i as int].0@, self.entries@[i as int].1@));
            let drop = str_eq(self.entries[i].0.as_str(), code) || str_eq(self.entries[i].1.as_str(), file);
            if !drop {
                let e = (self.entries[i].0.clone(), self.entries[i].1.clone());
                let ghost before = kept@;
                kept.push(e);
                proof {
                    assert(pairs_view(kept@) =~= pairs_view(before).push(p0[i as int]));
                    assert(pairs_view(kept@).drop_last() =~= pairs_view(before));
                    assert forall|a: int, b: int| 0 <= a < b < pairs_view(kept@).len() implies pairs_view(kept@)[a].0 != pairs_view(kept@)[b].0 by {
                        if b == pairs_view(kept@).len() - 1 {
                            let m = choose|m: int| 0 <= m < i && pairs_view(before)[a] == #[trigger] p0[m];
                            assert(pairs_view(kept@)[a] == p0[m]);
                        }
                    }
                    assert forall|k: int| #![trigger pairs_view(kept@)[k]] 0 <= k < pairs_view(kept@).len() implies exists|m: int| 0 <= m < i + 1 && pairs_view(kept@)[k] == #[trigger] p0[m] by {
                        if k < pairs_view(before).len() {
                            let m = choose|m: int| 0 <= m < i && pairs_view(before)[k] == #[trigger] p0[m];
                            assert(pairs_view(kept@)[k] == p0[m]);
                        } else {
                            assert(pairs_view(kept@)[k] == p0[i as int]);
                        }
                    }
                    assert(pairs_map(pairs_view(kept@)) =~= Map::new(
                        |k: Seq<char>| pairs_map(p0.take(i + 1)).dom().contains(k) && k != code@ && pairs_map(p0.take(i + 1))[k] != file@,
                        |k: Seq<char>| pairs_map(p0.take(i + 1))[k],
                    ));
                }
            } else {
                proof {
                    assert(pairs_map(pairs_view(kept@)) =~= Map::new(
                        |k: Seq<char>| pairs_map(p0.take(i + 1)).dom().contains(k) && k != code@ && pairs_map(p0.take(i + 1))[k] != file@,
                        |k: Seq<char>| pairs_map(p0.take(i + 1))[k],
                    ));
                }
            }
            i += 1;
        }
        proof {
            assert(p0.take(self.entries@.len() as int) =~= p0);
        }
        self.entries = kept;
    }
}

proof fn lemma_pairs_map_at(p: Seq<(Seq<char>, Seq<char>)>, i: int)
    requires
        keys_unique(p),
        0 <= i < p.len(),
    ensures
        pairs_map(p).dom().contains(p[i].0),
        pairs_map(p)[p[i].0] == p[i].1,
    decreases p.len(),
{
    if i < p.len() - 1 {
        lemma_pairs_map_at(p.drop_last(), i);
        assert(p.drop_last()[i] == p[i]);
        assert(p.last().0 != p[i].0);
    }
}

proof fn lemma_pairs_map_absent(p: Seq<(Seq<char>, Seq<char>)>, k: Seq<char>)
    ensures
        (forall|j: int| 0 <= j < p.len() ==> p[j].0 != k) <==> !pairs_map(p).dom().contains(k),
    decreases p.len(),
{
    if p.len() > 0 {
        lemma_pairs_map_absent(p.drop_last(), k);
        if forall|j: int| 0 <= j < p.len() ==> p[j].0 != k {
            assert forall|j: int| 0 <= j < p.drop_last().len() implies p.drop_last()[j].0 != k by {
                assert(p.drop_last()[j] == p[j]);
            }
        } else {
            let j = choose|j: int| 0 <= j < p.len() && p[j].0 == k;
            if j < p.len() - 1 {
                assert(p.drop_last()[j] == p[j]);
            }
        }
    }
}

pub open spec fn effective_view(e: Seq<(String, String)>) -> Seq<(Seq<char>, Seq<char>)> {
    pairs_view(e)
}

fn find_other_code(effective: &Vec<(String, String)>, code: &str, file: &str) -> (r: Option<String>)
    ensures
        opt_view(r) == other_code_for(pairs_view(effective@), code@, file@),
{
    let ghost p = pairs_view(effective@);
    let mut i: usize = 0;
    assert(p.subrange(0, p.len() as int) =~= p);
    while i < effective.len()
        invariant
            p == pairs_view(effective@),
            0 <= i <= effective.len(),
            other_code_for(p, code@, file@) == other_code_for(p.subrange(i as int, p.len() as int), code@, file@),
        decreases effective.len() - i,
    {
        let ghost rest = p.subrange(i as int, p.len() as int);
        assert(rest[0] == (effective@[i as int].0@, effective@[i as int].1@));
        if str_eq(effective[i].1.as_str(), file) && !str_eq(effective[i].0.as_str(), code) {
            let c = effective[i].0.clone();
            return Some(c);
        }
        assert(rest.drop_first() =~= p.subrange(i + 1, p.len() as int));
        i += 1;
    }
    None
}

fn find_code(effective: &Vec<(String, String)>, code: &str) -> (r: Option<String>)
    ensures
        opt_view(r) == pairs_lookup(pairs_view(effective@), code@),
{
    let ghost p = pairs_view(effective@);
    let mut i: usize = 0;
    assert(p.subrange(0, p.len() as int) =~= p);
    while i < effective.len()
        invariant
            p == pairs_view(effective@),
            0 <= i <= effective.len(),
            pairs_lookup(p, code@) == pairs_lookup(p.subrange(i as int, p.len() as int), code@),
        decreases effective.len() - i,
    {
        let ghost rest = p.subrange(i as int, p.len() as int);
        assert(rest[0] == (effective@[i as int].0@, effective@[i as int].1@));
        if str_eq(effective[i].0.as_str(), code) {
            let f = effective[i].1.clone();
            return Some(f);
        }
        assert(rest.drop_first() =~= p.subrange(i + 1, p.len() as int));
        i += 1;
    }
    None
}

/// Pin `code` to `file`; returns the code that was swapped with it, if any.
pub fn set_mode_override(
    keys: &mut ChordOverrides,
    effective: &Vec<(String, String)>,
    code: &str,
    file: &str,
) -> (r: Option<String>)
    requires
        old(keys).wf(),
    ensures
        final(keys).wf(),
        final(keys).spec_map() == set_override_spec(
            old(keys).spec_map(),
            pairs_view(effective@),
            code@,
            file@,
        ),
        opt_view(r) == other_code_for(pairs_view(effective@), code@, file@),
{
    let previous = find_code(effective, code);
    let other = find_other_code(effective, code, file);
    match &other {
        Some(o) => {
            keys.remove(code);
            keys.remove(o.as_str());
            keys.insert(string_of(code), string_of(file));
            if let Some(prev) = previous {
                if !str_eq(prev.as_str(), file) {
                    keys.insert(o.clone(), prev);
                }
            }
        },
        None => {
            keys.retain_other(code, file);
            keys.insert(string_of(code), string_of(file));
        },
    }
    other
}

/// After pinning, the code opens the chosen file.
pub proof fn lemma_set_override_pins(
    keys: Map<Seq<char>, Seq<char>>,
    effective: Seq<(Seq<char>, Seq<char>)>,
    code: Seq<char>,
    file: Seq<char>,
)
    ensures
        set_override_spec(keys, effective, code, file).dom().contains(code),
        set_override_spec(keys, effective, code, file)[code] == file,
{
    match other_code_for(effective, code, file) {
        Some(other) => {
            lemma_other_code_differs(effective, code, file);
        },
        None => {},
    }
}

proof fn lemma_other_code_differs(p: Seq<(Seq<char>, Seq<char>)>, code: Seq<char>, file: Seq<char>)
    ensures
        other_code_for(p, code, file) matches Some(o) ==> o != code,
    decreases p.len(),
{
    if p.len() > 0 {
        lemma_other_code_differs(p.drop_first(), code, file);
    }
}

/// Unpin `code` (it reverts to automatic assignment).
pub fn clear_mode_override(keys: &mut ChordOverrides, code: &str)
    requires
        old(keys).wf(),
    ensures
        final(keys).wf(),
        final(keys).spec_map() == old(keys).spec_map().remove(code@),
{
    keys.remove(code);
}

/// A mode-chord list row: the code alone when no book is assigned, else
/// code, book file name and the book's display name, tab-separated.
pub open spec fn chord_row_spec(code: Seq<char>, file: Option<Seq<char>>, display: Seq<char>) -> Seq<char> {
    match file {
        Some(f) => if f.len() == 0 {
            code
        } else {
            code + seq!['\t'] + f + seq!['\t'] + display
        },
        None => code,
    }
}

pub fn mode_chord_row_text(code: &str, file: Option<&str>, display: &str) -> (r: String)
    ensures
        r@ == chord_row_spec(
            code@,
            match file {
                Some(f) => Some(f@),
                None => None,
            },
            display@,
        ),
{
    let mut out = string_of(code);
    match file {
        Some(f) => {
            if !f.is_empty() {
                crate::text::push_char(&mut out, '\t');
                crate::text::push_str(&mut out, f);
                crate::text::push_char(&mut out, '\t');
                crate::text::push_str(&mut out, display);
            }
        },
        None => {},
    }
    out
}

/// Row selected in the chord list: the row to restore (when it is a real
/// row index), else the row of the current book.
pub fn chord_list_selection(restore: Option<i32>, current_idx: i32) -> (r: i32)
    ensures
        r == (match restore {
            Some(v) => if v >= 0 {
                v
            } else {
                current_idx
            },
            None => current_idx,
        }),
{
    match restore {
        Some(v) => if v >= 0 {
            v
        } else {
            current_idx
        },
        None => current_idx,
    }
}

} // verus!
