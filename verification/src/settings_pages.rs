//! Layout of the Settings window's Slots, Search, Triggers and Mode tabs.

use vstd::prelude::*;

use crate::settings_general::{imax, imin, placed, Placed, FIELD_BLOCK_GAP, LABEL_STACK_GAP, LAYOUT_INPUT_MAX};
use crate::settings_layout::{slots_form_stack_h, slots_form_stack_spec, SLOTS_DESC_H_DEFAULT, SLOTS_WARN_H};

verus! {

pub const SLOTS_MARGIN: i32 = 12;
pub const SLOTS_LIST_W: i32 = 260;
pub const SLOTS_LIST_FORM_GAP: i32 = 20;
pub const SLOTS_ID_COL_W: i32 = 120;
pub const SLOTS_DESC_H_MIN: i32 = 48;
pub const SLOTS_DESC_H_MAX: i32 = 160;
pub const SLOTS_WARN_H_SHORT: i32 = 28;
pub const FORM_LABEL_H: i32 = 26;
pub const FORM_EDIT_H: i32 = 24;
pub const FORM_CHECK_H: i32 = 22;

/// The Slots tab: the slot list on the left, the form on the right.
#[derive(Clone, Copy, Debug, PartialEq, Eq, Structural)]
pub struct SlotsPageLayout {
    pub current_label: Placed,
    pub list: Placed,
    pub id_label: Placed,
    pub name_label: Placed,
    pub id_edit: Placed,
    pub name_edit: Placed,
    pub path_label: Placed,
    pub path_edit: Placed,
    pub workdir_label: Placed,
    pub workdir_edit: Placed,
    pub open_workdir_check: Placed,
    pub focus_existing_check: Placed,
    pub instant_check: Placed,
    pub desc_label: Placed,
    pub desc_edit: Placed,
    pub warn: Placed,
    /// Preferred height (with the default description height).
    pub height: i32,
}

/// Top of the form's id / name labels (under the "current book" line).
pub open spec fn form_top() -> int {
    SLOTS_MARGIN + FORM_LABEL_H + LABEL_STACK_GAP
}

/// Top of the description label: after id/name, path, workdir and the three
/// check boxes.
pub open spec fn desc_top() -> int {
    form_top() + 3 * (FORM_LABEL_H + LABEL_STACK_GAP + FORM_EDIT_H + FIELD_BLOCK_GAP) + 3 * (
    FORM_CHECK_H + FIELD_BLOCK_GAP)
}

/// The warning strip keeps its full height unless the description would
/// then get less than its minimum.
pub open spec fn warn_h_spec(panel_h: i32) -> int {
    if panel_h - desc_top() - FORM_LABEL_H - LABEL_STACK_GAP - (SLOTS_WARN_H + SLOTS_MARGIN) < SLOTS_DESC_H_MIN {
        SLOTS_WARN_H_SHORT as int
    } else {
        SLOTS_WARN_H as int
    }
}

/// The description takes the free height, between its minimum and maximum.
pub open spec fn desc_h_spec(panel_h: i32) -> int {
    let budget = panel_h - desc_top() - FORM_LABEL_H - LABEL_STACK_GAP - (warn_h_spec(panel_h) + SLOTS_MARGIN);
    if budget < SLOTS_DESC_H_MIN {
        SLOTS_DESC_H_MIN as int
    } else if budget > SLOTS_DESC_H_MAX {
        SLOTS_DESC_H_MAX as int
    } else {
        budget
    }
}

pub open spec fn slots_page_spec(panel_w: i32, panel_h: i32) -> SlotsPageLayout {
    let m = SLOTS_MARGIN as int;
    let list_w = imin(SLOTS_LIST_W as int, imax(panel_w / 3, 200));
    let form_x = m + list_w + SLOTS_LIST_FORM_GAP;
    let form_w = imax(panel_w - form_x - m, 200);
    let id_w = imax(imin(SLOTS_ID_COL_W as int, form_w / 3), 72);
    let name_x = form_x + id_w + 12;
    let name_w = imax(form_w - id_w - 12, 120);
    let y0 = form_top();
    let y1 = y0 + FORM_LABEL_H + LABEL_STACK_GAP;
    let y2 = y1 + FORM_EDIT_H + FIELD_BLOCK_GAP;
    let y3 = y2 + FORM_LABEL_H + LABEL_STACK_GAP;
    let y4 = y3 + FORM_EDIT_H + FIELD_BLOCK_GAP;
    let y5 = y4 + FORM_LABEL_H + LABEL_STACK_GAP;
    let y6 = y5 + FORM_EDIT_H + FIELD_BLOCK_GAP;
    let y7 = y6 + FORM_CHECK_H + FIELD_BLOCK_GAP;
    let y8 = y7 + FORM_CHECK_H + FIELD_BLOCK_GAP;
    let y9 = y8 + FORM_CHECK_H + FIELD_BLOCK_GAP;
    let y10 = y9 + FORM_LABEL_H + LABEL_STACK_GAP;
    let y11 = y10 + desc_h_spec(panel_h) + FIELD_BLOCK_GAP;
    let y12 = y11 + warn_h_spec(panel_h);
    SlotsPageLayout {
        current_label: placed(m, m, imax(panel_w - 2 * m, 120), FORM_LABEL_H as int),
        list: placed(m, y0, list_w, imax(y12 - y0, 60)),
        id_label: placed(form_x, y0, id_w, FORM_LABEL_H as int),
        name_label: placed(name_x, y0, name_w, FORM_LABEL_H as int),
        id_edit: placed(form_x, y1, imin(id_w, 100), FORM_EDIT_H as int),
        name_edit: placed(name_x, y1, name_w, FORM_EDIT_H as int),
        path_label: placed(form_x, y2, form_w, FORM_LABEL_H as int),
        path_edit: placed(form_x, y3, form_w, FORM_EDIT_H as int),
        workdir_label: placed(form_x, y4, form_w, FORM_LABEL_H as int),
        workdir_edit: placed(form_x, y5, form_w, FORM_EDIT_H as int),
        open_workdir_check: placed(form_x, y6, form_w, FORM_CHECK_H as int),
        focus_existing_check: placed(form_x, y7, form_w, FORM_CHECK_H as int),
        instant_check: placed(form_x, y8, form_w, FORM_CHECK_H as int),
        desc_label: placed(form_x, y9, form_w, FORM_LABEL_H as int),
        desc_edit: placed(form_x, y10, form_w, desc_h_spec(panel_h)),
        warn: placed(form_x, y11, form_w, warn_h_spec(panel_h)),
        height: (y0 + slots_form_stack_spec(SLOTS_DESC_H_DEFAULT, SLOTS_WARN_H) + m) as i32,
    }
}

fn max_i32(a: i32, b: i32) -> (r: i32)
    ensures
        r == imax(a as int, b as int),
{
    if a >= b {
        a
    } else {
        b
    }
}

fn min_i32(a: i32, b: i32) -> (r: i32)
    ensures
        r == imin(a as int, b as int),
{
    if a <= b {
        a
    } else {
        b
    }
}

/// Lay out the Slots tab in a panel of `panel_w` × `panel_h` (`None` when
/// the panel has no area yet).
pub fn slots_page_layout(panel_w: i32, panel_h: i32) -> (r: Option<SlotsPageLayout>)
    requires
        panel_w <= LAYOUT_INPUT_MAX,
        panel_h <= LAYOUT_INPUT_MAX,
    ensures
        r == (if panel_w <= 0 || panel_h <= 0 {
            None
        } else {
            Some(slots_page_spec(panel_w, panel_h))
        }),
{
    if panel_w <= 0 || panel_h <= 0 {
        return None;
    }
    let m = SLOTS_MARGIN;
    let list_w = min_i32(SLOTS_LIST_W, max_i32(panel_w / 3, 200));
    let form_x = m + list_w + SLOTS_LIST_FORM_GAP;
    let form_w = max_i32(panel_w - form_x - m, 200);
    let id_w = max_i32(min_i32(SLOTS_ID_COL_W, form_w / 3), 72);
    let name_x = form_x + id_w + 12;
    let name_w = max_i32(form_w - id_w - 12, 120);
    let current_label = Placed { x: m, y: m, w: max_i32(panel_w - m * 2, 120), h: FORM_LABEL_H };
    let list_top = m + FORM_LABEL_H + LABEL_STACK_GAP;
    let mut fy = list_top;
    let id_label = Placed { x: form_x, y: fy, w: id_w, h: FORM_LABEL_H };
    let name_label = Placed { x: name_x, y: fy, w: name_w, h: FORM_LABEL_H };
    fy = fy + FORM_LABEL_H + LABEL_STACK_GAP;
    let id_edit = Placed { x: form_x, y: fy, w: min_i32(id_w, 100), h: FORM_EDIT_H };
    let name_edit = Placed { x: name_x, y: fy, w: name_w, h: FORM_EDIT_H };
    fy = fy + FORM_EDIT_H + FIELD_BLOCK_GAP;
    let path_label = Placed { x: form_x, y: fy, w: form_w, h: FORM_LABEL_H };
    fy = fy + FORM_LABEL_H + LABEL_STACK_GAP;
    let path_edit = Placed { x: form_x, y: fy, w: form_w, h: FORM_EDIT_H };
    fy = fy + FORM_EDIT_H + FIELD_BLOCK_GAP;
    let workdir_label = Placed { x: form_x, y: fy, w: form_w, h: FORM_LABEL_H };
    fy = fy + FORM_LABEL_H + LABEL_STACK_GAP;
    let workdir_edit = Placed { x: form_x, y: fy, w: form_w, h: FORM_EDIT_H };
    fy = fy + FORM_EDIT_H + FIELD_BLOCK_GAP;
    let open_workdir_check = Placed { x: form_x, y: fy, w: form_w, h: FORM_CHECK_H };
    fy = fy + FORM_CHECK_H + FIELD_BLOCK_GAP;
    let focus_existing_check = Placed { x: form_x, y: fy, w: form_w, h: FORM_CHECK_H };
    fy = fy + FORM_CHECK_H + FIELD_BLOCK_GAP;
    let instant_check = Placed { x: form_x, y: fy, w: form_w, h: FORM_CHECK_H };
    fy = fy + FORM_CHECK_H + FIELD_BLOCK_GAP;
    let mut warn_h = SLOTS_WARN_H;
    let mut after = warn_h + m;
    let mut budget = panel_h - fy - FORM_LABEL_H - LABEL_STACK_GAP - after;
    if budget < SLOTS_DESC_H_MIN {
        warn_h = SLOTS_WARN_H_SHORT;
        after = warn_h + m;
        budget = panel_h - fy - FORM_LABEL_H - LABEL_STACK_GAP - after;
    }
    let desc_h = if budget < SLOTS_DESC_H_MIN {
        SLOTS_DESC_H_MIN
    } else if budget > SLOTS_DESC_H_MAX {
        SLOTS_DESC_H_MAX
    } else {
        budget
    };
    let desc_label = Placed { x: form_x, y: fy, w: form_w, h: FORM_LABEL_H };
    fy = fy + FORM_LABEL_H + LABEL_STACK_GAP;
    let desc_edit = Placed { x: form_x, y: fy, w: form_w, h: desc_h };
    fy = fy + desc_h + FIELD_BLOCK_GAP;
    let warn = Placed { x: form_x, y: fy, w: form_w, h: warn_h };
    fy = fy + warn_h;
    let list = Placed { x: m, y: list_top, w: list_w, h: max_i32(fy - list_top, 60) };
    let height = list_top + slots_form_stack_h(SLOTS_DESC_H_DEFAULT, SLOTS_WARN_H) + m;
    Some(
        SlotsPageLayout {
            current_label,
            list,
            id_label,
            name_label,
            id_edit,
            name_edit,
            path_label,
            path_edit,
            workdir_label,
            workdir_edit,
            open_workdir_check,
            focus_existing_check,
            instant_check,
            desc_label,
            desc_edit,
            warn,
            height,
        },
    )
}

/// The list reaches down to the warning strip's bottom, and the description
/// keeps within its bounds.
pub proof fn lemma_slots_page_shape(panel_w: i32, panel_h: i32)
    requires
        0 < panel_w <= LAYOUT_INPUT_MAX,
        0 < panel_h <= LAYOUT_INPUT_MAX,
    ensures
        ({
            let l = slots_page_spec(panel_w, panel_h);
            &&& l.list.y + l.list.h >= l.warn.y + l.warn.h
            &&& SLOTS_DESC_H_MIN <= l.desc_edit.h <= SLOTS_DESC_H_MAX
            &&& l.list.x + l.list.w < l.id_label.x
        }),
{
}

/// The Search tab: match mode label and combo, the case check box, in a group.
#[derive(Clone, Copy, Debug, PartialEq, Eq, Structural)]
pub struct SearchPageLayout {
    pub match_label: Placed,
    pub mode_combo: Placed,
    pub case_check: Placed,
    pub group: Placed,
    pub height: i32,
}

pub open spec fn search_page_spec(panel_w: i32, case_text_w: i32) -> SearchPageLayout {
    let content_w = imax(panel_w - 24, 200);
    let inner = imax(content_w - 32, 160);
    let case_h: int = if case_text_w + 28 > inner {
        36
    } else {
        22
    };
    let y_end = 6 + 28 + 26 + LABEL_STACK_GAP + 28 + FIELD_BLOCK_GAP + case_h + 18;
    SearchPageLayout {
        match_label: placed(28, 34, inner, 26),
        mode_combo: placed(28, 34 + 26 + LABEL_STACK_GAP, imin(160, inner), 200),
        case_check: placed(28, 34 + 26 + LABEL_STACK_GAP + 28 + FIELD_BLOCK_GAP, inner, case_h),
        group: placed(12, 6, content_w, imax(y_end - 6, 80)),
        height: y_end as i32,
    }
}

/// Lay out the Search tab (`None`: no panel area or no group box yet).
pub fn search_page_layout(panel_w: i32, panel_h: i32, has_group: bool, case_text_w: i32) -> (r: Option<
    SearchPageLayout,
>)
    requires
        panel_w <= LAYOUT_INPUT_MAX,
        0 <= case_text_w <= LAYOUT_INPUT_MAX,
    ensures
        r == (if panel_w <= 0 || panel_h <= 0 || !has_group {
            None
        } else {
            Some(search_page_spec(panel_w, case_text_w))
        }),
{
    if panel_w <= 0 || panel_h <= 0 || !has_group {
        return None;
    }
    let content_w = max_i32(panel_w - 24, 200);
    let inner = max_i32(content_w - 32, 160);
    let mut oy: i32 = 6 + 28;
    let match_label = Placed { x: 28, y: oy, w: inner, h: 26 };
    oy = oy + 26 + LABEL_STACK_GAP;
    let mode_combo = Placed { x: 28, y: oy, w: min_i32(160, inner), h: 200 };
    oy = oy + 28 + FIELD_BLOCK_GAP;
    let case_h: i32 = if case_text_w + 28 > inner {
        36
    } else {
        22
    };
    let case_check = Placed { x: 28, y: oy, w: inner, h: case_h };
    oy = oy + case_h + 18;
    let group = Placed { x: 12, y: 6, w: content_w, h: max_i32(oy - 6, 80) };
    Some(SearchPageLayout { match_label, mode_combo, case_check, group, height: oy })
}

/// Measured widths for the Triggers tab.
#[derive(Clone, Copy, Debug, PartialEq, Eq, Structural)]
pub struct TriggersWidths {
    /// The mouse Capture button (fitted to its caption).
    pub capture_btn: i32,
    /// Caption text of the leader-button suppress box.
    pub mode_suppress_text: i32,
    /// Caption texts of the numpad and keyboard key-set letter labels.
    pub numpad_label_text: i32,
    pub keyboard_label_text: i32,
    /// Caption text of the launch-button suppress box.
    pub suppress_text: i32,
    /// The reset button (fitted to its caption).
    pub reset_btn: i32,
}

/// The Triggers tab: the mode-switch group above the launch-trigger group.
#[derive(Clone, Copy, Debug, PartialEq, Eq, Structural)]
pub struct TriggersPageLayout {
    pub mode_mouse_label: Placed,
    pub mode_mouse_combo: Placed,
    pub mode_suppress_check: Placed,
    pub mode_timeout_label: Placed,
    pub mode_timeout_edit: Placed,
    pub numpad_letter_label: Placed,
    pub numpad_letter_combo: Placed,
    pub keyboard_letter_label: Placed,
    pub keyboard_letter_combo: Placed,
    pub switch_group: Placed,
    pub mouse_label: Placed,
    pub mouse_combo: Placed,
    pub mouse_capture: Placed,
    pub suppress_check: Placed,
    pub hotkey_label: Placed,
    pub hotkey_edit: Placed,
    pub hotkey_hint: Placed,
    pub reset: Placed,
    pub status: Placed,
    pub triggers_group: Placed,
    pub height: i32,
}

pub open spec fn triggers_widths_ok(panel_w: i32, w: TriggersWidths) -> bool {
    &&& panel_w <= LAYOUT_INPUT_MAX
    &&& 0 <= w.capture_btn <= LAYOUT_INPUT_MAX
    &&& 0 <= w.mode_suppress_text <= LAYOUT_INPUT_MAX
    &&& 0 <= w.numpad_label_text <= LAYOUT_INPUT_MAX
    &&& 0 <= w.keyboard_label_text <= LAYOUT_INPUT_MAX
    &&& 0 <= w.suppress_text <= LAYOUT_INPUT_MAX
    &&& 0 <= w.reset_btn <= LAYOUT_INPUT_MAX
}

/// A check box is two lines high when its caption does not fit on one.
pub open spec fn check_h(text_w: i32, inner: int) -> int {
    if text_w + 28 > inner {
        36
    } else {
        22
    }
}

pub open spec fn triggers_page_spec(panel_w: i32, w: TriggersWidths) -> TriggersPageLayout {
    let content_w = imax(panel_w - 24, 200);
    let inner = imax(content_w - 32, 160);
    let x = 28int;
    let s0 = 6int;
    let a1 = s0 + 28;
    let a2 = a1 + 26 + LABEL_STACK_GAP;
    let a3 = a2 + 28 + FIELD_BLOCK_GAP;
    let msh = check_h(w.mode_suppress_text, inner);
    let a4 = a3 + msh + FIELD_BLOCK_GAP;
    let a5 = a4 + 26 + LABEL_STACK_GAP;
    let a6 = a5 + 24 + FIELD_BLOCK_GAP;
    let num_w = imax(w.numpad_label_text as int, 48) + 12;
    let kb_w = imax(w.keyboard_label_text as int, 48) + 12;
    let kb_x = x + num_w + 12 + 56 + 32;
    let s_end = a6 + 28 + 14;
    let trig_top = s_end + 8;
    let b1 = trig_top + 28;
    let b2 = b1 + 26 + LABEL_STACK_GAP;
    let mcw = imin(120, inner / 2);
    let b3 = b2 + 24 + FIELD_BLOCK_GAP;
    let sh = check_h(w.suppress_text, inner);
    let b4 = b3 + sh + FIELD_BLOCK_GAP;
    let b5 = b4 + 26 + LABEL_STACK_GAP;
    let b6 = b5 + 24 + LABEL_STACK_GAP;
    let b7 = b6 + 26 + FIELD_BLOCK_GAP;
    let b8 = b7 + 26 + LABEL_STACK_GAP;
    let b9 = b8 + 26 + FIELD_BLOCK_GAP;
    TriggersPageLayout {
        mode_mouse_label: placed(x, a1, inner, 26),
        mode_mouse_combo: placed(x, a2, imin(120, inner), 200),
        mode_suppress_check: placed(x, a3, inner, msh),
        mode_timeout_label: placed(x, a4, inner, 26),
        mode_timeout_edit: placed(x, a5, 80, 24),
        numpad_letter_label: placed(x, a6, num_w, 26),
        numpad_letter_combo: placed(x + num_w + 12, a6, 56, 200),
        keyboard_letter_label: placed(kb_x, a6, kb_w, 26),
        keyboard_letter_combo: placed(kb_x + kb_w + 12, a6, 56, 200),
        switch_group: placed(12, s0, content_w, imax(s_end - s0, 80)),
        mouse_label: placed(x, b1, inner, 26),
        mouse_combo: placed(x, b2, mcw, 200),
        mouse_capture: placed(x + mcw + 8, b2, w.capture_btn as int, 24),
        suppress_check: placed(x, b3, inner, sh),
        hotkey_label: placed(x, b4, inner, 26),
        hotkey_edit: placed(x, b5, imin(220, inner), 24),
        hotkey_hint: placed(x, b6, inner, 26),
        reset: placed(x, b7, w.reset_btn as int, 26),
        status: placed(x, b8, inner, 26),
        triggers_group: placed(12, trig_top, content_w, imax(b9 - trig_top, 100)),
        height: b9 as i32,
    }
}

/// Lay out the Triggers tab (`None`: no panel area or a group box missing).
pub fn triggers_page_layout(panel_w: i32, panel_h: i32, has_groups: bool, w: TriggersWidths) -> (r:
    Option<TriggersPageLayout>)
    requires
        triggers_widths_ok(panel_w, w),
    ensures
        r == (if panel_w <= 0 || panel_h <= 0 || !has_groups {
            None
        } else {
            Some(triggers_page_spec(panel_w, w))
        }),
{
    if panel_w <= 0 || panel_h <= 0 || !has_groups {
        return None;
    }
    let content_w = max_i32(panel_w - 24, 200);
    let inner = max_i32(content_w - 32, 160);
    let x: i32 = 28;
    let s0: i32 = 6;
    let mut oy = s0 + 28;
    let mode_mouse_label = Placed { x, y: oy, w: inner, h: 26 };
    oy = oy + 26 + LABEL_STACK_GAP;
    let mode_mouse_combo = Placed { x, y: oy, w: min_i32(120, inner), h: 200 };
    oy = oy + 28 + FIELD_BLOCK_GAP;
    let msh: i32 = if w.mode_suppress_text + 28 > inner {
        36
    } else {
        22
    };
    let mode_suppress_check = Placed { x, y: oy, w: inner, h: msh };
    oy = oy + msh + FIELD_BLOCK_GAP;
    let mode_timeout_label = Placed { x, y: oy, w: inner, h: 26 };
    oy = oy + 26 + LABEL_STACK_GAP;
    let mode_timeout_edit = Placed { x, y: oy, w: 80, h: 24 };
    oy = oy + 24 + FIELD_BLOCK_GAP;
    let num_w = max_i32(w.numpad_label_text, 48) + 12;
    let kb_w = max_i32(w.keyboard_label_text, 48) + 12;
    let numpad_letter_label = Placed { x, y: oy, w: num_w, h: 26 };
    let numpad_letter_combo = Placed { x: x + num_w + 12, y: oy, w: 56, h: 200 };
    let kb_x = x + num_w + 12 + 56 + 32;
    let keyboard_letter_label = Placed { x: kb_x, y: oy, w: kb_w, h: 26 };
    let keyboard_letter_combo = Placed { x: kb_x + kb_w + 12, y: oy, w: 56, h: 200 };
    oy = oy + 28 + 14;
    let switch_group = Placed { x: 12, y: s0, w: content_w, h: max_i32(oy - s0, 80) };
    let trig_top = oy + 8;
    let mut ky = trig_top + 28;
    let mouse_label = Placed { x, y: ky, w: inner, h: 26 };
    ky = ky + 26 + LABEL_STACK_GAP;
    let mcw = min_i32(120, inner / 2);
    let mouse_combo = Placed { x, y: ky, w: mcw, h: 200 };
    let mouse_capture = Placed { x: x + mcw + 8, y: ky, w: w.capture_btn, h: 24 };
    ky = ky + 24 + FIELD_BLOCK_GAP;
    let sh: i32 = if w.suppress_text + 28 > inner {
        36
    } else {
        22
    };
    let suppress_check = Placed { x, y: ky, w: inner, h: sh };
    ky = ky + sh + FIELD_BLOCK_GAP;
    let hotkey_label = Placed { x, y: ky, w: inner, h: 26 };
    ky = ky + 26 + LABEL_STACK_GAP;
    let hotkey_edit = Placed { x, y: ky, w: min_i32(220, inner), h: 24 };
    ky = ky + 24 + LABEL_STACK_GAP;
    let hotkey_hint = Placed { x, y: ky, w: inner, h: 26 };
    ky = ky + 26 + FIELD_BLOCK_GAP;
    let reset = Placed { x, y: ky, w: w.reset_btn, h: 26 };
    ky = ky + 26 + LABEL_STACK_GAP;
    let status = Placed { x, y: ky, w: inner, h: 26 };
    ky = ky + 26 + FIELD_BLOCK_GAP;
    let triggers_group = Placed { x: 12, y: trig_top, w: content_w, h: max_i32(ky - trig_top, 100) };
    Some(
        TriggersPageLayout {
            mode_mouse_label,
            mode_mouse_combo,
            mode_suppress_check,
            mode_timeout_label,
            mode_timeout_edit,
            numpad_letter_label,
            numpad_letter_combo,
            keyboard_letter_label,
            keyboard_letter_combo,
            switch_group,
            mouse_label,
            mouse_combo,
            mouse_capture,
            suppress_check,
            hotkey_label,
            hotkey_edit,
            hotkey_hint,
            reset,
            status,
            triggers_group,
            height: ky,
        },
    )
}

/// The launch-trigger group starts below the mode-switch group, and the
/// two letter pickers do not overlap.
pub proof fn lemma_triggers_groups_stacked(panel_w: i32, w: TriggersWidths)
    requires
        0 < panel_w,
        triggers_widths_ok(panel_w, w),
    ensures
        ({
            let l = triggers_page_spec(panel_w, w);
            &&& l.switch_group.y + l.switch_group.h < l.triggers_group.y
            &&& l.numpad_letter_combo.x + l.numpad_letter_combo.w < l.keyboard_letter_label.x
            &&& l.triggers_group.y + l.triggers_group.h >= l.status.y + l.status.h
        }),
{
}

/// Rows shown by the mode-chord list (codes 0 to 9).
pub const MODE_CHORD_ROWS: i32 = 10;

/// Measured widths for the Mode tab.
#[derive(Clone, Copy, Debug, PartialEq, Eq, Structural)]
pub struct ModeWidths {
    /// Text widths of the "current book" and "file" labels.
    pub current_label_text: i32,
    pub file_label_text: i32,
    /// The Set and Clear buttons (fitted to their captions).
    pub set_btn: i32,
    pub clear_btn: i32,
    /// The chord list's row height as the list box reports it.
    pub list_item_h: i32,
}

/// The Mode tab: current book, hint, the chord list with its file picker
/// and Set / Clear on the header row, and a status line.
#[derive(Clone, Copy, Debug, PartialEq, Eq, Structural)]
pub struct ModePageLayout {
    pub current_label: Placed,
    pub current_combo: Placed,
    pub hint: Placed,
    pub chords_label: Placed,
    pub file_label: Placed,
    pub file_combo: Placed,
    pub set_btn: Placed,
    pub clear_btn: Placed,
    pub chord_list: Placed,
    pub status: Placed,
    pub group: Placed,
    pub height: i32,
}

pub open spec fn mode_widths_ok(panel_w: i32, w: ModeWidths) -> bool {
    &&& panel_w <= LAYOUT_INPUT_MAX
    &&& 0 <= w.current_label_text <= LAYOUT_INPUT_MAX / 8
    &&& 0 <= w.file_label_text <= LAYOUT_INPUT_MAX / 8
    &&& 0 <= w.set_btn <= LAYOUT_INPUT_MAX / 8
    &&& 0 <= w.clear_btn <= LAYOUT_INPUT_MAX / 8
    &&& w.list_item_h <= 1_000_000
}

pub open spec fn mode_page_spec(panel_w: i32, w: ModeWidths) -> ModePageLayout {
    let content_w = imax(panel_w - 24, 200);
    let inner = imax(content_w - 32, 160);
    let x = 28int;
    let top = 6int;
    let y1 = top + 28;
    let cur_w = imax(w.current_label_text as int, 72) + 8;
    let y2 = y1 + 28 + FIELD_BLOCK_GAP;
    let y3 = y2 + 36 + FIELD_BLOCK_GAP;
    let file_w = imax(w.file_label_text as int, 64) + 8;
    let combo_w = imax(imin(180, inner / 3), 120);
    let cluster = file_w + 8 + combo_w + 8 + w.set_btn + 8 + w.clear_btn;
    let left_w = imax(inner - cluster - 8, 160);
    let right_x = x + left_w + 8;
    let combo_x = right_x + file_w + 8;
    let y4 = y3 + 26 + LABEL_STACK_GAP;
    let rows_h = crate::settings_layout::listbox_rows_spec(w.list_item_h, MODE_CHORD_ROWS);
    let y5 = y4 + rows_h + 4;
    let y6 = y5 + 26 + 12;
    ModePageLayout {
        current_label: placed(x, y1, cur_w, 26),
        current_combo: placed(x + cur_w + 8, y1, imax(inner - cur_w - 8, 160), 200),
        hint: placed(x, y2, inner, 36),
        chords_label: placed(x, y3, left_w, 26),
        file_label: placed(right_x, y3, file_w, 26),
        file_combo: placed(combo_x, y3, combo_w, 200),
        set_btn: placed(combo_x + combo_w + 8, y3, w.set_btn as int, 24),
        clear_btn: placed(combo_x + combo_w + 8 + w.set_btn + 8, y3, w.clear_btn as int, 24),
        chord_list: placed(x, y4, inner, rows_h),
        status: placed(x, y5, inner, 26),
        group: placed(12, top, content_w, imax(y6 - top, 120)),
        height: y6 as i32,
    }
}

/// Lay out the Mode tab (`None`: no panel area or no group box yet).
pub fn mode_page_layout(panel_w: i32, panel_h: i32, has_group: bool, w: ModeWidths) -> (r: Option<
    ModePageLayout,
>)
    requires
        mode_widths_ok(panel_w, w),
    ensures
        r == (if panel_w <= 0 || panel_h <= 0 || !has_group {
            None
        } else {
            Some(mode_page_spec(panel_w, w))
        }),
{
    if panel_w <= 0 || panel_h <= 0 || !has_group {
        return None;
    }
    let content_w = max_i32(panel_w - 24, 200);
    let inner = max_i32(content_w - 32, 160);
    let x: i32 = 28;
    let top: i32 = 6;
    let mut oy = top + 28;
    let cur_w = max_i32(w.current_label_text, 72) + 8;
    let current_label = Placed { x, y: oy, w: cur_w, h: 26 };
    let current_combo = Placed { x: x + cur_w + 8, y: oy, w: max_i32(inner - cur_w - 8, 160), h: 200 };
    oy = oy + 28 + FIELD_BLOCK_GAP;
    let hint = Placed { x, y: oy, w: inner, h: 36 };
    oy = oy + 36 + FIELD_BLOCK_GAP;
    let file_w = max_i32(w.file_label_text, 64) + 8;
    let combo_w = max_i32(min_i32(180, inner / 3), 120);
    let cluster = file_w + 8 + combo_w + 8 + w.set_btn + 8 + w.clear_btn;
    let left_w = max_i32(inner - cluster - 8, 160);
    let right_x = x + left_w + 8;
    let combo_x = right_x + file_w + 8;
    let chords_label = Placed { x, y: oy, w: left_w, h: 26 };
    let file_label = Placed { x: right_x, y: oy, w: file_w, h: 26 };
    let file_combo = Placed { x: combo_x, y: oy, w: combo_w, h: 200 };
    let set_btn = Placed { x: combo_x + combo_w + 8, y: oy, w: w.set_btn, h: 24 };
    let clear_btn = Placed { x: combo_x + combo_w + 8 + w.set_btn + 8, y: oy, w: w.clear_btn, h: 24 };
    oy = oy + 26 + LABEL_STACK_GAP;
    let rows_h = crate::settings_layout::listbox_rows_h(w.list_item_h, MODE_CHORD_ROWS);
    let chord_list = Placed { x, y: oy, w: inner, h: rows_h };
    oy = oy + rows_h + 4;
    let status = Placed { x, y: oy, w: inner, h: 26 };
    oy = oy + 26 + 12;
    let group = Placed { x: 12, y: top, w: content_w, h: max_i32(oy - top, 120) };
    Some(
        ModePageLayout {
            current_label,
            current_combo,
            hint,
            chords_label,
            file_label,
            file_combo,
            set_btn,
            clear_btn,
            chord_list,
            status,
            group,
            height: oy,
        },
    )
}

} // verus!
