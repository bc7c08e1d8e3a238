//! The "restore from backup" dialog: its layout, its outer size, and what
//! its buttons answer.

use vstd::prelude::*;

use crate::settings_general::{imax, placed, Placed, LAYOUT_INPUT_MAX};

verus! {

pub const IDC_RESTORE_ALL: usize = 1;
pub const IDC_RESTORE_CURRENT: usize = 2;
pub const IDC_RESTORE_SETTINGS: usize = 3;
pub const IDC_RESTORE_OK: usize = 4;
pub const IDC_RESTORE_CANCEL: usize = 5;

pub const RESTORE_MARGIN: i32 = 16;
pub const RESTORE_ROW_H: i32 = 22;
pub const RESTORE_ROW_GAP: i32 = 4;
pub const RESTORE_HINT_H: i32 = 22;
pub const RESTORE_HINT_GAP: i32 = 8;
pub const RESTORE_BTN_H: i32 = 28;
pub const RESTORE_BTN_GAP: i32 = 12;
/// Room for the radio / check box glyph left of an option's text.
pub const RESTORE_CHECK_PAD: i32 = 28;

/// Which slot books a restore brings back.
#[derive(Clone, Copy, Debug, PartialEq, Eq, Structural)]
pub enum RestoreScope {
    AllBooks,
    CurrentBook,
}

/// The user's choice in the dialog.
#[derive(Clone, Copy, Debug, PartialEq, Eq, Structural)]
pub struct RestoreChoice {
    pub scope: RestoreScope,
    pub include_settings: bool,
}

/// What a command in the dialog does.
#[derive(Clone, Copy, Debug, PartialEq, Eq, Structural)]
pub enum RestoreStep {
    /// Keep the dialog open.
    Continue,
    /// Close it with this answer (`None`: cancelled).
    Finish(Option<RestoreChoice>),
}

pub open spec fn restore_step_spec(wparam: usize, all_checked: bool, settings_checked: bool) -> RestoreStep {
    let id = wparam % 0x1_0000;
    if id == IDC_RESTORE_OK {
        RestoreStep::Finish(
            Some(
                RestoreChoice {
                    scope: if all_checked {
                        RestoreScope::AllBooks
                    } else {
                        RestoreScope::CurrentBook
                    },
                    include_settings: settings_checked,
                },
            ),
        )
    } else if id == IDC_RESTORE_CANCEL {
        RestoreStep::Finish(None)
    } else {
        RestoreStep::Continue
    }
}

/// A `WM_COMMAND` in the dialog, given the check states of the "all books"
/// radio button and the "include settings" box.
pub fn restore_step(wparam: usize, all_checked: bool, settings_checked: bool) -> (r: RestoreStep)
    ensures
        r == restore_step_spec(wparam, all_checked, settings_checked),
{
    let id = wparam % 0x1_0000;
    if id == IDC_RESTORE_OK {
        RestoreStep::Finish(
            Some(
                RestoreChoice {
                    scope: if all_checked {
                        RestoreScope::AllBooks
                    } else {
                        RestoreScope::CurrentBook
                    },
                    include_settings: settings_checked,
                },
            ),
        )
    } else if id == IDC_RESTORE_CANCEL {
        RestoreStep::Finish(None)
    } else {
        RestoreStep::Continue
    }
}

/// Measured text widths for the dialog.
#[derive(Clone, Copy, Debug, PartialEq, Eq, Structural)]
pub struct RestoreTexts {
    /// The OK and Cancel buttons, already fitted to their captions.
    pub ok_btn: i32,
    pub cancel_btn: i32,
    /// The three option captions.
    pub all_text: i32,
    pub current_text: i32,
    pub settings_text: i32,
    pub hint_text: i32,
}

/// The dialog's controls and client size.
#[derive(Clone, Copy, Debug, PartialEq, Eq, Structural)]
pub struct RestoreLayout {
    pub radio_all: Placed,
    pub radio_current: Placed,
    pub settings_check: Placed,
    pub hint: Placed,
    pub ok: Placed,
    pub cancel: Placed,
    pub client_w: i32,
    pub client_h: i32,
}

pub open spec fn restore_texts_ok(t: RestoreTexts) -> bool {
    &&& 0 <= t.ok_btn <= LAYOUT_INPUT_MAX
    &&& 0 <= t.cancel_btn <= LAYOUT_INPUT_MAX
    &&& 0 <= t.all_text <= LAYOUT_INPUT_MAX
    &&& 0 <= t.current_text <= LAYOUT_INPUT_MAX
    &&& 0 <= t.settings_text <= LAYOUT_INPUT_MAX
    &&& 0 <= t.hint_text <= LAYOUT_INPUT_MAX
}

/// Options stacked under each other at their widest caption; the hint below
/// them; OK and Cancel (at least 80 wide) right-aligned under the hint.
pub open spec fn restore_layout_spec(t: RestoreTexts) -> RestoreLayout {
    let m = RESTORE_MARGIN as int;
    let ok_w = imax(t.ok_btn as int, 80);
    let cancel_w = imax(t.cancel_btn as int, 80);
    let option_w = imax(imax(t.all_text as int, t.current_text as int), t.settings_text as int)
        + RESTORE_CHECK_PAD;
    let hint_w = imax(t.hint_text as int, option_w);
    let btns_w = ok_w + 8 + cancel_w;
    let inner = imax(imax(option_w, hint_w), btns_w);
    let y1 = m + RESTORE_ROW_H + RESTORE_ROW_GAP;
    let y2 = y1 + RESTORE_ROW_H + RESTORE_ROW_GAP;
    let y3 = y2 + RESTORE_ROW_H + RESTORE_HINT_GAP;
    let y4 = y3 + RESTORE_HINT_H + RESTORE_BTN_GAP;
    let btn_x = m + inner - btns_w;
    RestoreLayout {
        radio_all: placed(m, m, option_w, RESTORE_ROW_H as int),
        radio_current: placed(m, y1, option_w, RESTORE_ROW_H as int),
        settings_check: placed(m, y2, option_w, RESTORE_ROW_H as int),
        hint: placed(m, y3, inner, RESTORE_HINT_H as int),
        ok: placed(btn_x, y4, ok_w, RESTORE_BTN_H as int),
        cancel: placed(btn_x + ok_w + 8, y4, cancel_w, RESTORE_BTN_H as int),
        client_w: (m + inner + m) as i32,
        client_h: (y4 + RESTORE_BTN_H + m) as i32,
    }
}

fn max_i32(a: i32, b: i32) -> (r: i32)
    ensures
        r == imax(a as int, b as int),
{
    if a >= b {
        a
    } else {
        b
    }
}

pub fn restore_layout(t: RestoreTexts) -> (r: RestoreLayout)
    requires
        restore_texts_ok(t),
    ensures
        r == restore_layout_spec(t),
{
    let m = RESTORE_MARGIN;
    let ok_w = max_i32(t.ok_btn, 80);
    let cancel_w = max_i32(t.cancel_btn, 80);
    let option_w = max_i32(max_i32(t.all_text, t.current_text), t.settings_text) + RESTORE_CHECK_PAD;
    let hint_w = max_i32(t.hint_text, option_w);
    let btns_w = ok_w + 8 + cancel_w;
    let inner = max_i32(max_i32(option_w, hint_w), btns_w);
    let y1 = m + RESTORE_ROW_H + RESTORE_ROW_GAP;
    let y2 = y1 + RESTORE_ROW_H + RESTORE_ROW_GAP;
    let y3 = y2 + RESTORE_ROW_H + RESTORE_HINT_GAP;
    let y4 = y3 + RESTORE_HINT_H + RESTORE_BTN_GAP;
    let btn_x = m + inner - btns_w;
    RestoreLayout {
        radio_all: Placed { x: m, y: m, w: option_w, h: RESTORE_ROW_H },
        radio_current: Placed { x: m, y: y1, w: option_w, h: RESTORE_ROW_H },
        settings_check: Placed { x: m, y: y2, w: option_w, h: RESTORE_ROW_H },
        hint: Placed { x: m, y: y3, w: inner, h: RESTORE_HINT_H },
        ok: Placed { x: btn_x, y: y4, w: ok_w, h: RESTORE_BTN_H },
        cancel: Placed { x: btn_x + ok_w + 8, y: y4, w: cancel_w, h: RESTORE_BTN_H },
        client_w: m + inner + m,
        client_h: y4 + RESTORE_BTN_H + m,
    }
}

/// The buttons end at the right margin and never start left of it.
pub proof fn lemma_restore_buttons_fit(t: RestoreTexts)
    requires
        restore_texts_ok(t),
    ensures
        ({
            let l = restore_layout_spec(t);
            &&& l.cancel.x + l.cancel.w + RESTORE_MARGIN == l.client_w
            &&& l.ok.x >= RESTORE_MARGIN
            &&& l.ok.x + l.ok.w < l.cancel.x
            &&& l.hint.y + l.hint.h < l.ok.y
        }),
{
}

/// Outer size of the dialog for its client size: the frame-inclusive size
/// from `AdjustWindowRectExForDpi` (asked for at least 100×80) when that
/// call succeeded, else a fixed frame allowance.
pub fn restore_outer_size(client_w: i32, client_h: i32, adjusted: Option<(i32, i32)>) -> (r: (i32, i32))
    requires
        adjusted is None ==> client_w <= i32::MAX - 16 && client_h <= i32::MAX - 39,
    ensures
        r == (match adjusted {
            Some((aw, ah)) => (imax(aw as int, client_w as int) as i32, imax(ah as int, client_h as int) as i32),
            None => ((client_w + 16) as i32, (client_h + 39) as i32),
        }),
{
    match adjusted {
        Some((aw, ah)) => (max_i32(aw, client_w), max_i32(ah, client_h)),
        None => (client_w + 16, client_h + 39),
    }
}

} // verus!
