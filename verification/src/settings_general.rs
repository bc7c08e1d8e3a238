//! Layout of the Settings window's General tab: language, autostart, the
//! settings folder, backup, and (with Advanced on) the numeric fields and
//! the log level, stacked top to bottom inside one group box.

use vstd::prelude::*;

verus! {

/// Left edge of the stacked controls.
pub const STACK_X: i32 = 28;
/// Top of the group box.
pub const MISC_TOP: i32 = 6;
pub const LABEL_H: i32 = 26;
pub const LABEL_STACK_GAP: i32 = 4;
pub const FIELD_BLOCK_GAP: i32 = 12;
pub const KEYS_GROUP_GAP: i32 = 8;
pub const BACKUP_STATUS_H: i32 = 40;
/// Inputs are bounded so that every sum below fits in 32 bits.
pub const LAYOUT_INPUT_MAX: i32 = 0x1000_0000;

/// A control's rectangle: left, top, width, height.
#[derive(Clone, Copy, Debug, PartialEq, Eq, Structural)]
pub struct Placed {
    pub x: i32,
    pub y: i32,
    pub w: i32,
    pub h: i32,
}

/// The Advanced-only fields, in order.
#[derive(Clone, Copy, Debug, PartialEq, Eq, Structural)]
pub struct GeneralAdvanced {
    pub slots_label: Placed,
    pub slots_combo: Placed,
    pub timeout_label: Placed,
    pub timeout_edit: Placed,
    pub max_digits_label: Placed,
    pub max_digits_edit: Placed,
    pub feedback_label: Placed,
    pub feedback_edit: Placed,
    pub log_label: Placed,
    pub log_combo: Placed,
}

/// Every control of the General tab, and the height the tab uses.
#[derive(Clone, Copy, Debug, PartialEq, Eq, Structural)]
pub struct GeneralLayout {
    pub lang_label: Placed,
    pub locale_combo: Placed,
    pub autostart: Placed,
    pub open_folder: Placed,
    pub backup_label: Placed,
    pub backup_edit: Placed,
    pub backup_browse: Placed,
    pub backup_config: Placed,
    pub backup_restore: Placed,
    /// Shown only with Advanced on.
    pub advanced: Option<GeneralAdvanced>,
    pub group: Placed,
    pub status: Placed,
    pub height: i32,
}

/// Measured widths the layout needs: the autostart caption's text and the
/// four buttons (already fitted to their captions).
#[derive(Clone, Copy, Debug, PartialEq, Eq, Structural)]
pub struct GeneralWidths {
    pub autostart_text: i32,
    pub open_folder: i32,
    pub browse: i32,
    pub backup: i32,
    pub restore: i32,
}

pub open spec fn imax(a: int, b: int) -> int {
    if a >= b {
        a
    } else {
        b
    }
}

pub open spec fn imin(a: int, b: int) -> int {
    if a <= b {
        a
    } else {
        b
    }
}

pub open spec fn placed(x: int, y: int, w: int, h: int) -> Placed {
    Placed { x: x as i32, y: y as i32, w: w as i32, h: h as i32 }
}

pub open spec fn widths_ok(panel_w: i32, panel_h: i32, m: GeneralWidths) -> bool {
    &&& 0 <= panel_w <= LAYOUT_INPUT_MAX
    &&& 0 <= panel_h <= LAYOUT_INPUT_MAX
    &&& 0 <= m.autostart_text <= LAYOUT_INPUT_MAX
    &&& 0 <= m.open_folder <= LAYOUT_INPUT_MAX
    &&& 0 <= m.browse <= LAYOUT_INPUT_MAX
    &&& 0 <= m.backup <= LAYOUT_INPUT_MAX
    &&& 0 <= m.restore <= LAYOUT_INPUT_MAX
}

/// The General tab laid out in a panel of `panel_w` × `panel_h`: nothing
/// when the panel is empty or its group box does not exist yet.
pub open spec fn general_layout_spec(
    panel_w: i32,
    panel_h: i32,
    has_group: bool,
    adv: bool,
    m: GeneralWidths,
) -> Option<GeneralLayout> {
    if panel_w <= 0 || panel_h <= 0 || !has_group {
        None
    } else {
        let content_w = imax(panel_w - 24, 200);
        let inner = imax(content_w - 32, 160);
        let x = STACK_X as int;
        let y0 = MISC_TOP + 28;
        let lang_label = placed(x, y0, inner, LABEL_H as int);
        let y1 = y0 + LABEL_H + LABEL_STACK_GAP;
        let locale_combo = placed(x, y1, imin(260, inner), 200);
        let y2 = y1 + 28 + FIELD_BLOCK_GAP;
        let autostart_h: int = if m.autostart_text + 28 > inner {
            36
        } else {
            22
        };
        let autostart = placed(x, y2, inner, autostart_h);
        let y3 = y2 + autostart_h + FIELD_BLOCK_GAP;
        // Settings folder row: with Advanced, the slot-file label and combo sit
        // left of the button; without it the button stands alone.
        let slots_label = placed(x, y3, inner, LABEL_H as int);
        let y3b = y3 + LABEL_H + LABEL_STACK_GAP;
        let slots_combo = placed(x, y3b, imax(imin(300, inner - m.open_folder - 8), 160), 28);
        let open_folder = if adv {
            placed(x + inner - m.open_folder, y3b, m.open_folder as int, 28)
        } else {
            placed(x, y3, m.open_folder as int, 28)
        };
        let y4 = if adv {
            y3b + 28 + FIELD_BLOCK_GAP
        } else {
            y3 + 28 + FIELD_BLOCK_GAP
        };
        let backup_label = placed(x, y4, inner, LABEL_H as int);
        let y5 = y4 + LABEL_H + LABEL_STACK_GAP;
        let edit_w = imax(inner - m.browse - m.backup - m.restore - 24, 120);
        let backup_edit = placed(x, y5, edit_w, 24);
        let backup_browse = placed(x + edit_w + 8, y5, m.browse as int, 28);
        let backup_config = placed(x + edit_w + 8 + m.browse + 8, y5, m.backup as int, 28);
        let backup_restore = placed(x + edit_w + 8 + m.browse + 8 + m.backup + 8, y5, m.restore as int, 28);
        let y6 = y5 + 28;
        let a0 = y6 + FIELD_BLOCK_GAP;
        let a1 = a0 + LABEL_H + LABEL_STACK_GAP;
        let a2 = a1 + 24 + FIELD_BLOCK_GAP;
        let a3 = a2 + LABEL_H + LABEL_STACK_GAP;
        let a4 = a3 + 24 + FIELD_BLOCK_GAP;
        let a5 = a4 + LABEL_H + LABEL_STACK_GAP;
        let a6 = a5 + 24 + FIELD_BLOCK_GAP;
        let a7 = a6 + LABEL_H + LABEL_STACK_GAP;
        let advanced = GeneralAdvanced {
            slots_label,
            slots_combo,
            timeout_label: placed(x, a0, inner, LABEL_H as int),
            timeout_edit: placed(x, a1, 80, 24),
            max_digits_label: placed(x, a2, inner, LABEL_H as int),
            max_digits_edit: placed(x, a3, 80, 24),
            feedback_label: placed(x, a4, inner, LABEL_H as int),
            feedback_edit: placed(x, a5, 80, 24),
            log_label: placed(x, a6, inner, LABEL_H as int),
            log_combo: placed(x, a7, imin(140, inner), 200),
        };
        let y7 = if adv {
            a7 + 28 + 18
        } else {
            y6 + 18
        };
        let group = placed(12, MISC_TOP as int, content_w, imax(y7 - MISC_TOP, 120));
        let y8 = y7 + KEYS_GROUP_GAP;
        let status = placed(x, y8, inner, BACKUP_STATUS_H as int);
        Some(
            GeneralLayout {
                lang_label,
                locale_combo,
                autostart,
                open_folder,
                backup_label,
                backup_edit,
                backup_browse,
                backup_config,
                backup_restore,
                advanced: if adv {
                    Some(advanced)
                } else {
                    None
                },
                group,
                status,
                height: (y8 + BACKUP_STATUS_H) as i32,
            },
        )
    }
}

fn max_i32(a: i32, b: i32) -> (r: i32)
    ensures
        r == imax(a as int, b as int),
{
    if a >= b {
        a
    } else {
        b
    }
}

fn min_i32(a: i32, b: i32) -> (r: i32)
    ensures
        r == imin(a as int, b as int),
{
    if a <= b {
        a
    } else {
        b
    }
}

/// Lay out the General tab (`None`: nothing to lay out).
pub fn general_layout(panel_w: i32, panel_h: i32, has_group: bool, adv: bool, m: GeneralWidths) -> (r:
    Option<GeneralLayout>)
    requires
        widths_ok(panel_w, panel_h, m),
    ensures
        r == general_layout_spec(panel_w, panel_h, has_group, adv, m),
{
    if panel_w <= 0 || panel_h <= 0 || !has_group {
        return None;
    }
    let content_w = max_i32(panel_w - 24, 200);
    let inner = max_i32(content_w - 32, 160);
    let x = STACK_X;
    let y0 = MISC_TOP + 28;
    let lang_label = Placed { x, y: y0, w: inner, h: LABEL_H };
    let y1 = y0 + LABEL_H + LABEL_STACK_GAP;
    let locale_combo = Placed { x, y: y1, w: min_i32(260, inner), h: 200 };
    let y2 = y1 + 28 + FIELD_BLOCK_GAP;
    let autostart_h: i32 = if m.autostart_text + 28 > inner {
        36
    } else {
        22
    };
    let autostart = Placed { x, y: y2, w: inner, h: autostart_h };
    let y3 = y2 + autostart_h + FIELD_BLOCK_GAP;
    let slots_label = Placed { x, y: y3, w: inner, h: LABEL_H };
    let y3b = y3 + LABEL_H + LABEL_STACK_GAP;
    let slots_combo = Placed {
        x,
        y: y3b,
        w: max_i32(min_i32(300, inner - m.open_folder - 8), 160),
        h: 28,
    };
    let open_folder = if adv {
        Placed { x: x + inner - m.open_folder, y: y3b, w: m.open_folder, h: 28 }
    } else {
        Placed { x, y: y3, w: m.open_folder, h: 28 }
    };
    let y4 = if adv {
        y3b + 28 + FIELD_BLOCK_GAP
    } else {
        y3 + 28 + FIELD_BLOCK_GAP
    };
    let backup_label = Placed { x, y: y4, w: inner, h: LABEL_H };
    let y5 = y4 + LABEL_H + LABEL_STACK_GAP;
    let edit_w = max_i32(inner - m.browse - m.backup - m.restore - 24, 120);
    let backup_edit = Placed { x, y: y5, w: edit_w, h: 24 };
    let backup_browse = Placed { x: x + edit_w + 8, y: y5, w: m.browse, h: 28 };
    let backup_config = Placed { x: x + edit_w + 8 + m.browse + 8, y: y5, w: m.backup, h: 28 };
    let backup_restore = Placed {
        x: x + edit_w + 8 + m.browse + 8 + m.backup + 8,
        y: y5,
        w: m.restore,
        h: 28,
    };
    let y6 = y5 + 28;
    let a0 = y6 + FIELD_BLOCK_GAP;
    let a1 = a0 + LABEL_H + LABEL_STACK_GAP;
    let a2 = a1 + 24 + FIELD_BLOCK_GAP;
    let a3 = a2 + LABEL_H + LABEL_STACK_GAP;
    let a4 = a3 + 24 + FIELD_BLOCK_GAP;
    let a5 = a4 + LABEL_H + LABEL_STACK_GAP;
    let a6 = a5 + 24 + FIELD_BLOCK_GAP;
    let a7 = a6 + LABEL_H + LABEL_STACK_GAP;
    let advanced = GeneralAdvanced {
        slots_label,
        slots_combo,
        timeout_label: Placed { x, y: a0, w: inner, h: LABEL_H },
        timeout_edit: Placed { x, y: a1, w: 80, h: 24 },
        max_digits_label: Placed { x, y: a2, w: inner, h: LABEL_H },
        max_digits_edit: Placed { x, y: a3, w: 80, h: 24 },
        feedback_label: Placed { x, y: a4, w: inner, h: LABEL_H },
        feedback_edit: Placed { x, y: a5, w: 80, h: 24 },
        log_label: Placed { x, y: a6, w: inner, h: LABEL_H },
        log_combo: Placed { x, y: a7, w: min_i32(140, inner), h: 200 },
    };
    let y7 = if adv {
        a7 + 28 + 18
    } else {
        y6 + 18
    };
    let group = Placed { x: 12, y: MISC_TOP, w: content_w, h: max_i32(y7 - MISC_TOP, 120) };
    let y8 = y7 + KEYS_GROUP_GAP;
    let status = Placed { x, y: y8, w: inner, h: BACKUP_STATUS_H };
    Some(
        GeneralLayout {
            lang_label,
            locale_combo,
            autostart,
            open_folder,
            backup_label,
            backup_edit,
            backup_browse,
            backup_config,
            backup_restore,
            advanced: if adv {
                Some(advanced)
            } else {
                None
            },
            group,
            status,
            height: y8 + BACKUP_STATUS_H,
        },
    )
}

/// The stack never overlaps: each backup button starts right of the one
/// before it, the group box holds every stacked row, and the status line
/// sits below the box.
pub proof fn lemma_general_layout_ordered(panel_w: i32, panel_h: i32, has_group: bool, adv: bool, m: GeneralWidths)
    requires
        widths_ok(panel_w, panel_h, m),
    ensures
        general_layout_spec(panel_w, panel_h, has_group, adv, m) matches Some(l) ==> {
            &&& l.backup_edit.x + l.backup_edit.w < l.backup_browse.x
            &&& l.backup_browse.x + l.backup_browse.w < l.backup_config.x
            &&& l.backup_config.x + l.backup_config.w < l.backup_restore.x
            &&& l.lang_label.y < l.locale_combo.y
            &&& l.locale_combo.y < l.autostart.y
            &&& l.autostart.y + l.autostart.h < l.backup_label.y
            &&& l.backup_label.y + l.backup_label.h < l.backup_edit.y
            &&& l.group.y + l.group.h >= l.backup_restore.y + l.backup_restore.h
            &&& l.status.y >= l.group.y + l.group.h || l.group.h == 120
            &&& l.height == l.status.y + l.status.h
        },
{
}

} // verus!
