//! Layout of the Settings window's Keys tab: the key-set picker, one row per
//! action key (caption | key | display label | Capture), the wake key, the
//! reset button, then the two legend columns with their move buttons and the
//! capture status strip.

use vstd::prelude::*;

use crate::settings_general::{
    imax, imin, placed, Placed, FIELD_BLOCK_GAP, KEYS_GROUP_GAP, LABEL_H, LABEL_STACK_GAP,
    LAYOUT_INPUT_MAX, STACK_X,
};

verus! {

pub const KEYS_COL_GAP: i32 = 12;
pub const ROW_CTL_H: i32 = 24;
/// Width of the display-label edit box.
pub const DISPLAY_W: i32 = 56;
pub const CAPTURE_STATUS_H: i32 = 56;
/// Action-key rows: Start, Confirm, Cancel, Search, Open-workdir, Digit-back.
pub const ACTION_ROWS: usize = 6;
/// Check boxes per legend column.
pub const LEGEND_ROWS: usize = 5;
pub const KEYS_TOP: i32 = 6;
/// Row pitch of the action-key rows.
pub const KEY_ROW_PITCH: i32 = 38;
/// Row pitch of the legend check boxes.
pub const LEGEND_ROW_PITCH: i32 = 34;

/// Measured widths the Keys tab needs (buttons already fitted to captions).
#[derive(Clone, Copy, Debug, PartialEq, Eq, Structural)]
pub struct KeysWidths {
    /// The Capture buttons (the wider of "Capture" and "Cancel").
    pub capture_btn: i32,
    /// The caption column (see `action_key_caption_col_w`).
    pub caption_col: i32,
    /// Text width of the key-set label.
    pub set_label_text: i32,
    /// Text width of the wake check box caption.
    pub wake_text: i32,
    pub reset_btn: i32,
    pub idle_up: i32,
    pub idle_down: i32,
    pub multi_up: i32,
    pub multi_down: i32,
}

/// One action-key row.
#[derive(Clone, Copy, Debug, PartialEq, Eq, Structural)]
pub struct KeyRow {
    pub caption: Placed,
    pub value: Placed,
    pub display: Placed,
    pub capture: Placed,
}

/// The Keys tab's controls and the height it uses.
#[derive(Clone, Debug)]
pub struct KeysLayout {
    pub set_label: Placed,
    pub set_combo: Placed,
    pub rows: Vec<KeyRow>,
    pub wake_check: Placed,
    /// The wake row has no display-label box.
    pub wake_caption: Placed,
    pub wake_value: Placed,
    pub wake_capture: Placed,
    pub reset: Placed,
    pub keys_group: Placed,
    pub legend_idle_label: Placed,
    pub legend_multi_label: Placed,
    /// Idle and multi-digit check boxes, row by row.
    pub legend_checks: Vec<(Placed, Placed)>,
    pub idle_up: Placed,
    pub idle_down: Placed,
    pub multi_up: Placed,
    pub multi_down: Placed,
    pub legend_group: Placed,
    pub capture_status: Placed,
    pub height: i32,
}

pub open spec fn keys_widths_ok(panel_w: i32, panel_h: i32, m: KeysWidths) -> bool {
    &&& 0 <= panel_w <= LAYOUT_INPUT_MAX
    &&& 0 <= panel_h <= LAYOUT_INPUT_MAX
    &&& 0 <= m.capture_btn <= LAYOUT_INPUT_MAX
    &&& 0 <= m.caption_col <= LAYOUT_INPUT_MAX
    &&& 0 <= m.set_label_text <= LAYOUT_INPUT_MAX
    &&& 0 <= m.wake_text <= LAYOUT_INPUT_MAX
    &&& 0 <= m.reset_btn <= LAYOUT_INPUT_MAX
    &&& 0 <= m.idle_up <= LAYOUT_INPUT_MAX
    &&& 0 <= m.idle_down <= LAYOUT_INPUT_MAX
    &&& 0 <= m.multi_up <= LAYOUT_INPUT_MAX
    &&& 0 <= m.multi_down <= LAYOUT_INPUT_MAX
}

pub open spec fn content_w_spec(panel_w: i32) -> int {
    imax(panel_w - 24, 200)
}

pub open spec fn inner_w_spec(panel_w: i32) -> int {
    imax(content_w_spec(panel_w) - 32, 160)
}

/// Left of the key column, right of the caption column.
pub open spec fn rest_x_spec(m: KeysWidths) -> int {
    STACK_X + m.caption_col + KEYS_COL_GAP
}

pub open spec fn value_w_spec(panel_w: i32, m: KeysWidths) -> int {
    let rest_w = imax(inner_w_spec(panel_w) - m.caption_col - KEYS_COL_GAP, 160);
    imax(rest_w - m.capture_btn - DISPLAY_W - KEYS_COL_GAP * 2, 80)
}

pub open spec fn capture_x_spec(panel_w: i32, m: KeysWidths) -> int {
    rest_x_spec(m) + value_w_spec(panel_w, m) + KEYS_COL_GAP + DISPLAY_W + KEYS_COL_GAP
}

/// Top of the first action-key row.
pub open spec fn first_row_y() -> int {
    KEYS_TOP + 28 + LABEL_H + FIELD_BLOCK_GAP
}

pub open spec fn key_row_spec(panel_w: i32, m: KeysWidths, k: int) -> KeyRow {
    let y = first_row_y() + KEY_ROW_PITCH * k;
    KeyRow {
        caption: placed(STACK_X as int, y, m.caption_col as int, LABEL_H as int),
        value: placed(rest_x_spec(m), y, value_w_spec(panel_w, m), LABEL_H as int),
        display: placed(
            rest_x_spec(m) + value_w_spec(panel_w, m) + KEYS_COL_GAP,
            y,
            DISPLAY_W as int,
            ROW_CTL_H as int,
        ),
        capture: placed(capture_x_spec(panel_w, m), y, m.capture_btn as int, ROW_CTL_H as int),
    }
}

pub open spec fn wake_check_y() -> int {
    first_row_y() + KEY_ROW_PITCH * 6
}

pub open spec fn wake_h_spec(panel_w: i32, m: KeysWidths) -> int {
    if m.wake_text + 28 > inner_w_spec(panel_w) {
        36
    } else {
        22
    }
}

pub open spec fn wake_row_y(panel_w: i32, m: KeysWidths) -> int {
    wake_check_y() + imax(wake_h_spec(panel_w, m), 24) + FIELD_BLOCK_GAP
}

pub open spec fn reset_y(panel_w: i32, m: KeysWidths) -> int {
    wake_row_y(panel_w, m) + KEY_ROW_PITCH
}

pub open spec fn keys_group_h(panel_w: i32, m: KeysWidths) -> int {
    imax(reset_y(panel_w, m) + 26 + FIELD_BLOCK_GAP - KEYS_TOP, 80)
}

pub open spec fn legend_top_spec(panel_w: i32, m: KeysWidths) -> int {
    KEYS_TOP + keys_group_h(panel_w, m) + KEYS_GROUP_GAP
}

pub open spec fn legend_col_w(panel_w: i32) -> int {
    imax((inner_w_spec(panel_w) - 16) / 2, 160)
}

pub open spec fn legend_right_x(panel_w: i32) -> int {
    STACK_X + legend_col_w(panel_w) + 16
}

pub open spec fn legend_label_y(panel_w: i32, m: KeysWidths) -> int {
    legend_top_spec(panel_w, m) + 28
}

pub open spec fn legend_check_y(panel_w: i32, m: KeysWidths, i: int) -> int {
    legend_label_y(panel_w, m) + LABEL_H + LABEL_STACK_GAP + LEGEND_ROW_PITCH * i
}

pub open spec fn legend_check_spec(panel_w: i32, m: KeysWidths, i: int) -> (Placed, Placed) {
    let y = legend_check_y(panel_w, m, i);
    (
        placed(STACK_X as int, y, legend_col_w(panel_w), 22),
        placed(legend_right_x(panel_w), y, legend_col_w(panel_w), 22),
    )
}

pub open spec fn legend_buttons_y(panel_w: i32, m: KeysWidths) -> int {
    legend_check_y(panel_w, m, 5) + FIELD_BLOCK_GAP
}

pub open spec fn legend_group_h(panel_w: i32, m: KeysWidths) -> int {
    imax(legend_buttons_y(panel_w, m) + 24 + FIELD_BLOCK_GAP - legend_top_spec(panel_w, m), 80)
}

pub open spec fn capture_status_y(panel_w: i32, m: KeysWidths) -> int {
    legend_buttons_y(panel_w, m) + 24 + FIELD_BLOCK_GAP + KEYS_GROUP_GAP
}

/// Everything of the layout but the row lists, which `keys_layout`'s
/// contract states row by row.
pub open spec fn keys_fixed_spec(l: KeysLayout, panel_w: i32, m: KeysWidths) -> bool {
    let inner = inner_w_spec(panel_w);
    let set_lbl_w = imax(m.set_label_text as int, 48) + KEYS_COL_GAP;
    let wy = wake_row_y(panel_w, m);
    let ly = legend_label_y(panel_w, m);
    let by = legend_buttons_y(panel_w, m);
    let rx = legend_right_x(panel_w);
    &&& l.set_label == placed(STACK_X as int, KEYS_TOP + 28, set_lbl_w, LABEL_H as int)
    &&& l.set_combo == placed(STACK_X + set_lbl_w + KEYS_COL_GAP, KEYS_TOP + 28, imin(140, inner / 3), 200)
    &&& l.wake_check == placed(STACK_X as int, wake_check_y(), inner, wake_h_spec(panel_w, m))
    &&& l.wake_caption == placed(STACK_X as int, wy, m.caption_col as int, LABEL_H as int)
    &&& l.wake_value == placed(rest_x_spec(m), wy, value_w_spec(panel_w, m), LABEL_H as int)
    &&& l.wake_capture == placed(capture_x_spec(panel_w, m), wy, m.capture_btn as int, ROW_CTL_H as int)
    &&& l.reset == placed(STACK_X as int, reset_y(panel_w, m), m.reset_btn as int, 26)
    &&& l.keys_group == placed(12, KEYS_TOP as int, content_w_spec(panel_w), keys_group_h(panel_w, m))
    &&& l.legend_idle_label == placed(STACK_X as int, ly, legend_col_w(panel_w), LABEL_H as int)
    &&& l.legend_multi_label == placed(rx, ly, legend_col_w(panel_w), LABEL_H as int)
    &&& l.idle_up == placed(STACK_X as int, by, m.idle_up as int, 24)
    &&& l.idle_down == placed(STACK_X + m.idle_up + 8, by, m.idle_down as int, 24)
    &&& l.multi_up == placed(rx, by, m.multi_up as int, 24)
    &&& l.multi_down == placed(rx + m.multi_up + 8, by, m.multi_down as int, 24)
    &&& l.legend_group == placed(12, legend_top_spec(panel_w, m), content_w_spec(panel_w), legend_group_h(panel_w, m))
    &&& l.capture_status == placed(STACK_X as int, capture_status_y(panel_w, m), inner, CAPTURE_STATUS_H as int)
    &&& l.height == capture_status_y(panel_w, m) + CAPTURE_STATUS_H
}

fn max_i32(a: i32, b: i32) -> (r: i32)
    ensures
        r == imax(a as int, b as int),
{
    if a >= b {
        a
    } else {
        b
    }
}

fn min_i32(a: i32, b: i32) -> (r: i32)
    ensures
        r == imin(a as int, b as int),
{
    if a <= b {
        a
    } else {
        b
    }
}

/// Lay out the Keys tab in a panel of `panel_w` × `panel_h` (`None`: the
/// panel is empty or its group box does not exist yet).
pub fn keys_layout(panel_w: i32, panel_h: i32, has_group: bool, m: KeysWidths) -> (r: Option<KeysLayout>)
    requires
        keys_widths_ok(panel_w, panel_h, m),
    ensures
        r is None <==> (panel_w <= 0 || panel_h <= 0 || !has_group),
        r matches Some(l) ==> {
            &&& keys_fixed_spec(l, panel_w, m)
            &&& l.rows@.len() == ACTION_ROWS
            &&& forall|k: int| 0 <= k < ACTION_ROWS ==> #[trigger] l.rows@[k] == key_row_spec(panel_w, m, k)
            &&& l.legend_checks@.len() == LEGEND_ROWS
            &&& forall|i: int|
                0 <= i < LEGEND_ROWS ==> #[trigger] l.legend_checks@[i] == legend_check_spec(panel_w, m, i)
        },
{
    if panel_w <= 0 || panel_h <= 0 || !has_group {
        return None;
    }
    let content_w = max_i32(panel_w - 24, 200);
    let inner = max_i32(content_w - 32, 160);
    let x = STACK_X;
    let mut ky: i32 = KEYS_TOP + 28;
    let set_lbl_w = max_i32(m.set_label_text, 48) + KEYS_COL_GAP;
    let set_label = Placed { x, y: ky, w: set_lbl_w, h: LABEL_H };
    let set_combo = Placed { x: x + set_lbl_w + KEYS_COL_GAP, y: ky, w: min_i32(140, inner / 3), h: 200 };
    ky = ky + LABEL_H + FIELD_BLOCK_GAP;
    let rest_x = x + m.caption_col + KEYS_COL_GAP;
    let rest_w = max_i32(inner - m.caption_col - KEYS_COL_GAP, 160);
    let value_w = max_i32(rest_w - m.capture_btn - DISPLAY_W - KEYS_COL_GAP * 2, 80);
    let capture_x = rest_x + value_w + KEYS_COL_GAP + DISPLAY_W + KEYS_COL_GAP;
    let mut rows: Vec<KeyRow> = Vec::new();
    let mut k: usize = 0;
    while k < ACTION_ROWS
        invariant
            0 <= k <= ACTION_ROWS,
            keys_widths_ok(panel_w, panel_h, m),
            panel_w > 0,
            x == STACK_X,
            inner == inner_w_spec(panel_w),
            rest_x == rest_x_spec(m),
            value_w == value_w_spec(panel_w, m),
            capture_x == capture_x_spec(panel_w, m),
            ky == first_row_y() + KEY_ROW_PITCH * k,
            rows@.len() == k,
            forall|j: int| 0 <= j < k ==> #[trigger] rows@[j] == key_row_spec(panel_w, m, j),
        decreases ACTION_ROWS - k,
    {
        rows.push(
            KeyRow {
                caption: Placed { x, y: ky, w: m.caption_col, h: LABEL_H },
                value: Placed { x: rest_x, y: ky, w: value_w, h: LABEL_H },
                display: Placed { x: rest_x + value_w + KEYS_COL_GAP, y: ky, w: DISPLAY_W, h: ROW_CTL_H },
                capture: Placed { x: capture_x, y: ky, w: m.capture_btn, h: ROW_CTL_H },
            },
        );
        ky = ky + KEY_ROW_PITCH;
        k += 1;
    }
    let wake_h: i32 = if m.wake_text + 28 > inner {
        36
    } else {
        22
    };
    let wake_check = Placed { x, y: ky, w: inner, h: wake_h };
    ky = ky + max_i32(wake_h, 24) + FIELD_BLOCK_GAP;
    let wake_caption = Placed { x, y: ky, w: m.caption_col, h: LABEL_H };
    let wake_value = Placed { x: rest_x, y: ky, w: value_w, h: LABEL_H };
    let wake_capture = Placed { x: capture_x, y: ky, w: m.capture_btn, h: ROW_CTL_H };
    ky = ky + KEY_ROW_PITCH;
    let reset = Placed { x, y: ky, w: m.reset_btn, h: 26 };
    ky = ky + 26 + FIELD_BLOCK_GAP;
    let g_keys_h = max_i32(ky - KEYS_TOP, 80);
    let keys_group = Placed { x: 12, y: KEYS_TOP, w: content_w, h: g_keys_h };
    let legend_top = KEYS_TOP + g_keys_h + KEYS_GROUP_GAP;
    ky = legend_top + 28;
    let col_w = max_i32((inner - 16) / 2, 160);
    let right_x = x + col_w + 16;
    let legend_idle_label = Placed { x, y: ky, w: col_w, h: LABEL_H };
    let legend_multi_label = Placed { x: right_x, y: ky, w: col_w, h: LABEL_H };
    ky = ky + LABEL_H + LABEL_STACK_GAP;
    let mut legend_checks: Vec<(Placed, Placed)> = Vec::new();
    let mut i: usize = 0;
    while i < LEGEND_ROWS
        invariant
            0 <= i <= LEGEND_ROWS,
            keys_widths_ok(panel_w, panel_h, m),
            panel_w > 0,
            x == STACK_X,
            inner == inner_w_spec(panel_w),
            col_w == legend_col_w(panel_w),
            right_x == legend_right_x(panel_w),
            ky == legend_check_y(panel_w, m, i as int),
            legend_checks@.len() == i,
            forall|j: int| 0 <= j < i ==> #[trigger] legend_checks@[j] == legend_check_spec(panel_w, m, j),
        decreases LEGEND_ROWS - i,
    {
        legend_checks.push((Placed { x, y: ky, w: col_w, h: 22 }, Placed { x: right_x, y: ky, w: col_w, h: 22 }));
        ky = ky + LEGEND_ROW_PITCH;
        i += 1;
    }
    ky = ky + FIELD_BLOCK_GAP;
    let idle_up = Placed { x, y: ky, w: m.idle_up, h: 24 };
    let idle_down = Placed { x: x + m.idle_up + 8, y: ky, w: m.idle_down, h: 24 };
    let multi_up = Placed { x: right_x, y: ky, w: m.multi_up, h: 24 };
    let multi_down = Placed { x: right_x + m.multi_up + 8, y: ky, w: m.multi_down, h: 24 };
    ky = ky + 24 + FIELD_BLOCK_GAP;
    let legend_group = Placed { x: 12, y: legend_top, w: content_w, h: max_i32(ky - legend_top, 80) };
    ky = ky + KEYS_GROUP_GAP;
    let capture_status = Placed { x, y: ky, w: inner, h: CAPTURE_STATUS_H };
    ky = ky + CAPTURE_STATUS_H;
    Some(
        KeysLayout {
            set_label,
            set_combo,
            rows,
            wake_check,
            wake_caption,
            wake_value,
            wake_capture,
            reset,
            keys_group,
            legend_idle_label,
            legend_multi_label,
            legend_checks,
            idle_up,
            idle_down,
            multi_up,
            multi_down,
            legend_group,
            capture_status,
            height: ky,
        },
    )
}

/// The action-key rows line up: every row's Capture button sits in the
/// same column as the wake row's, right of the display box, and each row
/// starts below the previous one.
pub proof fn lemma_key_rows_aligned(panel_w: i32, m: KeysWidths, k: int)
    requires
        keys_widths_ok(panel_w, 1, m),
        0 <= k < ACTION_ROWS,
    ensures
        key_row_spec(panel_w, m, k).capture.x == capture_x_spec(panel_w, m),
        key_row_spec(panel_w, m, k).display.x + DISPLAY_W < key_row_spec(panel_w, m, k).capture.x,
        key_row_spec(panel_w, m, k).value.x + key_row_spec(panel_w, m, k).value.w < key_row_spec(
            panel_w,
            m,
            k,
        ).display.x,
        k + 1 < ACTION_ROWS ==> key_row_spec(panel_w, m, k).caption.y + LABEL_H < key_row_spec(
            panel_w,
            m,
            k + 1,
        ).caption.y,
        key_row_spec(panel_w, m, k).caption.y + LABEL_H < wake_check_y(),
{
}

} // verus!
