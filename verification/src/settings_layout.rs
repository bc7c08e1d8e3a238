//! Settings window geometry: page band, DPI scaling, window size against the
//! work area, track sizes, footer buttons and the Slots form stack.

use vstd::prelude::*;

use crate::placement::{fits_i32, WorkArea};

verus! {

pub const TAB_BAND_H: i32 = 42;
pub const FOOTER_BOTTOM_PAD: i32 = 12;
pub const FOOTER_BTN_H: i32 = 28;
pub const FOOTER_BAND_H: i32 = 52;
pub const FOOTER_BTN_GAP: i32 = 12;
pub const FOOTER_RIGHT_PAD: i32 = 20;
pub const FOOTER_BTN_PAD_X: i32 = 24;
pub const FOOTER_BTN_W_MIN: i32 = 72;
pub const FOOTER_MARGIN: i32 = 12;
pub const SETTINGS_MIN_CLIENT_W: i32 = 640;
pub const SETTINGS_MIN_CLIENT_H: i32 = 400;
pub const SETTINGS_PROVISIONAL_W: i32 = 900;
pub const SETTINGS_PROVISIONAL_H: i32 = 700;
pub const SETTINGS_CONTENT_W: i32 = 804;
pub const LABEL_STACK_GAP: i32 = 4;
pub const FIELD_BLOCK_GAP: i32 = 12;
pub const SLOTS_DESC_H_DEFAULT: i32 = 72;
pub const SLOTS_FORM_LABEL_H: i32 = 26;
pub const SLOTS_FORM_EDIT_H: i32 = 24;
pub const SLOTS_WARN_H: i32 = 56;
pub const SLOTS_OPEN_WORKDIR_H: i32 = 22;
pub const MODE_CHORD_LIST_H_MIN: i32 = 72;
/// Gap kept between the window and the work-area edges when shrinking.
pub const WORK_AREA_MARGIN: i32 = 8;

pub open spec fn max_int(a: int, b: int) -> int {
    if a >= b {
        a
    } else {
        b
    }
}

pub open spec fn min_int(a: int, b: int) -> int {
    if a <= b {
        a
    } else {
        b
    }
}

pub open spec fn fits_all(s: Seq<int>) -> bool {
    forall|i: int| 0 <= i < s.len() ==> fits_i32(#[trigger] s[i])
}

/// Page band of the client area `(0, 0, right, bottom)`: under the tabs,
/// above the footer, never smaller than 100×100.
pub open spec fn page_panel_spec(right: i32, bottom: i32) -> (int, int, int, int) {
    (0, TAB_BAND_H as int, max_int(right as int, 100), max_int(bottom - TAB_BAND_H - FOOTER_BAND_H, 100))
}

pub fn page_panel_rect(right: i32, bottom: i32) -> (r: (i32, i32, i32, i32))
    requires
        fits_i32(bottom - TAB_BAND_H - FOOTER_BAND_H),
    ensures
        (r.0 as int, r.1 as int, r.2 as int, r.3 as int) == page_panel_spec(right, bottom),
{
    let w = if right > 100 {
        right
    } else {
        100
    };
    let h0 = bottom - TAB_BAND_H - FOOTER_BAND_H;
    let h = if h0 > 100 {
        h0
    } else {
        100
    };
    (0, TAB_BAND_H, w, h)
}

/// `value` at `dpi` (never below 96), truncated toward zero, then to 32 bits.
pub open spec fn scale_spec(value: i32, dpi: u32) -> i32 {
    let d = max_int(dpi as int, 96);
    let p = value * d;
    let q = if p >= 0 {
        p / 96
    } else {
        -((-p) / 96)
    };
    q as i32
}

pub fn scale_for_dpi(value: i32, dpi: u32) -> (r: i32)
    ensures
        r == scale_spec(value, dpi),
{
    let d: u32 = if dpi > 96 {
        dpi
    } else {
        96
    };
    assert(-0x8000_0000 * 0xFFFF_FFFF <= value * d <= 0x7FFF_FFFF * 0xFFFF_FFFF) by (nonlinear_arith)
        requires
            -0x8000_0000 <= value <= 0x7FFF_FFFF,
            96 <= d <= 0xFFFF_FFFF,
    ;
    let p: i64 = (value as i64) * (d as i64);
    let q: i64 = p / 96;
    assert(q == (if p >= 0 {
        p / 96
    } else {
        -((-p) / 96)
    }));
    #[verifier::truncate]
    (q as i32)
}

/// Shrink a window size to the work area (less a small margin, but never
/// below 320×240); without a known work area the size stays.
pub open spec fn clamp_size_spec(w: i32, h: i32, wa: Option<WorkArea>) -> (int, int) {
    match wa {
        None => (w as int, h as int),
        Some(a) => {
            let max_w = max_int(a.right - a.left - WORK_AREA_MARGIN, 320);
            let max_h = max_int(a.bottom - a.top - WORK_AREA_MARGIN, 240);
            (min_int(w as int, max_w), min_int(h as int, max_h))
        },
    }
}

pub open spec fn work_area_ok(wa: Option<WorkArea>) -> bool {
    wa matches Some(a) ==> fits_all(
        seq![a.right - a.left, a.right - a.left - WORK_AREA_MARGIN, a.bottom - a.top, a.bottom - a.top - WORK_AREA_MARGIN],
    )
}

pub fn clamp_size_to_work_area(w: i32, h: i32, wa: Option<WorkArea>) -> (r: (i32, i32))
    requires
        work_area_ok(wa),
    ensures
        (r.0 as int, r.1 as int) == clamp_size_spec(w, h, wa),
{
    match wa {
        None => (w, h),
        Some(a) => {
            assert(fits_i32(a.right - a.left - WORK_AREA_MARGIN));
            assert(fits_i32(a.bottom - a.top - WORK_AREA_MARGIN));
            assert(fits_i32(a.right - a.left));
            assert(fits_i32(a.bottom - a.top));
            let mw0 = a.right - a.left - WORK_AREA_MARGIN;
            let max_w = if mw0 > 320 {
                mw0
            } else {
                320
            };
            let mh0 = a.bottom - a.top - WORK_AREA_MARGIN;
            let max_h = if mh0 > 240 {
                mh0
            } else {
                240
            };
            (if w < max_w {
                w
            } else {
                max_w
            }, if h < max_h {
                h
            } else {
                max_h
            })
        },
    }
}

/// Shrinking never enlarges the window.
pub proof fn lemma_clamp_size_never_enlarges(w: i32, h: i32, wa: Option<WorkArea>)
    ensures
        clamp_size_spec(w, h, wa).0 <= w,
        clamp_size_spec(w, h, wa).1 <= h,
{
}

/// Outer window size for a client size. `adjusted` is the frame-inclusive
/// size reported by `AdjustWindowRectExForDpi` for the client size (raised to
/// at least 100×100), when that call succeeded; otherwise a fixed frame
/// allowance is added.
pub open spec fn outer_size_spec(client_w: i32, client_h: i32, adjusted: Option<(i32, i32)>) -> (int, int) {
    match adjusted {
        Some((aw, ah)) => (max_int(aw as int, client_w as int), max_int(ah as int, client_h as int)),
        None => (client_w + 16, client_h + 59),
    }
}

pub fn outer_size_for_client(client_w: i32, client_h: i32, adjusted: Option<(i32, i32)>) -> (r: (
    i32,
    i32,
))
    requires
        adjusted is None ==> fits_i32(client_w + 16) && fits_i32(client_h + 59),
    ensures
        (r.0 as int, r.1 as int) == outer_size_spec(client_w, client_h, adjusted),
{
    match adjusted {
        Some((aw, ah)) => (if aw > client_w {
            aw
        } else {
            client_w
        }, if ah > client_h {
            ah
        } else {
            client_h
        }),
        None => (client_w + 16, client_h + 59),
    }
}

/// Client size for the measured tab contents: the tallest tab that is
/// shown (Advanced tabs only with Advanced on) plus 8, between the tab band
/// and the footer; never under the minimum client size.
/// `heights`: Slots, Keys, Triggers, Search, Mode, General.
pub open spec fn client_size_spec(
    heights: [i32; 6],
    show_advanced: bool,
    autostart_label_w: i32,
) -> (int, int) {
    let base = max_int(heights[0] as int, heights[5] as int);
    let panel = if show_advanced {
        max_int(
            max_int(max_int(max_int(base, heights[1] as int), heights[2] as int), heights[3] as int),
            heights[4] as int,
        )
    } else {
        base
    } + 8;
    let client_w = max_int(
        max_int(SETTINGS_CONTENT_W as int, autostart_label_w + 56),
        SETTINGS_MIN_CLIENT_W as int,
    );
    let client_h = max_int(TAB_BAND_H + panel + FOOTER_BAND_H, SETTINGS_MIN_CLIENT_H as int);
    (client_w, client_h)
}

pub fn settings_client_size(heights: [i32; 6], show_advanced: bool, autostart_label_w: i32) -> (r: (
    i32,
    i32,
))
    requires
        fits_i32(autostart_label_w + 56),
        forall|i: int| 0 <= i < 6 ==> #[trigger] heights[i] <= i32::MAX - 8 - TAB_BAND_H - FOOTER_BAND_H,
    ensures
        (r.0 as int, r.1 as int) == client_size_spec(heights, show_advanced, autostart_label_w),
{
    let mut panel: i32 = if heights[0] > heights[5] {
        heights[0]
    } else {
        heights[5]
    };
    if show_advanced {
        let mut i: usize = 1;
        while i < 5
            invariant
                1 <= i <= 5,
                panel as int == (if i == 1 {
                    max_int(heights[0] as int, heights[5] as int)
                } else if i == 2 {
                    max_int(max_int(heights[0] as int, heights[5] as int), heights[1] as int)
                } else if i == 3 {
                    max_int(max_int(max_int(heights[0] as int, heights[5] as int), heights[1] as int), heights[2] as int)
                } else if i == 4 {
                    max_int(max_int(max_int(max_int(heights[0] as int, heights[5] as int), heights[1] as int), heights[2] as int), heights[3] as int)
                } else {
                    max_int(max_int(max_int(max_int(max_int(heights[0] as int, heights[5] as int), heights[1] as int), heights[2] as int), heights[3] as int), heights[4] as int)
                }),
                forall|k: int| 0 <= k < 6 ==> #[trigger] heights[k] <= i32::MAX - 8 - TAB_BAND_H - FOOTER_BAND_H,
                panel <= i32::MAX - 8 - TAB_BAND_H - FOOTER_BAND_H,
            decreases 5 - i,
        {
            if heights[i] > panel {
                panel = heights[i];
            }
            i += 1;
        }
    }
    let panel = panel + 8;
    let auto_w = autostart_label_w + 56;
    let w0 = if SETTINGS_CONTENT_W > auto_w {
        SETTINGS_CONTENT_W
    } else {
        auto_w
    };
    let client_w = if w0 > SETTINGS_MIN_CLIENT_W {
        w0
    } else {
        SETTINGS_MIN_CLIENT_W
    };
    let h0 = TAB_BAND_H + panel + FOOTER_BAND_H;
    let client_h = if h0 > SETTINGS_MIN_CLIENT_H {
        h0
    } else {
        SETTINGS_MIN_CLIENT_H
    };
    (client_w, client_h)
}

/// Minimum and maximum tracking sizes: the minimum outer size, but never
/// more than the work area allows (so the window cannot be forced under the
/// taskbar); without a work area only the minimum is set.
pub open spec fn track_spec(min_w: i32, min_h: i32, wa: Option<WorkArea>) -> ((int, int), Option<(int, int)>) {
    match wa {
        None => ((min_w as int, min_h as int), None),
        Some(a) => {
            let max_w = max_int(a.right - a.left - WORK_AREA_MARGIN, 320);
            let max_h = max_int(a.bottom - a.top - WORK_AREA_MARGIN, 240);
            ((min_int(min_w as int, max_w), min_int(min_h as int, max_h)), Some((max_w, max_h)))
        },
    }
}

pub fn track_sizes(min_w: i32, min_h: i32, wa: Option<WorkArea>) -> (r: ((i32, i32), Option<(i32, i32)>))
    requires
        work_area_ok(wa),
    ensures
        ((r.0.0 as int, r.0.1 as int), match r.1 {
            Some((x, y)) => Some((x as int, y as int)),
            None => None,
        }) == track_spec(min_w, min_h, wa),
{
    match wa {
        None => ((min_w, min_h), None),
        Some(a) => {
            let (mw, mh) = clamp_size_to_work_area(i32::MAX, i32::MAX, wa);
            let w = if min_w < mw {
                min_w
            } else {
                mw
            };
            let h = if min_h < mh {
                min_h
            } else {
                mh
            };
            ((w, h), Some((mw, mh)))
        },
    }
}

/// The minimum tracking size never exceeds the maximum one.
pub proof fn lemma_track_min_le_max(min_w: i32, min_h: i32, wa: Option<WorkArea>)
    ensures
        track_spec(min_w, min_h, wa).1 matches Some((mx, my)) ==> track_spec(min_w, min_h, wa).0.0
            <= mx && track_spec(min_w, min_h, wa).0.1 <= my,
{
}

/// Button width for a caption of pixel width `text_w`: padded, at least the
/// minimum button width.
pub open spec fn fitted_width_spec(text_w: i32) -> int {
    max_int(text_w + FOOTER_BTN_PAD_X, FOOTER_BTN_W_MIN as int)
}

pub fn fitted_button_width(text_w: i32) -> (r: i32)
    requires
        fits_i32(text_w + FOOTER_BTN_PAD_X),
    ensures
        r as int == fitted_width_spec(text_w),
{
    let w = text_w + FOOTER_BTN_PAD_X;
    if w > FOOTER_BTN_W_MIN {
        w
    } else {
        FOOTER_BTN_W_MIN
    }
}

/// Widths of the footer buttons.
#[derive(Clone, Copy, Debug)]
pub struct FooterWidths {
    pub add: i32,
    pub delete: i32,
    pub swap: i32,
    pub update: i32,
    pub save: i32,
    pub apply: i32,
    pub cancel: i32,
}

/// Footer button x positions and row y; the Slots buttons are shown only on
/// the Slots tab.
#[derive(Clone, Copy, Debug, PartialEq, Eq, Structural)]
pub struct FooterLayout {
    pub y: i32,
    pub add_x: i32,
    pub delete_x: i32,
    pub swap_x: i32,
    pub update_x: i32,
    pub save_x: i32,
    pub apply_x: i32,
    pub cancel_x: i32,
    pub slot_buttons_visible: bool,
}

pub open spec fn footer_y(bottom: i32) -> int {
    max_int(bottom - FOOTER_BOTTOM_PAD - FOOTER_BTN_H, TAB_BAND_H + 8)
}

pub open spec fn cancel_x_spec(right: i32, w: FooterWidths) -> int {
    max_int(right - FOOTER_RIGHT_PAD - w.cancel, 8)
}

pub open spec fn apply_x_spec(right: i32, w: FooterWidths) -> int {
    max_int(cancel_x_spec(right, w) - FOOTER_BTN_GAP - w.apply, 8)
}

pub open spec fn save_x_spec(right: i32, w: FooterWidths) -> int {
    max_int(apply_x_spec(right, w) - FOOTER_BTN_GAP - w.save, 8)
}

/// Right edge of the Update button when the Slots buttons are packed from the left.
pub open spec fn update_right_spec(w: FooterWidths) -> int {
    FOOTER_MARGIN + w.add + FOOTER_BTN_GAP + w.delete + FOOTER_BTN_GAP + w.swap + FOOTER_BTN_GAP
        + w.update
}

/// Not enough room between Update and Save: the whole row is packed from the
/// left with regular gaps.
pub open spec fn packed_spec(right: i32, w: FooterWidths) -> bool {
    update_right_spec(w) + FOOTER_BTN_GAP > save_x_spec(right, w)
}

pub open spec fn footer_spec(right: i32, bottom: i32, w: FooterWidths, slots_on: bool) -> (
    int,
    int,
    int,
    int,
    int,
    int,
    int,
    int,
    bool,
) {
    let y = footer_y(bottom);
    let m = FOOTER_MARGIN as int;
    let g = FOOTER_BTN_GAP as int;
    let del_x = m + w.add + g;
    let swap_x = del_x + w.delete + g;
    let upd_x = swap_x + w.swap + g;
    if slots_on && packed_spec(right, w) {
        let save_x = upd_x + w.update + g;
        let apply_x = save_x + w.save + g;
        let cancel_x = apply_x + w.apply + g;
        (y, m, del_x, swap_x, upd_x, save_x, apply_x, cancel_x, true)
    } else if slots_on {
        (y, m, del_x, swap_x, upd_x, save_x_spec(right, w), apply_x_spec(right, w), cancel_x_spec(right, w), true)
    } else {
        (y, m, m, m, m, save_x_spec(right, w), apply_x_spec(right, w), cancel_x_spec(right, w), false)
    }
}

/// Every intermediate value of the footer computation fits in 32 bits.
pub open spec fn footer_ok(right: i32, bottom: i32, w: FooterWidths) -> bool {
    let g = FOOTER_BTN_GAP as int;
    let m = FOOTER_MARGIN as int;
    fits_all(
        seq![
            bottom - FOOTER_BOTTOM_PAD,
            bottom - FOOTER_BOTTOM_PAD - FOOTER_BTN_H,
            right - FOOTER_RIGHT_PAD,
            right - FOOTER_RIGHT_PAD - w.cancel,
            cancel_x_spec(right, w) - g,
            cancel_x_spec(right, w) - g - w.apply,
            apply_x_spec(right, w) - g,
            apply_x_spec(right, w) - g - w.save,
            m + w.add,
            m + w.add + g,
            m + w.add + g + w.delete,
            m + w.add + g + w.delete + g,
            m + w.add + g + w.delete + g + w.swap,
            m + w.add + g + w.delete + g + w.swap + g,
            m + w.add + g + w.delete + g + w.swap + g + w.update,
            m + w.add + g + w.delete + g + w.swap + g + w.update + g,
            m + w.add + g + w.delete + g + w.swap + g + w.update + g + w.save,
            m + w.add + g + w.delete + g + w.swap + g + w.update + g + w.save + g,
            m + w.add + g + w.delete + g + w.swap + g + w.update + g + w.save + g + w.apply,
            m + w.add + g + w.delete + g + w.swap + g + w.update + g + w.save + g + w.apply + g,
        ],
    )
}

pub open spec fn layout_tuple(l: FooterLayout) -> (int, int, int, int, int, int, int, int, bool) {
    (
        l.y as int,
        l.add_x as int,
        l.delete_x as int,
        l.swap_x as int,
        l.update_x as int,
        l.save_x as int,
        l.apply_x as int,
        l.cancel_x as int,
        l.slot_buttons_visible,
    )
}

/// Place the footer: Save / Apply / Cancel from the right, and on the Slots
/// tab Add / Delete / Swap / Update from the left.
pub fn footer_layout(right: i32, bottom: i32, w: FooterWidths, slots_on: bool) -> (r: FooterLayout)
    requires
        footer_ok(right, bottom, w),
    ensures
        layout_tuple(r) == footer_spec(right, bottom, w, slots_on),
{
    let ghost vals = seq![
        bottom - FOOTER_BOTTOM_PAD,
        bottom - FOOTER_BOTTOM_PAD - FOOTER_BTN_H,
        right - FOOTER_RIGHT_PAD,
        right - FOOTER_RIGHT_PAD - w.cancel,
        cancel_x_spec(right, w) - 12,
        cancel_x_spec(right, w) - 12 - w.apply,
        apply_x_spec(right, w) - 12,
        apply_x_spec(right, w) - 12 - w.save,
        12 + w.add,
        12 + w.add + 12,
        12 + w.add + 12 + w.delete,
        12 + w.add + 12 + w.delete + 12,
        12 + w.add + 12 + w.delete + 12 + w.swap,
        12 + w.add + 12 + w.delete + 12 + w.swap + 12,
        12 + w.add + 12 + w.delete + 12 + w.swap + 12 + w.update,
        12 + w.add + 12 + w.delete + 12 + w.swap + 12 + w.update + 12,
        12 + w.add + 12 + w.delete + 12 + w.swap + 12 + w.update + 12 + w.save,
        12 + w.add + 12 + w.delete + 12 + w.swap + 12 + w.update + 12 + w.save + 12,
        12 + w.add + 12 + w.delete + 12 + w.swap + 12 + w.update + 12 + w.save + 12 + w.apply,
        12 + w.add + 12 + w.delete + 12 + w.swap + 12 + w.update + 12 + w.save + 12 + w.apply + 12,
    ];
    assert(fits_all(vals));
    assert(fits_i32(vals[0]) && fits_i32(vals[1]) && fits_i32(vals[2]) && fits_i32(vals[3]));
    assert(fits_i32(vals[4]) && fits_i32(vals[5]) && fits_i32(vals[6]) && fits_i32(vals[7]));
    assert(fits_i32(vals[8]) && fits_i32(vals[9]) && fits_i32(vals[10]) && fits_i32(vals[11]));
    assert(fits_i32(vals[12]) && fits_i32(vals[13]) && fits_i32(vals[14]) && fits_i32(vals[15]));
    assert(fits_i32(vals[16]) && fits_i32(vals[17]) && fits_i32(vals[18]) && fits_i32(vals[19]));
    let y0 = bottom - FOOTER_BOTTOM_PAD - FOOTER_BTN_H;
    let y = if y0 > TAB_BAND_H + 8 {
        y0
    } else {
        TAB_BAND_H + 8
    };
    let c0 = right - FOOTER_RIGHT_PAD - w.cancel;
    let cancel_x = if c0 > 8 {
        c0
    } else {
        8
    };
    let a0 = cancel_x - FOOTER_BTN_GAP - w.apply;
    let apply_x = if a0 > 8 {
        a0
    } else {
        8
    };
    let s0 = apply_x - FOOTER_BTN_GAP - w.save;
    let save_x = if s0 > 8 {
        s0
    } else {
        8
    };
    let m = FOOTER_MARGIN;
    let g = FOOTER_BTN_GAP;
    if slots_on {
        let del_x = m + w.add + g;
        let swap_x = del_x + w.delete + g;
        let upd_x = swap_x + w.swap + g;
        let update_right = upd_x + w.update;
        if update_right + g > save_x {
            let sx = update_right + g;
            let ax = sx + w.save + g;
            let cx = ax + w.apply + g;
            FooterLayout {
                y,
                add_x: m,
                delete_x: del_x,
                swap_x,
                update_x: upd_x,
                save_x: sx,
                apply_x: ax,
                cancel_x: cx,
                slot_buttons_visible: true,
            }
        } else {
            FooterLayout {
                y,
                add_x: m,
                delete_x: del_x,
                swap_x,
                update_x: upd_x,
                save_x,
                apply_x,
                cancel_x,
                slot_buttons_visible: true,
            }
        }
    } else {
        FooterLayout {
            y,
            add_x: m,
            delete_x: m,
            swap_x: m,
            update_x: m,
            save_x,
            apply_x,
            cancel_x,
            slot_buttons_visible: false,
        }
    }
}

/// On the Slots tab the spare room sits between Update and Save and that gap
/// is never below the regular button gap; when there is no room the whole
/// row is packed with regular gaps. Either way the buttons never overlap.
pub proof fn lemma_footer_gaps(right: i32, bottom: i32, w: FooterWidths)
    requires
        w.add >= 0,
        w.delete >= 0,
        w.swap >= 0,
        w.update >= 0,
        w.save >= 0,
        w.apply >= 0,
        w.cancel >= 0,
    ensures
        ({
            let l = footer_spec(right, bottom, w, true);
            &&& l.1 + w.add + FOOTER_BTN_GAP == l.2
            &&& l.2 + w.delete + FOOTER_BTN_GAP == l.3
            &&& l.3 + w.swap + FOOTER_BTN_GAP == l.4
            &&& l.4 + w.update + FOOTER_BTN_GAP <= l.5
            &&& l.5 + w.save <= l.6
            &&& l.6 + w.apply <= l.7
        }),
{
}

/// Client width the footer row needs: all seven buttons with regular gaps.
pub open spec fn footer_row_min_spec(w: FooterWidths) -> int {
    12 + (w.add + w.delete + w.swap + w.update + w.save + w.apply + w.cancel) + FOOTER_BTN_GAP * 6
        + FOOTER_RIGHT_PAD
}

pub fn footer_row_min_client_w(w: FooterWidths) -> (r: i32)
    requires
        fits_i32(footer_row_min_spec(w)),
        w.add >= 0,
        w.delete >= 0,
        w.swap >= 0,
        w.update >= 0,
        w.save >= 0,
        w.apply >= 0,
        w.cancel >= 0,
    ensures
        r as int == footer_row_min_spec(w),
{
    let sum: i32 = w.add + w.delete + w.swap + w.update + w.save + w.apply + w.cancel;
    12 + sum + FOOTER_BTN_GAP * 6 + FOOTER_RIGHT_PAD
}

/// Height of the stacked Slots form (id/name through description and the
/// warning line) for a description and warning height.
pub open spec fn slots_form_stack_spec(desc_h: i32, warn_h: i32) -> int {
    let labeled_edit = SLOTS_FORM_LABEL_H + LABEL_STACK_GAP + SLOTS_FORM_EDIT_H + FIELD_BLOCK_GAP;
    let chk = SLOTS_OPEN_WORKDIR_H + FIELD_BLOCK_GAP;
    labeled_edit * 3 + chk * 3 + SLOTS_FORM_LABEL_H + LABEL_STACK_GAP + desc_h + FIELD_BLOCK_GAP
        + warn_h
}

pub fn slots_form_stack_h(desc_h: i32, warn_h: i32) -> (r: i32)
    requires
        fits_i32(slots_form_stack_spec(desc_h, warn_h)),
        fits_i32(desc_h + 300),
        desc_h >= 0,
        warn_h >= 0,
    ensures
        r as int == slots_form_stack_spec(desc_h, warn_h),
{
    let labeled_edit = SLOTS_FORM_LABEL_H + LABEL_STACK_GAP + SLOTS_FORM_EDIT_H + FIELD_BLOCK_GAP;
    let chk = SLOTS_OPEN_WORKDIR_H + FIELD_BLOCK_GAP;
    labeled_edit * 3 + chk * 3 + SLOTS_FORM_LABEL_H + LABEL_STACK_GAP + desc_h + FIELD_BLOCK_GAP
        + warn_h
}

/// Visible height for `rows` list items of height `item_h` (16 when the
/// reported height is implausible), at least the minimum list height.
pub open spec fn listbox_rows_spec(item_h: i32, rows: i32) -> int {
    let row = if item_h > 4 {
        item_h as int
    } else {
        16
    };
    max_int(row * rows + 4, MODE_CHORD_LIST_H_MIN as int)
}

pub fn listbox_rows_h(item_h: i32, rows: i32) -> (r: i32)
    requires
        0 <= rows <= 1000,
        item_h <= 1_000_000,
    ensures
        r as int == listbox_rows_spec(item_h, rows),
{
    let row: i32 = if item_h > 4 {
        item_h
    } else {
        16
    };
    assert(row * rows <= 1_000_000 * 1000) by (nonlinear_arith)
        requires
            row <= 1_000_000,
            0 <= rows <= 1000,
    ;
    assert(row * rows >= i32::MIN) by (nonlinear_arith)
        requires
            row >= i32::MIN,
            0 <= rows <= 1000,
            row > 4 || row == 16,
    ;
    let h = row * rows + 4;
    if h > MODE_CHORD_LIST_H_MIN {
        h
    } else {
        MODE_CHORD_LIST_H_MIN
    }
}

/// The widest of the measured caption widths, never below 72.
pub open spec fn widest_caption(widths: Seq<i32>) -> int
    decreases widths.len(),
{
    if widths.len() == 0 {
        72
    } else {
        max_int(widest_caption(widths.drop_last()), widths.last() as int)
    }
}

/// Caption column width for the action-key rows: the widest caption
/// (at least 72) plus 16, kept between 80 and two fifths of the inner width.
pub open spec fn caption_col_spec(inner_w: i32, widest: int) -> int {
    let w = widest + 16;
    let hi = max_int(inner_w * 2 / 5, 80);
    if w < 80 {
        80
    } else if w > hi {
        hi
    } else {
        w
    }
}

pub fn action_key_caption_col_w(inner_w: i32, label_widths: &[i32]) -> (r: i32)
    requires
        fits_i32(inner_w * 2),
        forall|i: int| 0 <= i < label_widths@.len() ==> #[trigger] label_widths@[i] <= i32::MAX - 16,
    ensures
        r as int == caption_col_spec(inner_w, widest_caption(label_widths@)),
{
    let mut w: i32 = 72;
    let mut i: usize = 0;
    while i < label_widths.len()
        invariant
            0 <= i <= label_widths.len(),
            forall|k: int| 0 <= k < label_widths@.len() ==> #[trigger] label_widths@[k] <= i32::MAX - 16,
            w as int == widest_caption(label_widths@.take(i as int)),
            72 <= w <= i32::MAX - 16,
        decreases label_widths.len() - i,
    {
        assert(label_widths@.take(i as int + 1).drop_last() =~= label_widths@.take(i as int));
        if label_widths[i] > w {
            w = label_widths[i];
        }
        i += 1;
    }
    assert(label_widths@.take(i as int) =~= label_widths@);
    let cw = w + 16;
    let hi0 = inner_w * 2 / 5;
    let hi = if hi0 > 80 {
        hi0
    } else {
        80
    };
    assert(hi0 == inner_w * 2 / 5 || inner_w * 2 < 0);
    if cw < 80 {
        80
    } else if cw > hi {
        hi
    } else {
        cw
    }
}

} // verus!
