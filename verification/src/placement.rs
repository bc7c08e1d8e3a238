//! Window placement: anchor a window in a monitor work area with a
//! DPI-scaled inset, and keep it inside that work area.

use vstd::prelude::*;

verus! {

/// Gap from work-area edges at 96 DPI; scales with monitor DPI.
pub const INSET_AT_96: i32 = 20;

/// A monitor work area (`RECT`, right/bottom exclusive).
#[derive(Clone, Copy, Debug, PartialEq, Eq, Structural)]
pub struct WorkArea {
    pub left: i32,
    pub top: i32,
    pub right: i32,
    pub bottom: i32,
}

pub open spec fn fits_i32(v: int) -> bool {
    i32::MIN <= v <= i32::MAX
}

/// Inputs for which `clamp_top_left` stays within 32-bit arithmetic.
pub open spec fn clamp_ok(x: i32, y: i32, width: i32, height: i32, wa: WorkArea) -> bool {
    &&& fits_i32(x + width)
    &&& fits_i32(y + height)
    &&& (x + width > wa.right ==> fits_i32(wa.right - width))
    &&& (y + height > wa.bottom ==> fits_i32(wa.bottom - height))
}

/// Pull the top-left corner so the window's far edges are inside the work
/// area, then so its near edges are (the near edges win when it is too big).
pub open spec fn clamp_spec(x: i32, y: i32, width: i32, height: i32, wa: WorkArea) -> (i32, i32) {
    let x1 = if x + width > wa.right {
        (wa.right - width) as i32
    } else {
        x
    };
    let y1 = if y + height > wa.bottom {
        (wa.bottom - height) as i32
    } else {
        y
    };
    let x2 = if x1 < wa.left {
        wa.left
    } else {
        x1
    };
    let y2 = if y1 < wa.top {
        wa.top
    } else {
        y1
    };
    (x2, y2)
}

pub fn clamp_top_left(x: i32, y: i32, width: i32, height: i32, wa: WorkArea) -> (r: (i32, i32))
    requires
        clamp_ok(x, y, width, height, wa),
    ensures
        r == clamp_spec(x, y, width, height, wa),
{
    let mut x = x;
    let mut y = y;
    if x + width > wa.right {
        x = wa.right - width;
    }
    if y + height > wa.bottom {
        y = wa.bottom - height;
    }
    if x < wa.left {
        x = wa.left;
    }
    if y < wa.top {
        y = wa.top;
    }
    (x, y)
}

/// A window that fits in the work area ends up wholly inside it.
pub proof fn lemma_clamp_inside(x: i32, y: i32, width: i32, height: i32, wa: WorkArea)
    requires
        clamp_ok(x, y, width, height, wa),
        0 <= width <= wa.right - wa.left,
        0 <= height <= wa.bottom - wa.top,
    ensures
        wa.left <= clamp_spec(x, y, width, height, wa).0,
        clamp_spec(x, y, width, height, wa).0 + width <= wa.right,
        wa.top <= clamp_spec(x, y, width, height, wa).1,
        clamp_spec(x, y, width, height, wa).1 + height <= wa.bottom,
{
}

/// A window that is already inside the work area is left where it is.
pub proof fn lemma_clamp_keeps_inside(x: i32, y: i32, width: i32, height: i32, wa: WorkArea)
    requires
        clamp_ok(x, y, width, height, wa),
        wa.left <= x,
        x + width <= wa.right,
        wa.top <= y,
        y + height <= wa.bottom,
    ensures
        clamp_spec(x, y, width, height, wa) == (x, y),
{
}

/// Clamping twice is clamping once.
pub proof fn lemma_clamp_idempotent(x: i32, y: i32, width: i32, height: i32, wa: WorkArea)
    requires
        clamp_ok(x, y, width, height, wa),
        width >= 0,
        height >= 0,
        clamp_ok(
            clamp_spec(x, y, width, height, wa).0,
            clamp_spec(x, y, width, height, wa).1,
            width,
            height,
            wa,
        ),
    ensures
        clamp_spec(
            clamp_spec(x, y, width, height, wa).0,
            clamp_spec(x, y, width, height, wa).1,
            width,
            height,
            wa,
        ) == clamp_spec(x, y, width, height, wa),
{
}

/// Inset for a work area whose monitor DPI is `dpi` (`None` when it could not
/// be read: the 96-DPI inset).
pub open spec fn inset_spec(dpi: Option<u32>) -> i32 {
    match dpi {
        Some(d) => ((INSET_AT_96 * d) / 96) as i32,
        None => INSET_AT_96,
    }
}

pub fn inset_for_dpi(dpi: Option<u32>) -> (r: i32)
    ensures
        r == inset_spec(dpi),
{
    match dpi {
        Some(d) => {
            let v: i64 = (INSET_AT_96 as i64) * (d as i64) / 96;
            assert(v <= 0xFFFF_FFFF * 20 / 96) by (nonlinear_arith)
                requires
                    v == 20 * (d as int) / 96,
                    d <= 0xFFFF_FFFF,
            ;
            v as i32
        },
        None => INSET_AT_96,
    }
}

/// Typing window anchor: top-right of the work area, moved in by the inset.
pub open spec fn typing_anchor(width: i32, height: i32, wa: WorkArea, inset: i32) -> (int, int) {
    (wa.right - inset - width, wa.top + inset)
}

/// Search window anchor: bottom-right of the work area, moved in by the inset.
pub open spec fn search_anchor(width: i32, height: i32, wa: WorkArea, inset: i32) -> (int, int) {
    (wa.right - inset - width, wa.bottom - inset - height)
}

/// Settings window anchor: top-left of the work area, moved in by the inset.
pub open spec fn settings_anchor(wa: WorkArea, inset: i32) -> (int, int) {
    (wa.left + inset, wa.top + inset)
}

pub open spec fn anchor_ok(a: (int, int), width: i32, height: i32, wa: WorkArea) -> bool {
    fits_i32(a.0) && fits_i32(a.1) && clamp_ok(a.0 as i32, a.1 as i32, width, height, wa)
}

/// Typing window position on the primary work area (`None`: unknown, origin).
pub fn typing_window_pos(width: i32, height: i32, wa: Option<WorkArea>, dpi: Option<u32>) -> (r: (
    i32,
    i32,
))
    requires
        wa matches Some(w) ==> fits_i32(w.right - inset_spec(dpi)) && anchor_ok(
            typing_anchor(width, height, w, inset_spec(dpi)),
            width,
            height,
            w,
        ),
    ensures
        r == match wa {
            Some(w) => {
                let a = typing_anchor(width, height, w, inset_spec(dpi));
                clamp_spec(a.0 as i32, a.1 as i32, width, height, w)
            },
            None => (0i32, 0i32),
        },
{
    match wa {
        None => (0, 0),
        Some(w) => {
            let inset = inset_for_dpi(dpi);
            let x = w.right - inset - width;
            let y = w.top + inset;
            clamp_top_left(x, y, width, height, w)
        },
    }
}

/// Search window position on the primary work area (`None`: unknown, origin).
pub fn search_window_pos(width: i32, height: i32, wa: Option<WorkArea>, dpi: Option<u32>) -> (r: (
    i32,
    i32,
))
    requires
        wa matches Some(w) ==> fits_i32(w.right - inset_spec(dpi)) && fits_i32(
            w.bottom - inset_spec(dpi),
        ) && anchor_ok(search_anchor(width, height, w, inset_spec(dpi)), width, height, w),
    ensures
        r == match wa {
            Some(w) => {
                let a = search_anchor(width, height, w, inset_spec(dpi));
                clamp_spec(a.0 as i32, a.1 as i32, width, height, w)
            },
            None => (0i32, 0i32),
        },
{
    match wa {
        None => (0, 0),
        Some(w) => {
            let inset = inset_for_dpi(dpi);
            let x = w.right - inset - width;
            let y = w.bottom - inset - height;
            clamp_top_left(x, y, width, height, w)
        },
    }
}

/// Settings window position on the work area under the cursor point
/// `(px, py)`; when the work area is unknown the window goes to the point.
pub fn settings_window_pos(
    px: i32,
    py: i32,
    width: i32,
    height: i32,
    wa: Option<WorkArea>,
    dpi: Option<u32>,
) -> (r: (i32, i32))
    requires
        wa matches Some(w) ==> anchor_ok(settings_anchor(w, inset_spec(dpi)), width, height, w),
    ensures
        r == match wa {
            Some(w) => {
                let a = settings_anchor(w, inset_spec(dpi));
                clamp_spec(a.0 as i32, a.1 as i32, width, height, w)
            },
            None => (px, py),
        },
{
    match wa {
        None => (px, py),
        Some(w) => {
            let inset = inset_for_dpi(dpi);
            let x = w.left + inset;
            let y = w.top + inset;
            clamp_top_left(x, y, width, height, w)
        },
    }
}

/// A typing window that fits sits with its top-right corner at the inset
/// from the work area's top-right corner.
pub proof fn lemma_typing_window_anchored(width: i32, height: i32, w: WorkArea, inset: i32)
    requires
        0 <= inset,
        0 <= width,
        0 <= height,
        w.left <= w.right - inset - width,
        w.top + inset + height <= w.bottom,
        anchor_ok(typing_anchor(width, height, w, inset), width, height, w),
    ensures
        ({
            let a = typing_anchor(width, height, w, inset);
            let r = clamp_spec(a.0 as i32, a.1 as i32, width, height, w);
            r.0 + width == w.right - inset && r.1 == w.top + inset
        }),
{
}

} // verus!
