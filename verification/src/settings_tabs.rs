//! The Settings window's tab row: General and Slots always, the Advanced
//! tabs (Mode, Keys, Triggers, Search) only with Advanced on, and the
//! Advanced check box at the right end of the row.

use vstd::prelude::*;

use crate::settings_general::{imax, placed, Placed, LAYOUT_INPUT_MAX};

verus! {

pub const TAB_Y: i32 = 10;
pub const TAB_H: i32 = 26;
pub const TAB_GAP: i32 = 8;
pub const TAB_X0: i32 = 12;
pub const TAB_W_MIN: i32 = 80;
pub const TAB_RIGHT_PAD: i32 = 20;

/// Fitted button widths of the six tabs (General, Slots, Mode, Keys,
/// Triggers, Search) and the Advanced check box's text width.
#[derive(Clone, Copy, Debug, PartialEq, Eq, Structural)]
pub struct TabWidths {
    pub general: i32,
    pub slots: i32,
    pub mode: i32,
    pub keys: i32,
    pub triggers: i32,
    pub search: i32,
    pub advanced_text: i32,
}

/// One tab button: where it goes and whether it is shown (and enabled).
#[derive(Clone, Copy, Debug, PartialEq, Eq, Structural)]
pub struct TabButton {
    pub rect: Placed,
    pub shown: bool,
}

#[derive(Clone, Copy, Debug, PartialEq, Eq, Structural)]
pub struct TabRow {
    pub general: TabButton,
    pub slots: TabButton,
    pub mode: TabButton,
    pub keys: TabButton,
    pub triggers: TabButton,
    pub search: TabButton,
    pub advanced_check: Placed,
}

pub open spec fn tab_widths_ok(right: i32, w: TabWidths) -> bool {
    &&& 0 <= right <= LAYOUT_INPUT_MAX
    &&& 0 <= w.general <= LAYOUT_INPUT_MAX / 8
    &&& 0 <= w.slots <= LAYOUT_INPUT_MAX / 8
    &&& 0 <= w.mode <= LAYOUT_INPUT_MAX / 8
    &&& 0 <= w.keys <= LAYOUT_INPUT_MAX / 8
    &&& 0 <= w.triggers <= LAYOUT_INPUT_MAX / 8
    &&& 0 <= w.search <= LAYOUT_INPUT_MAX / 8
    &&& 0 <= w.advanced_text <= LAYOUT_INPUT_MAX
}

pub open spec fn tab_w(w: i32) -> int {
    imax(w as int, TAB_W_MIN as int)
}

pub open spec fn tab_button(x: int, w: i32, shown: bool) -> TabButton {
    TabButton { rect: placed(x, TAB_Y as int, tab_w(w), TAB_H as int), shown }
}

/// Tabs left to right with a gap; a hidden tab takes no room (it sits,
/// hidden, where the next one goes).
pub open spec fn tab_row_spec(right: i32, adv: bool, w: TabWidths) -> TabRow {
    let x_gen = TAB_X0 as int;
    let x_slots = x_gen + tab_w(w.general) + TAB_GAP;
    let x_mode = x_slots + tab_w(w.slots) + TAB_GAP;
    let x_keys = if adv { x_mode + tab_w(w.mode) + TAB_GAP } else { x_mode };
    let x_tr = if adv { x_keys + tab_w(w.keys) + TAB_GAP } else { x_keys };
    let x_se = if adv { x_tr + tab_w(w.triggers) + TAB_GAP } else { x_tr };
    let x_end = if adv { x_se + tab_w(w.search) + TAB_GAP } else { x_se };
    let adv_w = w.advanced_text + 28;
    TabRow {
        general: tab_button(x_gen, w.general, true),
        slots: tab_button(x_slots, w.slots, true),
        mode: tab_button(x_mode, w.mode, adv),
        keys: tab_button(x_keys, w.keys, adv),
        triggers: tab_button(x_tr, w.triggers, adv),
        search: tab_button(x_se, w.search, adv),
        advanced_check: placed(imax(right - TAB_RIGHT_PAD - adv_w, x_end), TAB_Y as int, adv_w, TAB_H as int),
    }
}

fn fit_tab(w: i32) -> (r: i32)
    ensures
        r == tab_w(w),
{
    if w > TAB_W_MIN {
        w
    } else {
        TAB_W_MIN
    }
}

/// Place the tab row in a client area `right` pixels wide (`None` when the
/// window has no width yet).
pub fn place_tab_buttons(right: i32, adv: bool, w: TabWidths) -> (r: Option<TabRow>)
    requires
        tab_widths_ok(right, w),
    ensures
        r == (if right <= 0 {
            None
        } else {
            Some(tab_row_spec(right, adv, w))
        }),
{
    if right <= 0 {
        return None;
    }
    let mut x = TAB_X0;
    let wg = fit_tab(w.general);
    let general = TabButton { rect: Placed { x, y: TAB_Y, w: wg, h: TAB_H }, shown: true };
    x = x + wg + TAB_GAP;
    let ws = fit_tab(w.slots);
    let slots = TabButton { rect: Placed { x, y: TAB_Y, w: ws, h: TAB_H }, shown: true };
    x = x + ws + TAB_GAP;
    let wm = fit_tab(w.mode);
    let mode = TabButton { rect: Placed { x, y: TAB_Y, w: wm, h: TAB_H }, shown: adv };
    if adv {
        x = x + wm + TAB_GAP;
    }
    let wk = fit_tab(w.keys);
    let keys = TabButton { rect: Placed { x, y: TAB_Y, w: wk, h: TAB_H }, shown: adv };
    if adv {
        x = x + wk + TAB_GAP;
    }
    let wt = fit_tab(w.triggers);
    let triggers = TabButton { rect: Placed { x, y: TAB_Y, w: wt, h: TAB_H }, shown: adv };
    if adv {
        x = x + wt + TAB_GAP;
    }
    let wse = fit_tab(w.search);
    let search = TabButton { rect: Placed { x, y: TAB_Y, w: wse, h: TAB_H }, shown: adv };
    if adv {
        x = x + wse + TAB_GAP;
    }
    let adv_w = w.advanced_text + 28;
    let ax0 = right - TAB_RIGHT_PAD - adv_w;
    let ax = if ax0 > x {
        ax0
    } else {
        x
    };
    Some(
        TabRow {
            general,
            slots,
            mode,
            keys,
            triggers,
            search,
            advanced_check: Placed { x: ax, y: TAB_Y, w: adv_w, h: TAB_H },
        },
    )
}

/// Shown tabs never overlap, and the Advanced box starts right of the last
/// shown tab.
pub proof fn lemma_tabs_do_not_overlap(right: i32, adv: bool, w: TabWidths)
    requires
        tab_widths_ok(right, w),
    ensures
        ({
            let t = tab_row_spec(right, adv, w);
            &&& t.general.rect.x + t.general.rect.w < t.slots.rect.x
            &&& adv ==> t.slots.rect.x + t.slots.rect.w < t.mode.rect.x
                && t.mode.rect.x + t.mode.rect.w < t.keys.rect.x
                && t.keys.rect.x + t.keys.rect.w < t.triggers.rect.x
                && t.triggers.rect.x + t.triggers.rect.w < t.search.rect.x
                && t.search.rect.x + t.search.rect.w < t.advanced_check.x
            &&& !adv ==> t.slots.rect.x + t.slots.rect.w < t.advanced_check.x
        }),
{
}

} // verus!
