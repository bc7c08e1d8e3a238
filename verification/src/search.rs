//! Search window logic: one window at a time, one launch per window, the
//! edit box's key handling (including the tap-alone Open-workdir key), list
//! navigation, target resolution and the layout of the three child controls.

use vstd::prelude::*;

use crate::text::{push_str, str_eq, trim, trimmed, views_of};

verus! {

/// Edit-box control id.
pub const IDC_EDIT: usize = 100;
/// List-box control id.
pub const IDC_LIST: usize = 101;
/// Edit-box notification: the text changed.
pub const EN_CHANGE: usize = 0x0300;
/// List-box notification: a row was double-clicked.
pub const LBN_DBLCLK: usize = 2;

pub const VK_UP: u32 = 0x26;
pub const VK_DOWN: u32 = 0x28;
pub const VK_RETURN: u32 = 0x0D;
pub const VK_ESCAPE: u32 = 0x1B;

/// Process-wide Search state: the open window (0 when closed) and whether a
/// launch was already handed off from it.
pub struct SearchRuntime {
    window: isize,
    launching: bool,
}

impl SearchRuntime {
    pub closed spec fn spec_window(&self) -> isize {
        self.window
    }

    pub closed spec fn spec_launching(&self) -> bool {
        self.launching
    }

    pub fn new() -> (r: SearchRuntime)
        ensures
            r.spec_window() == 0,
            !r.spec_launching(),
    {
        SearchRuntime { window: 0, launching: false }
    }

    /// The open window's handle (0 when closed).
    pub fn window(&self) -> (r: isize)
        ensures
            r == self.spec_window(),
    {
        self.window
    }
}

pub fn is_open(rt: &SearchRuntime) -> (r: bool)
    ensures
        r == (rt.spec_window() != 0),
{
    rt.window != 0
}

/// What opening Search does.
#[derive(Clone, Copy, Debug, PartialEq, Eq, Structural)]
pub enum SearchOpen {
    /// Already open: bring that window to the front.
    FocusExisting(isize),
    /// Create a new window.
    Create,
}

/// Decide how to open Search. Creating a new window re-arms the launch gate.
pub fn open(rt: &mut SearchRuntime) -> (r: SearchOpen)
    ensures
        old(rt).spec_window() != 0 ==> r == SearchOpen::FocusExisting(old(rt).spec_window())
            && *final(rt) == *old(rt),
        old(rt).spec_window() == 0 ==> r == SearchOpen::Create && !final(rt).spec_launching()
            && final(rt).spec_window() == 0,
{
    if rt.window != 0 {
        SearchOpen::FocusExisting(rt.window)
    } else {
        rt.launching = false;
        SearchOpen::Create
    }
}

/// Record the window that was created.
pub fn set_window(rt: &mut SearchRuntime, hwnd: isize)
    ensures
        final(rt).spec_window() == hwnd,
        final(rt).spec_launching() == old(rt).spec_launching(),
{
    rt.window = hwnd;
}

/// The window to destroy for `close_if_open` (none when closed).
pub fn close_if_open(rt: &SearchRuntime) -> (r: Option<isize>)
    ensures
        r == (if rt.spec_window() != 0 {
            Some(rt.spec_window())
        } else {
            None::<isize>
        }),
{
    if rt.window != 0 {
        Some(rt.window)
    } else {
        None
    }
}

/// The window was destroyed.
pub fn on_destroyed(rt: &mut SearchRuntime)
    ensures
        final(rt).spec_window() == 0,
        final(rt).spec_launching() == old(rt).spec_launching(),
{
    rt.window = 0;
}

/// Try to start the one launch of this window. `true` exactly when no launch
/// had started; after the call one has.
pub fn begin_launch(rt: &mut SearchRuntime) -> (r: bool)
    ensures
        r == !old(rt).spec_launching(),
        final(rt).spec_launching(),
        final(rt).spec_window() == old(rt).spec_window(),
{
    if rt.launching {
        false
    } else {
        rt.launching = true;
        true
    }
}

// ── Edit-box keys ───────────────────────────────────────────────────────

/// Tap-alone state of the Open-workdir key in the edit box.
pub struct OpenWorkdirTap {
    vk: u16,
    pending: bool,
}

/// What a key-down in the edit box does.
#[derive(Clone, Copy, Debug, PartialEq, Eq, Structural)]
pub enum EditKey {
    /// Move the list selection up.
    SelectUp,
    /// Move the list selection down.
    SelectDown,
    /// Launch the current target.
    Launch,
    /// Close the Search window.
    Close,
    /// Let the edit box handle it.
    PassThrough,
}

pub open spec fn edit_key_spec(vk: u32) -> EditKey {
    if vk == VK_UP {
        EditKey::SelectUp
    } else if vk == VK_DOWN {
        EditKey::SelectDown
    } else if vk == VK_RETURN {
        EditKey::Launch
    } else if vk == VK_ESCAPE {
        EditKey::Close
    } else {
        EditKey::PassThrough
    }
}

/// The low 16 bits of a virtual-key code.
pub open spec fn vk16(vk: u32) -> u16 {
    (vk % 0x1_0000) as u16
}

/// Whether the tap is pending after `vk` went down.
pub open spec fn tap_down_pending(key: u16, vk: u32) -> bool {
    vk16(vk) == key
}

/// Whether releasing `vk` fires, given whether the tap was pending.
pub open spec fn tap_up_fires(key: u16, pending: bool, vk: u32) -> bool {
    vk16(vk) == key && pending
}

impl OpenWorkdirTap {
    pub closed spec fn spec_vk(&self) -> u16 {
        self.vk
    }

    pub closed spec fn spec_pending(&self) -> bool {
        self.pending
    }

    pub fn new(vk: u16) -> (r: OpenWorkdirTap)
        ensures
            r.spec_vk() == vk,
            !r.spec_pending(),
    {
        OpenWorkdirTap { vk, pending: false }
    }

    /// A key went down: the tap is pending exactly when it is the
    /// Open-workdir key itself (any other key means it was held as a modifier).
    pub fn key_down(&mut self, vk: u32) -> (r: EditKey)
        ensures
            r == edit_key_spec(vk),
            final(self).spec_pending() == tap_down_pending(old(self).spec_vk(), vk),
            final(self).spec_vk() == old(self).spec_vk(),
    {
        let low: u16 = (vk % 0x1_0000) as u16;
        self.pending = low == self.vk;
        if vk == VK_UP {
            EditKey::SelectUp
        } else if vk == VK_DOWN {
            EditKey::SelectDown
        } else if vk == VK_RETURN {
            EditKey::Launch
        } else if vk == VK_ESCAPE {
            EditKey::Close
        } else {
            EditKey::PassThrough
        }
    }

    /// A key went up: `true` (open the target's folder) when the
    /// Open-workdir key is released with its tap still pending; that clears it.
    pub fn key_up(&mut self, vk: u32) -> (fire: bool)
        ensures
            fire == tap_up_fires(old(self).spec_vk(), old(self).spec_pending(), vk),
            final(self).spec_pending() == (old(self).spec_pending() && !fire),
            final(self).spec_vk() == old(self).spec_vk(),
    {
        let low: u16 = (vk % 0x1_0000) as u16;
        if low == self.vk && self.pending {
            self.pending = false;
            true
        } else {
            false
        }
    }
}

/// The tap-alone rule: pressing and releasing the Open-workdir key with
/// nothing in between fires, and only on the first release; when another
/// key went down after it, its release does not fire.
pub proof fn lemma_tap_alone(key: u16, vk: u32, other: u32)
    requires
        vk16(vk) == key,
        vk16(other) != key,
    ensures
        tap_up_fires(key, tap_down_pending(key, vk), vk),
        !tap_up_fires(key, tap_down_pending(key, vk) && !tap_up_fires(key, tap_down_pending(key, vk), vk), vk),
        !tap_up_fires(key, tap_down_pending(key, other), vk),
{
}

/// Selection after Up: one row up, unless already at the top (or none).
pub fn select_up(sel: isize) -> (r: Option<usize>)
    ensures
        r == (if sel > 0 {
            Some((sel - 1) as usize)
        } else {
            None::<usize>
        }),
{
    if sel > 0 {
        Some((sel - 1) as usize)
    } else {
        None
    }
}

/// Selection after Down: one row down while a row follows (`sel` is the
/// highlighted row, or -1 with nothing highlighted, so Down then selects
/// the first row).
pub fn select_down(sel: isize, count: isize) -> (r: Option<usize>)
    requires
        sel >= -1,
    ensures
        r == (if sel + 1 < count {
            Some((sel + 1) as usize)
        } else {
            None::<usize>
        }),
{
    if count > 0 && sel < count - 1 {
        Some((sel + 1) as usize)
    } else {
        None
    }
}

// ── Target resolution and list rows ─────────────────────────────────────

/// The registered slot ids, as text.
pub open spec fn contains_id(ids: Seq<Seq<char>>, id: Seq<char>) -> bool {
    exists|k: int| 0 <= k < ids.len() && ids[k] == id
}

/// The target: the trimmed query when it is a registered id, else the
/// highlighted row's id when that is registered, else none.
pub open spec fn resolve_spec(
    query: Seq<char>,
    visible: Seq<Seq<char>>,
    sel: isize,
    registered: Seq<Seq<char>>,
) -> Option<Seq<char>> {
    let q = trimmed(query);
    if contains_id(registered, q) {
        Some(q)
    } else if sel < 0 || sel >= visible.len() {
        None
    } else if contains_id(registered, visible[sel as int]) {
        Some(visible[sel as int])
    } else {
        None
    }
}

pub open spec fn opt_string_view(o: Option<String>) -> Option<Seq<char>> {
    match o {
        Some(s) => Some(s@),
        None => None,
    }
}

fn find_id(ids: &Vec<String>, id: &str) -> (r: bool)
    ensures
        r == contains_id(views_of(ids@), id@),
{
    let mut k: usize = 0;
    while k < ids.len()
        invariant
            0 <= k <= ids.len(),
            forall|j: int| 0 <= j < k ==> ids@[j]@ != id@,
        decreases ids.len() - k,
    {
        if str_eq(ids[k].as_str(), id) {
            assert(views_of(ids@)[k as int] == id@);
            return true;
        }
        k += 1;
    }
    assert forall|j: int| 0 <= j < views_of(ids@).len() implies views_of(ids@)[j] != id@ by {
        assert(views_of(ids@)[j] == ids@[j]@);
    }
    false
}

/// Resolve the Search target from the query text, the ids shown in the
/// list, the highlighted row (-1 for none) and the registered ids.
pub fn resolve_selection(query: &str, visible_ids: &Vec<String>, sel: isize, registered: &Vec<String>) -> (r:
    Option<String>)
    ensures
        opt_string_view(r) == resolve_spec(query@, views_of(visible_ids@), sel, views_of(registered@)),
{
    let q = trim(query);
    if find_id(registered, q) {
        return Some(crate::text::string_of(q));
    }
    if sel < 0 {
        return None;
    }
    let idx = sel as usize;
    if idx >= visible_ids.len() {
        return None;
    }
    let id = visible_ids[idx].as_str();
    assert(views_of(visible_ids@)[sel as int] == visible_ids@[idx as int]@);
    if find_id(registered, id) {
        Some(crate::text::string_of(id))
    } else {
        None
    }
}

/// One list row: `"{id}  {name}"`, with `" — {description}"` when there is one.
pub open spec fn list_line_spec(id: Seq<char>, name: Seq<char>, description: Seq<char>) -> Seq<char> {
    if description.len() == 0 {
        id + seq![' ', ' '] + name
    } else {
        id + seq![' ', ' '] + name + seq![' ', '—', ' '] + description
    }
}

pub fn list_line(id: &str, name: &str, description: &str) -> (r: String)
    ensures
        r@ == list_line_spec(id@, name@, description@),
{
    let mut s = String::new();
    push_str(&mut s, id);
    crate::text::push_char(&mut s, ' ');
    crate::text::push_char(&mut s, ' ');
    push_str(&mut s, name);
    if !description.is_empty() {
        crate::text::push_char(&mut s, ' ');
        crate::text::push_char(&mut s, '—');
        crate::text::push_char(&mut s, ' ');
        push_str(&mut s, description);
    }
    s
}

// ── List hit-testing and notifications ──────────────────────────────────

/// A client point packed as `LB_ITEMFROMPOINT` wants it: y in the high word,
/// x in the low word, each truncated to 16 bits.
pub open spec fn pack_point_spec(x: i32, y: i32) -> int {
    (y as u16) * 0x1_0000 + (x as u16)
}

pub fn pack_point(x: i32, y: i32) -> (r: u32)
    ensures
        r == pack_point_spec(x, y),
{
    let lo: u32 = (x as u16) as u32;
    let hi: u32 = (y as u16) as u32;
    assert(hi * 0x1_0000 + lo <= 0xFFFF_FFFF) by (nonlinear_arith)
        requires
            hi <= 0xFFFF,
            lo <= 0xFFFF,
    ;
    hi * 0x1_0000 + lo
}

/// The row under the point from `LB_ITEMFROMPOINT`'s reply: none when the
/// high word says the point is outside the client area.
pub fn item_from_point(reply: u32) -> (r: Option<usize>)
    ensures
        r == (if reply / 0x1_0000 != 0 {
            None::<usize>
        } else {
            Some((reply % 0x1_0000) as usize)
        }),
{
    if reply / 0x1_0000 != 0 {
        None
    } else {
        Some((reply % 0x1_0000) as usize)
    }
}

/// What a `WM_COMMAND` from a child control asks for.
#[derive(Clone, Copy, Debug, PartialEq, Eq, Structural)]
pub enum SearchCommand {
    /// The query changed: rebuild the list.
    Refresh,
    /// A row was double-clicked: launch.
    Launch,
    /// Anything else.
    Ignore,
}

pub open spec fn search_command_spec(wparam: usize) -> SearchCommand {
    let notify = (wparam / 0x1_0000) % 0x1_0000;
    let id = wparam % 0x1_0000;
    if id == IDC_EDIT && notify == EN_CHANGE {
        SearchCommand::Refresh
    } else if id == IDC_LIST && notify == LBN_DBLCLK {
        SearchCommand::Launch
    } else {
        SearchCommand::Ignore
    }
}

pub fn search_command(wparam: usize) -> (r: SearchCommand)
    ensures
        r == search_command_spec(wparam),
{
    let notify = (wparam / 0x1_0000) % 0x1_0000;
    let id = wparam % 0x1_0000;
    if id == IDC_EDIT && notify == EN_CHANGE {
        SearchCommand::Refresh
    } else if id == IDC_LIST && notify == LBN_DBLCLK {
        SearchCommand::Launch
    } else {
        SearchCommand::Ignore
    }
}

// ── Layout ──────────────────────────────────────────────────────────────

pub const SEARCH_PAD: i32 = 12;
pub const SEARCH_EDIT_H: i32 = 26;
pub const SEARCH_HINT_H: i32 = 18;
/// Default window size.
pub const SEARCH_WIDTH: i32 = 480;
pub const SEARCH_HEIGHT: i32 = 420;

/// A child control's rectangle: left, top, width, height.
#[derive(Clone, Copy, Debug, PartialEq, Eq, Structural)]
pub struct ChildRect {
    pub x: i32,
    pub y: i32,
    pub w: i32,
    pub h: i32,
}

/// The edit box, list and hint line for a client area.
#[derive(Clone, Copy, Debug, PartialEq, Eq, Structural)]
pub struct SearchLayout {
    pub edit: ChildRect,
    pub list: ChildRect,
    pub hint: ChildRect,
}

pub open spec fn max40(v: int) -> int {
    if v > 40 {
        v
    } else {
        40
    }
}

pub open spec fn search_layout_spec(client_w: i32, client_h: i32) -> SearchLayout {
    let w = max40(client_w - 24) as i32;
    let list_top = 12 + 26 + 10;
    let list_h = max40(client_h - list_top - 12 - 18 - 6) as i32;
    SearchLayout {
        edit: ChildRect { x: 12, y: 12, w, h: 26 },
        list: ChildRect { x: 12, y: list_top as i32, w, h: list_h },
        hint: ChildRect { x: 12, y: (list_top + list_h + 6) as i32, w, h: 18 },
    }
}

/// Children for a client area of `client_w` × `client_h` (both at least
/// a little above `i32::MIN`, as client sizes are).
pub fn search_layout(client_w: i32, client_h: i32) -> (r: SearchLayout)
    requires
        client_w >= 0,
        client_h >= 0,
    ensures
        r == search_layout_spec(client_w, client_h),
        r.list.h >= 40,
        r.edit.w >= 40,
        r.hint.y == r.list.y + r.list.h + 6,
{
    let w0 = client_w - SEARCH_PAD * 2;
    let w = if w0 > 40 {
        w0
    } else {
        40
    };
    let list_top: i32 = SEARCH_PAD + SEARCH_EDIT_H + 10;
    let h0 = client_h - list_top - SEARCH_PAD - SEARCH_HINT_H - 6;
    let list_h = if h0 > 40 {
        h0
    } else {
        40
    };
    SearchLayout {
        edit: ChildRect { x: SEARCH_PAD, y: SEARCH_PAD, w, h: SEARCH_EDIT_H },
        list: ChildRect { x: SEARCH_PAD, y: list_top, w, h: list_h },
        hint: ChildRect { x: SEARCH_PAD, y: list_top + list_h + 6, w, h: SEARCH_HINT_H },
    }
}

} // verus!
