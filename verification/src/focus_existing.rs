//! Bringing an already open launch target forward: which top-level window
//! counts as the target, in one pass over the windows.

use vstd::prelude::*;

use crate::text::{eq_ignore_ascii_case, lower_seq};

verus! {

/// `WS_EX_TOOLWINDOW`.
pub const WS_EX_TOOLWINDOW: u32 = 0x0000_0080;

/// Whether the target path's extension (as `Path::extension` gives it) is
/// `exe`, ASCII case ignored: then windows are matched by process image too.
pub fn is_exe_extension(ext: Option<&str>) -> (r: bool)
    ensures
        r == (match ext {
            Some(e) => lower_seq(e@) == lower_seq("exe"@),
            None => false,
        }),
{
    match ext {
        Some(e) => eq_ignore_ascii_case(e, "exe"),
        None => false,
    }
}

/// What is known of one top-level window during the pass.
#[derive(Clone, Copy, Debug, PartialEq, Eq, Structural)]
pub struct WindowFacts {
    pub visible: bool,
    /// It has an owner window (a dialog, tooltip or floating toolbar).
    pub owned: bool,
    /// Its extended style bits.
    pub ex_style: u32,
    /// Its title is non-empty and names the target.
    pub title_matches: bool,
    /// Its class is a browser host that document titles must not match.
    pub class_denied: bool,
    /// Its process image is the target exe (`None`: unknown).
    pub image_matches: Option<bool>,
}

pub open spec fn is_toolwindow(ex_style: u32) -> bool {
    ex_style & WS_EX_TOOLWINDOW != 0
}

/// A visible, unowned, non-tool window is the target when its title names
/// the target (for documents, not in a denied browser class) or, for an
/// exe, when its process image is the exe.
pub open spec fn window_hit_spec(w: WindowFacts, match_exe: bool) -> bool {
    if !w.visible || w.owned || is_toolwindow(w.ex_style) {
        false
    } else if w.title_matches && (match_exe || !w.class_denied) {
        true
    } else {
        match_exe && w.image_matches == Some(true)
    }
}

pub fn window_hit(w: WindowFacts, match_exe: bool) -> (r: bool)
    ensures
        r == window_hit_spec(w, match_exe),
{
    if !w.visible || w.owned || w.ex_style & WS_EX_TOOLWINDOW != 0 {
        return false;
    }
    if w.title_matches && (match_exe || !w.class_denied) {
        return true;
    }
    match_exe && w.image_matches == Some(true)
}

/// The first window of the pass that is a hit (the pass stops there).
pub open spec fn first_hit(ws: Seq<(isize, WindowFacts)>, match_exe: bool) -> Option<isize>
    decreases ws.len(),
{
    if ws.len() == 0 {
        None
    } else if window_hit_spec(ws[0].1, match_exe) {
        Some(ws[0].0)
    } else {
        first_hit(ws.drop_first(), match_exe)
    }
}

/// Whether launching should be skipped because the target is already open:
/// never for an empty path; otherwise when the pass found a window (it is
/// brought forward, and counts as handled even if focus was denied).
pub fn try_focus_existing(path: &str, windows: &Vec<(isize, WindowFacts)>, match_exe: bool) -> (r: Option<isize>)
    ensures
        r == (if path@.len() == 0 {
            None
        } else {
            first_hit(windows@, match_exe)
        }),
{
    if path.is_empty() {
        return None;
    }
    let mut i: usize = 0;
    assert(windows@.subrange(0, windows@.len() as int) =~= windows@);
    while i < windows.len()
        invariant
            0 <= i <= windows.len(),
            path@.len() > 0,
            first_hit(windows@, match_exe) == first_hit(windows@.subrange(i as int, windows@.len() as int), match_exe),
        decreases windows.len() - i,
    {
        let ghost rest = windows@.subrange(i as int, windows@.len() as int);
        assert(rest[0] == windows@[i as int]);
        let (h, facts) = windows[i];
        if window_hit(facts, match_exe) {
            return Some(h);
        }
        assert(rest.drop_first() =~= windows@.subrange(i + 1, windows@.len() as int));
        i += 1;
    }
    None
}

} // verus!
