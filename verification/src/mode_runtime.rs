//! Mode-switch chord arming, key-set chords and the mouse-hook heartbeat.
//!
//! The state that the Win32 hook callbacks share lives in one
//! `ModeRuntime`; the functions below are its operations.

use vstd::prelude::*;

use crate::text::{ascii_lower, lower_char, lower_seq, push_char, str_eq, to_ascii_lowercase};

verus! {

/// Timer id of the chord-listen timeout.
pub const MODE_CHORD_TIMER_ID: usize = 90;
/// Timer id of the periodic mouse-hook health check.
pub const HOOK_HEALTH_TIMER_ID: usize = 91;
/// Period of the mouse-hook health check.
pub const HOOK_HEALTH_INTERVAL_MS: u32 = 5000;
/// A heartbeat older than this while the cursor moves means the hook stalled.
pub const HOOK_STALE_MS: u64 = 5000;

pub const WM_KEYDOWN: u32 = 0x0100;
pub const WM_SYSKEYDOWN: u32 = 0x0104;

/// Shared mode-switch state.
pub struct ModeRuntime {
    mouse_kind: u16,
    mouse_suppress: bool,
    enabled: bool,
    armed: bool,
    beat_ms: u64,
    last_cursor_x: i32,
    last_cursor_y: i32,
    pick_files: Vec<String>,
    keyset_chords: Vec<(char, String)>,
    keyset_ids: Vec<String>,
}

pub open spec fn strings_view(v: Seq<String>) -> Seq<Seq<char>> {
    v.map_values(|s: String| s@)
}

pub open spec fn chords_view(v: Seq<(char, String)>) -> Seq<(char, Seq<char>)> {
    v.map_values(|e: (char, String)| (e.0, e.1@))
}

/// The id of the first chord bound to `c`.
pub open spec fn chord_lookup(chords: Seq<(char, Seq<char>)>, c: char) -> Option<Seq<char>>
    decreases chords.len(),
{
    if chords.len() == 0 {
        None
    } else if chords[0].0 == c {
        Some(chords[0].1)
    } else {
        chord_lookup(chords.drop_first(), c)
    }
}

pub open spec fn seq_at(v: Seq<Seq<char>>, i: int) -> Option<Seq<char>> {
    if 0 <= i < v.len() {
        Some(v[i])
    } else {
        None
    }
}

pub open spec fn opt_view(o: Option<String>) -> Option<Seq<char>> {
    match o {
        Some(s) => Some(s@),
        None => None,
    }
}

/// Mouse button kind: 0 = X2, 1 = X1, 2 = middle.
pub open spec fn mode_button_kind(l: Seq<char>) -> u16 {
    if l == "x1"@ {
        1
    } else if l == "middle"@ || l == "mbutton"@ {
        2
    } else if l == "x2"@ {
        0
    } else {
        1
    }
}

impl ModeRuntime {
    pub closed spec fn spec_kind(&self) -> u16 {
        self.mouse_kind
    }

    pub closed spec fn spec_suppress(&self) -> bool {
        self.mouse_suppress
    }

    pub closed spec fn spec_enabled(&self) -> bool {
        self.enabled
    }

    pub closed spec fn spec_armed(&self) -> bool {
        self.armed
    }

    pub closed spec fn spec_beat(&self) -> u64 {
        self.beat_ms
    }

    pub closed spec fn spec_last_cursor(&self) -> (i32, i32) {
        (self.last_cursor_x, self.last_cursor_y)
    }

    pub closed spec fn spec_pick_files(&self) -> Seq<Seq<char>> {
        strings_view(self.pick_files@)
    }

    pub closed spec fn spec_chords(&self) -> Seq<(char, Seq<char>)> {
        chords_view(self.keyset_chords@)
    }

    pub closed spec fn spec_keyset_ids(&self) -> Seq<Seq<char>> {
        strings_view(self.keyset_ids@)
    }

    /// Start-up state: X1 button, suppressed, enabled, not armed, no samples.
    pub fn new() -> (r: ModeRuntime)
        ensures
            r.spec_kind() == 1,
            r.spec_suppress(),
            r.spec_enabled(),
            !r.spec_armed(),
            r.spec_beat() == 0,
            r.spec_last_cursor() == (i32::MIN, i32::MIN),
            r.spec_pick_files().len() == 0,
            r.spec_chords().len() == 0,
            r.spec_keyset_ids().len() == 0,
    {
        let r = ModeRuntime {
            mouse_kind: 1,
            mouse_suppress: true,
            enabled: true,
            armed: false,
            beat_ms: 0,
            last_cursor_x: i32::MIN,
            last_cursor_y: i32::MIN,
            pick_files: Vec::new(),
            keyset_chords: Vec::new(),
            keyset_ids: Vec::new(),
        };
        assert(r.spec_pick_files() =~= Seq::empty());
        assert(r.spec_chords() =~= Seq::empty());
        assert(r.spec_keyset_ids() =~= Seq::empty());
        r
    }
}

/// Which state fields one operation leaves alone.
pub open spec fn same_mouse(a: ModeRuntime, b: ModeRuntime) -> bool {
    &&& a.spec_kind() == b.spec_kind()
    &&& a.spec_suppress() == b.spec_suppress()
    &&& a.spec_enabled() == b.spec_enabled()
}

pub open spec fn same_lists(a: ModeRuntime, b: ModeRuntime) -> bool {
    &&& a.spec_pick_files() == b.spec_pick_files()
    &&& a.spec_chords() == b.spec_chords()
    &&& a.spec_keyset_ids() == b.spec_keyset_ids()
}

pub open spec fn same_beat_cursor(a: ModeRuntime, b: ModeRuntime) -> bool {
    &&& a.spec_beat() == b.spec_beat()
    &&& a.spec_last_cursor() == b.spec_last_cursor()
}

/// Slot-file basenames for the tray's Mode submenu, by menu index.
pub fn set_mode_pick_files(rt: &mut ModeRuntime, files: Vec<String>)
    ensures
        final(rt).spec_pick_files() == strings_view(files@),
        final(rt).spec_chords() == old(rt).spec_chords(),
        final(rt).spec_keyset_ids() == old(rt).spec_keyset_ids(),
        same_mouse(*old(rt), *final(rt)),
        same_beat_cursor(*old(rt), *final(rt)),
        final(rt).spec_armed() == old(rt).spec_armed(),
{
    rt.pick_files = files;
}

pub fn mode_pick_file(rt: &ModeRuntime, index: usize) -> (r: Option<String>)
    ensures
        opt_view(r) == seq_at(rt.spec_pick_files(), index as int),
{
    if index < rt.pick_files.len() {
        Some(rt.pick_files[index].clone())
    } else {
        None
    }
}

/// Key-set letter chords and the key-set ids by tray index.
pub fn set_keyset_chords(rt: &mut ModeRuntime, chords: Vec<(char, String)>, ids: Vec<String>)
    ensures
        final(rt).spec_chords() == chords_view(chords@),
        final(rt).spec_keyset_ids() == strings_view(ids@),
        final(rt).spec_pick_files() == old(rt).spec_pick_files(),
        same_mouse(*old(rt), *final(rt)),
        same_beat_cursor(*old(rt), *final(rt)),
        final(rt).spec_armed() == old(rt).spec_armed(),
{
    rt.keyset_chords = chords;
    rt.keyset_ids = ids;
}

/// The key set whose chord letter is `letter` (ASCII case ignored).
pub fn keyset_id_for_letter(rt: &ModeRuntime, letter: char) -> (r: Option<String>)
    ensures
        opt_view(r) == chord_lookup(rt.spec_chords(), ascii_lower(letter)),
{
    let c = lower_char(letter);
    let mut i: usize = 0;
    let ghost all = rt.spec_chords();
    assert(all.subrange(0, all.len() as int) =~= all);
    while i < rt.keyset_chords.len()
        invariant
            all == rt.spec_chords(),
            c == ascii_lower(letter),
            all.len() == rt.keyset_chords@.len(),
            0 <= i <= rt.keyset_chords.len(),
            chord_lookup(all, c) == chord_lookup(all.subrange(i as int, all.len() as int), c),
        decreases rt.keyset_chords.len() - i,
    {
        let ghost rest = all.subrange(i as int, all.len() as int);
        assert(rest[0] == (rt.keyset_chords@[i as int].0, rt.keyset_chords@[i as int].1@));
        let entry = &rt.keyset_chords[i];
        if entry.0 == c {
            let id = entry.1.clone();
            assert(chord_lookup(rest, c) == Some(rest[0].1));
            return Some(id);
        }
        assert(rest.drop_first() =~= all.subrange(i + 1, all.len() as int));
        i += 1;
    }
    None
}

pub fn keyset_id_at(rt: &ModeRuntime, index: usize) -> (r: Option<String>)
    ensures
        opt_view(r) == seq_at(rt.spec_keyset_ids(), index as int),
{
    if index < rt.keyset_ids.len() {
        Some(rt.keyset_ids[index].clone())
    } else {
        None
    }
}

/// `VK_A`..`VK_Z` to `'a'`..`'z'`.
pub open spec fn vk_letter_spec(vk: u32) -> Option<char> {
    if 0x41 <= vk && vk <= 0x5A {
        Some(((vk - 0x41) + ('a' as int)) as char)
    } else {
        None
    }
}

pub fn vk_to_letter(vk: u32) -> (r: Option<char>)
    ensures
        r == vk_letter_spec(vk),
{
    if 0x41 <= vk && vk <= 0x5A {
        let b: u8 = (vk - 0x41) as u8 + 97u8;
        proof {
            vstd::utf8::char_u32_cast(b as char, b as u32);
        }
        Some(b as char)
    } else {
        None
    }
}

/// Configure the mode-switch leader button (`x1`, `x2`, `middle`/`mbutton`;
/// anything else means `x1`), its suppression, and whether it is on.
pub fn configure_mode_mouse(rt: &mut ModeRuntime, button: &str, suppress: bool, enabled: bool)
    ensures
        final(rt).spec_kind() == mode_button_kind(lower_seq(button@)),
        final(rt).spec_suppress() == suppress,
        final(rt).spec_enabled() == enabled,
        final(rt).spec_armed() == old(rt).spec_armed(),
        same_lists(*old(rt), *final(rt)),
        same_beat_cursor(*old(rt), *final(rt)),
{
    let l = to_ascii_lowercase(button);
    let s = l.as_str();
    let kind: u16 = if str_eq(s, "x1") {
        1
    } else if str_eq(s, "middle") || str_eq(s, "mbutton") {
        2
    } else if str_eq(s, "x2") {
        0
    } else {
        1
    };
    rt.mouse_kind = kind;
    rt.mouse_suppress = suppress;
    rt.enabled = enabled;
}

pub fn mode_mouse_kind(rt: &ModeRuntime) -> (r: u16)
    ensures
        r == rt.spec_kind(),
{
    rt.mouse_kind
}

pub fn mode_mouse_suppress(rt: &ModeRuntime) -> (r: bool)
    ensures
        r == rt.spec_suppress(),
{
    rt.mouse_suppress
}

pub fn mode_mouse_enabled(rt: &ModeRuntime) -> (r: bool)
    ensures
        r == rt.spec_enabled(),
{
    rt.enabled
}

/// Record a mouse-hook heartbeat at `now_ms` (milliseconds since the epoch).
pub fn note_mouse_hook_activity(rt: &mut ModeRuntime, now_ms: u64)
    ensures
        final(rt).spec_beat() == now_ms,
        final(rt).spec_last_cursor() == old(rt).spec_last_cursor(),
        final(rt).spec_armed() == old(rt).spec_armed(),
        same_mouse(*old(rt), *final(rt)),
        same_lists(*old(rt), *final(rt)),
{
    rt.beat_ms = now_ms;
}

pub fn mouse_hook_beat_ms(rt: &ModeRuntime) -> (r: u64)
    ensures
        r == rt.spec_beat(),
{
    rt.beat_ms
}

/// Store a cursor sample; true when there was an earlier sample and the
/// cursor has moved since.
pub fn take_cursor_sample(rt: &mut ModeRuntime, x: i32, y: i32) -> (moved: bool)
    ensures
        final(rt).spec_last_cursor() == (x, y),
        moved == (old(rt).spec_last_cursor().0 != i32::MIN && (old(rt).spec_last_cursor().0 != x
            || old(rt).spec_last_cursor().1 != y)),
        final(rt).spec_beat() == old(rt).spec_beat(),
        final(rt).spec_armed() == old(rt).spec_armed(),
        same_mouse(*old(rt), *final(rt)),
        same_lists(*old(rt), *final(rt)),
{
    let px = rt.last_cursor_x;
    let py = rt.last_cursor_y;
    rt.last_cursor_x = x;
    rt.last_cursor_y = y;
    px != i32::MIN && (px != x || py != y)
}

/// Start listening for a chord. The listen reads the keyboard, so it is only
/// ever armed while a typing window is open (`typing_open`); with no typing
/// window any earlier arm is dropped. Otherwise nothing happens when the
/// timeout is zero or the mode mouse is off; else the runtime is armed and the
/// caller sets the timer and installs the chord keyboard hook.
pub fn arm_mode_chord(rt: &mut ModeRuntime, timeout_ms: u32, typing_open: bool) -> (armed: bool)
    ensures
        armed == (typing_open && timeout_ms != 0 && old(rt).spec_enabled()),
        final(rt).spec_armed() == (armed || (typing_open && old(rt).spec_armed())),
        final(rt).spec_armed() ==> typing_open,
        same_mouse(*old(rt), *final(rt)),
        same_lists(*old(rt), *final(rt)),
        same_beat_cursor(*old(rt), *final(rt)),
{
    if !typing_open {
        rt.armed = false;
        return false;
    }
    if timeout_ms == 0 || !rt.enabled {
        return false;
    }
    rt.armed = true;
    true
}

/// Stop listening for a chord.
pub fn disarm_mode_chord(rt: &mut ModeRuntime)
    ensures
        !final(rt).spec_armed(),
        same_mouse(*old(rt), *final(rt)),
        same_lists(*old(rt), *final(rt)),
        same_beat_cursor(*old(rt), *final(rt)),
{
    rt.armed = false;
}

pub fn is_mode_armed(rt: &ModeRuntime) -> (r: bool)
    ensures
        r == rt.spec_armed(),
{
    rt.armed
}

pub fn is_chord_timer(wparam: usize) -> (r: bool)
    ensures
        r == (wparam == MODE_CHORD_TIMER_ID),
{
    wparam == MODE_CHORD_TIMER_ID
}

pub fn is_health_timer(wparam: usize) -> (r: bool)
    ensures
        r == (wparam == HOOK_HEALTH_TIMER_ID),
{
    wparam == HOOK_HEALTH_TIMER_ID
}

/// Top-row and numpad digits to the chord code `"0"`..`"9"`.
pub open spec fn vk_chord_digit(vk: u32) -> Option<char> {
    if 0x30 <= vk && vk <= 0x39 {
        Some(((vk - 0x30) + ('0' as int)) as char)
    } else if 0x60 <= vk && vk <= 0x69 {
        Some(((vk - 0x60) + ('0' as int)) as char)
    } else {
        None
    }
}

pub open spec fn vk_chord_spec(vk: u32) -> Option<Seq<char>> {
    match vk_chord_digit(vk) {
        Some(c) => Some(seq![c]),
        None => None,
    }
}

pub fn vk_to_chord(vk: u32) -> (r: Option<String>)
    ensures
        opt_view(r) == vk_chord_spec(vk),
{
    let d: u32 = if 0x30 <= vk && vk <= 0x39 {
        vk - 0x30
    } else if 0x60 <= vk && vk <= 0x69 {
        vk - 0x60
    } else {
        return None;
    };
    let b: u8 = d as u8 + 48u8;
    proof {
        vstd::utf8::char_u32_cast(b as char, b as u32);
    }
    let mut s = String::new();
    push_char(&mut s, b as char);
    assert(s@ =~= seq![b as char]);
    Some(s)
}

/// What the chord keyboard hook does with one event.
#[derive(Clone, Copy, Debug, PartialEq, Eq, Structural)]
pub enum ChordKeyAction {
    /// Not ours: pass it on.
    Pass,
    /// A digit chord: post it to the host and swallow the key.
    PostModeChord,
    /// A key-set letter chord: post it to the host and swallow the key.
    PostKeysetChord,
    /// An unrelated key cancels the arm (the key itself still passes).
    DisarmAndPass,
}

pub open spec fn chord_key_action_spec(
    armed: bool,
    chords: Seq<(char, Seq<char>)>,
    code: i32,
    msg: u32,
    injected: bool,
    vk: u32,
) -> ChordKeyAction {
    if code != 0 || !armed {
        ChordKeyAction::Pass
    } else if msg != WM_KEYDOWN && msg != WM_SYSKEYDOWN {
        ChordKeyAction::Pass
    } else if injected {
        ChordKeyAction::Pass
    } else if vk_chord_digit(vk) is Some {
        ChordKeyAction::PostModeChord
    } else if vk_letter_spec(vk) is Some && chord_lookup(
        chords,
        ascii_lower(vk_letter_spec(vk)->0),
    ) is Some {
        ChordKeyAction::PostKeysetChord
    } else {
        ChordKeyAction::DisarmAndPass
    }
}

/// Decide one low-level keyboard event while a chord may be armed.
pub fn chord_key_action(rt: &ModeRuntime, code: i32, msg: u32, injected: bool, vk: u32) -> (r:
    ChordKeyAction)
    ensures
        r == chord_key_action_spec(rt.spec_armed(), rt.spec_chords(), code, msg, injected, vk),
{
    if code != 0 || !rt.armed {
        return ChordKeyAction::Pass;
    }
    if msg != WM_KEYDOWN && msg != WM_SYSKEYDOWN {
        return ChordKeyAction::Pass;
    }
    if injected {
        return ChordKeyAction::Pass;
    }
    if vk_to_chord(vk).is_some() {
        return ChordKeyAction::PostModeChord;
    }
    if let Some(letter) = vk_to_letter(vk) {
        if keyset_id_for_letter(rt, letter).is_some() {
            return ChordKeyAction::PostKeysetChord;
        }
    }
    ChordKeyAction::DisarmAndPass
}

/// The ten digit keys, top row (0x30 + d) and numpad (0x60 + d), each map to
/// the one-character chord code of their digit, and no other key maps to a
/// code at all. While armed, a real key-down of a digit is a mode chord.
pub proof fn lemma_digit_keys_are_chords(
    d: u32,
    vk: u32,
    chords: Seq<(char, Seq<char>)>,
    msg: u32,
)
    requires
        d <= 9,
    ensures
        vk_chord_spec((0x30 + d) as u32) == Some(seq![(48 + d) as char]),
        vk_chord_spec((0x60 + d) as u32) == Some(seq![(48 + d) as char]),
        vk_chord_spec(vk) is Some ==> (0x30 <= vk <= 0x39 || 0x60 <= vk <= 0x69),
        (msg == 0x0100 || msg == 0x0104) ==> chord_key_action_spec(
            true,
            chords,
            0,
            msg,
            false,
            (0x30 + d) as u32,
        ) == ChordKeyAction::PostModeChord,
        (msg == 0x0100 || msg == 0x0104) ==> chord_key_action_spec(
            true,
            chords,
            0,
            msg,
            false,
            (0x60 + d) as u32,
        ) == ChordKeyAction::PostModeChord,
{
    assert((((0x30 + d) - 0x30) + ('0' as int)) == 48 + d);
    assert((((0x60 + d) - 0x60) + ('0' as int)) == 48 + d);
}

/// Letter keys (0x41 + i) are the lowercase letters; while armed, a real
/// key-down of a letter that names a key set is a key-set chord, and any
/// other key that is neither a digit nor such a letter ends the listen and
/// passes on.
pub proof fn lemma_letter_keys_are_keyset_chords(
    i: u32,
    vk: u32,
    chords: Seq<(char, Seq<char>)>,
    msg: u32,
)
    requires
        i < 26,
        msg == 0x0100 || msg == 0x0104,
    ensures
        vk_letter_spec((0x41 + i) as u32) == Some((97 + i) as char),
        chord_lookup(chords, (97 + i) as char) is Some ==> chord_key_action_spec(
            true,
            chords,
            0,
            msg,
            false,
            (0x41 + i) as u32,
        ) == ChordKeyAction::PostKeysetChord,
        !(0x30 <= vk <= 0x39 || 0x60 <= vk <= 0x69 || 0x41 <= vk <= 0x5A) ==> chord_key_action_spec(
            true,
            chords,
            0,
            msg,
            false,
            vk,
        ) == ChordKeyAction::DisarmAndPass,
{
    let c = (97 + i) as char;
    assert(((0x41 + i) - 0x41) + ('a' as int) == 97 + i);
    vstd::utf8::char_u32_cast(c, (97 + i) as u32);
    assert(ascii_lower(c) == c);
}

/// A disarmed chord listen reads nothing: every event passes on untouched.
pub proof fn lemma_disarmed_chord_passes(
    chords: Seq<(char, Seq<char>)>,
    code: i32,
    msg: u32,
    injected: bool,
    vk: u32,
)
    ensures
        chord_key_action_spec(false, chords, code, msg, injected, vk) == ChordKeyAction::Pass,
{
}

/// A leader press posts `MODE_ARM` to the host only when the mode mouse is on.
pub fn post_mode_arm(rt: &ModeRuntime) -> (post: bool)
    ensures
        post == rt.spec_enabled(),
{
    rt.enabled
}

/// The health check reinstalls the mouse hook when the cursor has moved but
/// no hook callback was seen for more than `HOOK_STALE_MS`.
pub fn hook_stalled(moved: bool, now_ms: u64, beat_ms: u64) -> (r: bool)
    ensures
        r == (moved && now_ms > beat_ms && now_ms - beat_ms > HOOK_STALE_MS),
{
    let stale: u64 = if now_ms > beat_ms {
        now_ms - beat_ms
    } else {
        0
    };
    moved && stale > HOOK_STALE_MS
}

} // verus!
