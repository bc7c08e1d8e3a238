//! Global hotkey: parsing `"F9"`, `"VK_F9"`, `"Ctrl+Alt+D"` into a
//! `RegisterHotKey` request, and registration bookkeeping.

use vstd::prelude::*;

use crate::text::{
    chars_of, lower_seq, split_on, str_eq, split_seq, string_of, to_ascii_lowercase, to_ascii_uppercase,
    trim, trimmed, upper_seq, views_of,
};

verus! {

/// `MOD_ALT` / `MOD_CONTROL` / `MOD_SHIFT` / `MOD_WIN` for `RegisterHotKey`.
pub const MOD_ALT: u32 = 0x1;
pub const MOD_CONTROL: u32 = 0x2;
pub const MOD_SHIFT: u32 = 0x4;
pub const MOD_WIN: u32 = 0x8;

/// Modifier keys of a hotkey.
#[derive(Clone, Copy, Debug, PartialEq, Eq, Structural)]
pub struct HotkeyModifiers {
    pub ctrl: bool,
    pub alt: bool,
    pub shift: bool,
    pub win: bool,
}

impl HotkeyModifiers {
    pub open spec fn spec_none() -> HotkeyModifiers {
        HotkeyModifiers { ctrl: false, alt: false, shift: false, win: false }
    }

    pub fn none() -> (r: HotkeyModifiers)
        ensures
            r == HotkeyModifiers::spec_none(),
    {
        HotkeyModifiers { ctrl: false, alt: false, shift: false, win: false }
    }

    /// The `HOT_KEY_MODIFIERS` bit set.
    pub open spec fn spec_bits(self) -> u32 {
        ((if self.alt { MOD_ALT } else { 0 }) + (if self.ctrl { MOD_CONTROL } else { 0 }) + (
        if self.shift { MOD_SHIFT } else { 0 }) + (if self.win { MOD_WIN } else { 0 })) as u32
    }

    pub fn bits(&self) -> (r: u32)
        ensures
            r == self.spec_bits(),
    {
        let mut b: u32 = 0;
        if self.alt {
            b = b + MOD_ALT;
        }
        if self.ctrl {
            b = b + MOD_CONTROL;
        }
        if self.shift {
            b = b + MOD_SHIFT;
        }
        if self.win {
            b = b + MOD_WIN;
        }
        b
    }
}

/// One named virtual key understood by the key-binding settings (`VK_*` names).
#[derive(Clone, Debug)]
pub struct VkName {
    pub name: String,
    pub vk: u16,
}

pub open spec fn vk_table_view(t: Seq<VkName>) -> Seq<(Seq<char>, u16)> {
    t.map_values(|e: VkName| (e.name@, e.vk))
}

/// First entry of the table whose name is exactly `name`.
pub open spec fn table_lookup(t: Seq<(Seq<char>, u16)>, name: Seq<char>) -> Option<u16>
    decreases t.len(),
{
    if t.len() == 0 {
        None
    } else if t[0].0 == name {
        Some(t[0].1)
    } else {
        table_lookup(t.drop_first(), name)
    }
}

/// `VK_F1`..`VK_F12` and `VK_A`..`VK_Z`.
pub open spec fn vk_extended(n: Seq<char>) -> Option<u16> {
    let vk_prefix = n.len() >= 4 && n[0] == 'V' && n[1] == 'K' && n[2] == '_';
    if vk_prefix && n.len() == 4 && 'A' <= n[3] && n[3] <= 'Z' {
        Some((0x41 + (n[3] as int - 'A' as int)) as u16)
    } else if vk_prefix && n.len() == 5 && n[3] == 'F' && '1' <= n[4] && n[4] <= '9' {
        Some((0x70 + (n[4] as int - '1' as int)) as u16)
    } else if vk_prefix && n.len() == 6 && n[3] == 'F' && n[4] == '1' && '0' <= n[5] && n[5]
        <= '2' {
        Some((0x79 + (n[5] as int - '0' as int)) as u16)
    } else {
        None
    }
}

/// Function keys and letters by `VK_*` name.
pub fn parse_vk_extended(name: &str) -> (r: Option<u16>)
    ensures
        r == vk_extended(name@),
{
    let n = chars_of(name);
    let len = n.len();
    if len < 4 || n[0] != 'V' || n[1] != 'K' || n[2] != '_' {
        return None;
    }
    if len == 4 && 'A' <= n[3] && n[3] <= 'Z' {
        return Some((0x41 + (n[3] as u32 - 'A' as u32)) as u16);
    }
    if len == 5 && n[3] == 'F' && '1' <= n[4] && n[4] <= '9' {
        return Some((0x70 + (n[4] as u32 - '1' as u32)) as u16);
    }
    if len == 6 && n[3] == 'F' && n[4] == '1' && '0' <= n[5] && n[5] <= '2' {
        return Some((0x79 + (n[5] as u32 - '0' as u32)) as u16);
    }
    None
}

/// The key named `name`: the settings' table first, then the extended names.
pub open spec fn key_vk(t: Seq<(Seq<char>, u16)>, name: Seq<char>) -> Option<u16> {
    match table_lookup(t, name) {
        Some(v) => Some(v),
        None => vk_extended(name),
    }
}

/// `VK_` name for a non-modifier part, from its lowercase form.
pub open spec fn vk_name_for(l: Seq<char>) -> Seq<char> {
    if l.len() >= 3 && l[0] == 'v' && l[1] == 'k' && l[2] == '_' {
        upper_seq(l)
    } else {
        seq!['V', 'K', '_'] + upper_seq(l)
    }
}

/// Modifier words a part may be.
#[derive(Clone, Copy, Debug, PartialEq, Eq, Structural)]
pub enum ModifierWord {
    Ctrl,
    Alt,
    Shift,
    Win,
}

pub open spec fn modifier_word(l: Seq<char>) -> Option<ModifierWord> {
    if l == "ctrl"@ || l == "control"@ {
        Some(ModifierWord::Ctrl)
    } else if l == "alt"@ {
        Some(ModifierWord::Alt)
    } else if l == "shift"@ {
        Some(ModifierWord::Shift)
    } else if l == "win"@ || l == "windows"@ || l == "super"@ {
        Some(ModifierWord::Win)
    } else {
        None
    }
}

pub open spec fn with_modifier(m: HotkeyModifiers, w: ModifierWord) -> HotkeyModifiers {
    match w {
        ModifierWord::Ctrl => HotkeyModifiers { ctrl: true, ..m },
        ModifierWord::Alt => HotkeyModifiers { alt: true, ..m },
        ModifierWord::Shift => HotkeyModifiers { shift: true, ..m },
        ModifierWord::Win => HotkeyModifiers { win: true, ..m },
    }
}

/// Effect of one `+`-separated part: blank parts are skipped, modifier words
/// add a modifier, anything else names the key (replacing any earlier key).
pub open spec fn hotkey_step(
    acc: (HotkeyModifiers, Option<u16>),
    part: Seq<char>,
    t: Seq<(Seq<char>, u16)>,
) -> (HotkeyModifiers, Option<u16>) {
    let p = trimmed(part);
    if p.len() == 0 {
        acc
    } else {
        let l = lower_seq(p);
        match modifier_word(l) {
            Some(w) => (with_modifier(acc.0, w), acc.1),
            None => (acc.0, key_vk(t, vk_name_for(l))),
        }
    }
}

pub open spec fn hotkey_fold(parts: Seq<Seq<char>>, t: Seq<(Seq<char>, u16)>) -> (
    HotkeyModifiers,
    Option<u16>,
)
    decreases parts.len(),
{
    if parts.len() == 0 {
        (HotkeyModifiers::spec_none(), None)
    } else {
        hotkey_step(hotkey_fold(parts.drop_last(), t), parts.last(), t)
    }
}

/// What a hotkey string means: its modifiers and the key, when a key is named.
pub open spec fn parse_hotkey_spec(s: Seq<char>, t: Seq<(Seq<char>, u16)>) -> Option<
    (HotkeyModifiers, u16),
> {
    let (m, vk) = hotkey_fold(split_seq(s, '+'), t);
    match vk {
        Some(v) => Some((m, v)),
        None => None,
    }
}

fn modifier_of(l: &str) -> (r: Option<ModifierWord>)
    ensures
        r == modifier_word(l@),
{
    if str_eq(l, "ctrl") || str_eq(l, "control") {
        Some(ModifierWord::Ctrl)
    } else if str_eq(l, "alt") {
        Some(ModifierWord::Alt)
    } else if str_eq(l, "shift") {
        Some(ModifierWord::Shift)
    } else if str_eq(l, "win") || str_eq(l, "windows") || str_eq(l, "super") {
        Some(ModifierWord::Win)
    } else {
        None
    }
}

fn vk_name_of(l: &str) -> (r: String)
    ensures
        r@ == vk_name_for(l@),
{
    let c = chars_of(l);
    let upper = to_ascii_uppercase(l);
    if c.len() >= 3 && c[0] == 'v' && c[1] == 'k' && c[2] == '_' {
        upper
    } else {
        let mut name = string_of("VK_");
        proof {
            reveal_strlit("VK_");
        }
        crate::text::push_str(&mut name, upper.as_str());
        assert(name@ =~= seq!['V', 'K', '_'] + upper_seq(l@));
        name
    }
}

/// Name lookup in the settings' virtual-key table.
pub fn lookup_vk_name(table: &[VkName], name: &str) -> (r: Option<u16>)
    ensures
        r == table_lookup(vk_table_view(table@), name@),
{
    let mut i: usize = 0;
    assert(vk_table_view(table@).subrange(0, table@.len() as int) =~= vk_table_view(table@));
    while i < table.len()
        invariant
            0 <= i <= table.len(),
            table_lookup(vk_table_view(table@), name@) == table_lookup(
                vk_table_view(table@).subrange(i as int, table@.len() as int),
                name@,
            ),
        decreases table.len() - i,
    {
        let ghost rest = vk_table_view(table@).subrange(i as int, table@.len() as int);
        assert(rest[0] == (table@[i as int].name@, table@[i as int].vk));
        if str_eq(table[i].name.as_str(), name) {
            return Some(table[i].vk);
        }
        assert(rest.drop_first() =~= vk_table_view(table@).subrange(
            i + 1,
            table@.len() as int,
        ));
        i += 1;
    }
    None
}

fn key_vk_of(table: &[VkName], name: &str) -> (r: Option<u16>)
    ensures
        r == key_vk(vk_table_view(table@), name@),
{
    match lookup_vk_name(table, name) {
        Some(v) => Some(v),
        None => parse_vk_extended(name),
    }
}

/// Parse a hotkey setting such as `"F9"`, `"VK_F9"` or `"Ctrl+Alt+D"`.
/// `None` when no key is named (modifiers alone, or an unknown key name).
pub fn parse_hotkey(spec: &str, table: &[VkName]) -> (r: Option<(HotkeyModifiers, u16)>)
    ensures
        r == parse_hotkey_spec(spec@, vk_table_view(table@)),
{
    let parts = split_on(spec, '+');
    let ghost t = vk_table_view(table@);
    let ghost ps = split_seq(spec@, '+');
    let mut mods = HotkeyModifiers::none();
    let mut vk: Option<u16> = None;
    let mut i: usize = 0;
    while i < parts.len()
        invariant
            views_of(parts@) == ps,
            ps == split_seq(spec@, '+'),
            t == vk_table_view(table@),
            0 <= i <= parts.len(),
            (mods, vk) == hotkey_fold(ps.take(i as int), t),
        decreases parts.len() - i,
    {
        assert(ps.take(i + 1).drop_last() == ps.take(i as int));
        assert(ps.take(i + 1).last() == parts@[i as int]@);
        let p = trim(parts[i].as_str());
        if p.unicode_len() != 0 {
            let lower = to_ascii_lowercase(p);
            match modifier_of(lower.as_str()) {
                Some(ModifierWord::Ctrl) => {
                    mods.ctrl = true;
                },
                Some(ModifierWord::Alt) => {
                    mods.alt = true;
                },
                Some(ModifierWord::Shift) => {
                    mods.shift = true;
                },
                Some(ModifierWord::Win) => {
                    mods.win = true;
                },
                None => {
                    let name = vk_name_of(lower.as_str());
                    vk = key_vk_of(table, name.as_str());
                },
            }
        }
        i += 1;
    }
    assert(ps.take(parts.len() as int) == ps);
    match vk {
        Some(v) => Some((mods, v)),
        None => None,
    }
}

/// What `RegisterHotKey` should be asked for a hotkey setting.
#[derive(Clone, Copy, Debug, PartialEq, Eq, Structural)]
pub enum HotkeyInstall {
    /// Empty setting: the hotkey stays off.
    Disabled,
    /// Could not be parsed: left off.
    Unparsed,
    /// Register with these modifier bits and virtual key.
    Register { mods: u32, vk: u16 },
}

pub open spec fn install_plan_spec(key: Seq<char>, t: Seq<(Seq<char>, u16)>) -> HotkeyInstall {
    let k = trimmed(key);
    if k.len() == 0 {
        HotkeyInstall::Disabled
    } else {
        match parse_hotkey_spec(k, t) {
            Some((m, v)) => HotkeyInstall::Register { mods: m.spec_bits(), vk: v },
            None => HotkeyInstall::Unparsed,
        }
    }
}

/// Registration state of the global hotkey on a host window.
pub struct HotkeyTrigger {
    hwnd: isize,
    registered: bool,
}

impl HotkeyTrigger {
    pub closed spec fn spec_hwnd(&self) -> isize {
        self.hwnd
    }

    pub closed spec fn spec_registered(&self) -> bool {
        self.registered
    }

    pub fn new(hwnd: isize) -> (r: HotkeyTrigger)
        ensures
            r.spec_hwnd() == hwnd,
            !r.spec_registered(),
    {
        HotkeyTrigger { hwnd, registered: false }
    }

    pub fn hwnd(&self) -> (r: isize)
        ensures
            r == self.spec_hwnd(),
    {
        self.hwnd
    }

    pub fn is_registered(&self) -> (r: bool)
        ensures
            r == self.spec_registered(),
    {
        self.registered
    }

    /// Forget the registration. Returns whether one was held, i.e. whether
    /// `UnregisterHotKey` is due.
    pub fn uninstall(&mut self) -> (was: bool)
        ensures
            was == old(self).spec_registered(),
            !final(self).spec_registered(),
            final(self).spec_hwnd() == old(self).spec_hwnd(),
    {
        let was = self.registered;
        self.registered = false;
        was
    }

    /// Record that `RegisterHotKey` succeeded.
    pub fn mark_registered(&mut self)
        ensures
            final(self).spec_registered(),
            final(self).spec_hwnd() == old(self).spec_hwnd(),
    {
        self.registered = true;
    }

    /// The request that a hotkey setting (whitespace around it ignored) asks for.
    pub fn install_plan(key: &str, table: &[VkName]) -> (r: HotkeyInstall)
        ensures
            r == install_plan_spec(key@, vk_table_view(table@)),
    {
        let k = trim(key);
        if k.unicode_len() == 0 {
            return HotkeyInstall::Disabled;
        }
        match parse_hotkey(k, table) {
            Some((m, v)) => HotkeyInstall::Register { mods: m.bits(), vk: v },
            None => HotkeyInstall::Unparsed,
        }
    }
}

/// One trigger entry of the settings, as far as the hotkey lookup reads it:
/// its `"type"` and `"key"` fields when they are strings.
#[derive(Clone, Debug)]
pub struct TriggerSpec {
    pub kind: Option<String>,
    pub key: Option<String>,
}

pub open spec fn is_hotkey_kind(k: Option<String>) -> bool {
    match k {
        Some(s) => s@ == "hotkey"@,
        None => false,
    }
}

pub open spec fn key_text(k: Option<String>) -> Seq<char> {
    match k {
        Some(s) => s@,
        None => Seq::empty(),
    }
}

/// The key of the first trigger of type `"hotkey"` (empty when it has none),
/// or empty when no trigger is a hotkey.
pub open spec fn hotkey_string_spec(ts: Seq<TriggerSpec>) -> Seq<char>
    decreases ts.len(),
{
    if ts.len() == 0 {
        Seq::empty()
    } else if is_hotkey_kind(ts[0].kind) {
        key_text(ts[0].key)
    } else {
        hotkey_string_spec(ts.drop_first())
    }
}

pub fn hotkey_string_from_triggers(triggers: &[TriggerSpec]) -> (r: String)
    ensures
        r@ == hotkey_string_spec(triggers@),
{
    let mut i: usize = 0;
    assert(triggers@.subrange(0, triggers@.len() as int) =~= triggers@);
    while i < triggers.len()
        invariant
            0 <= i <= triggers.len(),
            hotkey_string_spec(triggers@) == hotkey_string_spec(
                triggers@.subrange(i as int, triggers@.len() as int),
            ),
        decreases triggers.len() - i,
    {
        let ghost rest = triggers@.subrange(i as int, triggers@.len() as int);
        assert(rest[0] == triggers@[i as int]);
        let is_hotkey = match &triggers[i].kind {
            Some(k) => str_eq(k.as_str(), "hotkey"),
            None => false,
        };
        if is_hotkey {
            return match &triggers[i].key {
                Some(k) => k.clone(),
                None => String::new(),
            };
        }
        assert(rest.drop_first() =~= triggers@.subrange(i + 1, triggers@.len() as int));
        i += 1;
    }
    String::new()
}


/// The decimal digit `d` (0 to 9) as a character.
pub open spec fn digit_char(d: int) -> char {
    (48 + d) as char
}

/// The decimal digits of `n` (1 to 12), as a function key is numbered.
pub open spec fn fkey_number(n: int) -> Seq<char> {
    if n < 10 {
        seq![digit_char(n)]
    } else {
        seq![digit_char(1), digit_char(n - 10)]
    }
}

proof fn lemma_digit_char(d: int)
    requires
        0 <= d <= 9,
    ensures
        digit_char(d) as int == 48 + d,
        '0' <= digit_char(d) <= '9',
{
    vstd::utf8::char_u32_cast(digit_char(d), (48 + d) as u32);
    assert(((48 + d) as u32) as char == digit_char(d));
}

/// `VK_F1` .. `VK_F12` name the function keys, virtual keys 0x70 .. 0x7B.
pub proof fn lemma_vk_function_keys(n: int)
    requires
        1 <= n <= 12,
    ensures
        vk_extended(seq!['V', 'K', '_', 'F'] + fkey_number(n)) == Some((0x6F + n) as u16),
{
    let name = seq!['V', 'K', '_', 'F'] + fkey_number(n);
    if n < 10 {
        lemma_digit_char(n);
        assert(name[4] == digit_char(n));
    } else {
        lemma_digit_char(1);
        lemma_digit_char(n - 10);
        assert(name[4] == digit_char(1));
        assert(name[5] == digit_char(n - 10));
    }
}

/// `VK_A` .. `VK_Z` name the letter keys, whose virtual key is the letter's
/// own code.
pub proof fn lemma_vk_letter_keys(c: char)
    requires
        'A' <= c <= 'Z',
    ensures
        vk_extended(seq!['V', 'K', '_', c]) == Some(c as u16),
{
}

proof fn lemma_split_without_sep(s: Seq<char>, sep: char)
    requires
        !s.contains(sep),
    ensures
        split_seq(s, sep) == seq![s],
    decreases s.len(),
{
    if s.len() > 0 {
        let init = s.drop_last();
        assert(!init.contains(sep)) by {
            if init.contains(sep) {
                let k = choose|k: int| 0 <= k < init.len() && init[k] == sep;
                assert(s[k] == sep);
            }
        }
        lemma_split_without_sep(init, sep);
        assert(s.last() != sep) by {
            assert(s[s.len() - 1] == s.last());
        }
        assert(init.push(s.last()) =~= s);
        assert(seq![init].update(0, init.push(s.last())) =~= seq![s]);
    } else {
        assert(s =~= Seq::<char>::empty());
    }
}

/// A function key alone, `"F1"` .. `"F12"`, parses to that key with no
/// modifiers, unless the settings' table names `VK_F<n>` otherwise.
pub proof fn lemma_parse_function_key(t: Seq<(Seq<char>, u16)>, n: int)
    requires
        1 <= n <= 12,
        table_lookup(t, seq!['V', 'K', '_', 'F'] + fkey_number(n)) is None,
    ensures
        parse_hotkey_spec(seq!['F'] + fkey_number(n), t) == Some(
            (HotkeyModifiers::spec_none(), (0x6F + n) as u16),
        ),
{
    let s = seq!['F'] + fkey_number(n);
    if n < 10 {
        lemma_digit_char(n);
    } else {
        lemma_digit_char(1);
        lemma_digit_char(n - 10);
    }
    assert(forall|k: int| 1 <= k < s.len() ==> '0' <= #[trigger] s[k] <= '9');
    assert(!s.contains('+')) by {
        if s.contains('+') {
            let k = choose|k: int| 0 <= k < s.len() && s[k] == '+';
            assert(k == 0 || '0' <= s[k] <= '9');
        }
    }
    lemma_split_without_sep(s, '+');
    assert(hotkey_fold(seq![s], t) == hotkey_step(hotkey_fold(Seq::<Seq<char>>::empty(), t), s, t)) by {
        assert(seq![s].drop_last() =~= Seq::<Seq<char>>::empty());
    }
    assert(!crate::text::is_white_space(s[0]));
    assert(!crate::text::is_white_space(s.last())) by {
        assert('0' <= s[s.len() - 1] <= '9');
    }
    assert(crate::text::trim_start_seq(s) == s);
    assert(crate::text::trim_end_seq(s) == s);
    assert(trimmed(s) == s);
    let l = lower_seq(s);
    assert(l[0] == 'f');
    reveal_strlit("ctrl");
    reveal_strlit("control");
    reveal_strlit("alt");
    reveal_strlit("shift");
    reveal_strlit("win");
    reveal_strlit("windows");
    reveal_strlit("super");
    assert(l != "ctrl"@ && l != "control"@ && l != "alt"@ && l != "shift"@) by {
        assert("ctrl"@[0] == 'c' && "control"@[0] == 'c' && "alt"@[0] == 'a' && "shift"@[0] == 's');
    }
    assert(l != "win"@ && l != "windows"@ && l != "super"@) by {
        assert("win"@[0] == 'w' && "windows"@[0] == 'w' && "super"@[0] == 's');
    }
    assert(modifier_word(l) is None);
    assert(vk_name_for(l) =~= seq!['V', 'K', '_', 'F'] + fkey_number(n)) by {
        assert(upper_seq(l).len() == s.len());
        assert forall|k: int| 0 <= k < s.len() implies #[trigger] upper_seq(l)[k] == s[k] by {
            if k > 0 {
                assert('0' <= s[k] <= '9');
            }
        }
    }
    lemma_vk_function_keys(n);
}


/// Registering `"F1"` .. `"F12"` asks for that function key with no
/// modifier bits; a blank setting leaves the hotkey off.
pub proof fn lemma_install_function_key(t: Seq<(Seq<char>, u16)>, n: int)
    requires
        1 <= n <= 12,
        table_lookup(t, seq!['V', 'K', '_', 'F'] + fkey_number(n)) is None,
    ensures
        install_plan_spec(seq!['F'] + fkey_number(n), t) == (HotkeyInstall::Register {
            mods: 0,
            vk: (0x6F + n) as u16,
        }),
        install_plan_spec(Seq::<char>::empty(), t) == HotkeyInstall::Disabled,
{
    lemma_parse_function_key(t, n);
    let s = seq!['F'] + fkey_number(n);
    if n < 10 {
        lemma_digit_char(n);
    } else {
        lemma_digit_char(1);
        lemma_digit_char(n - 10);
    }
    assert(!crate::text::is_white_space(s[0]));
    assert(!crate::text::is_white_space(s.last())) by {
        assert('0' <= s[s.len() - 1] <= '9');
    }
    assert(crate::text::trim_start_seq(s) == s);
    assert(crate::text::trim_end_seq(s) == s);
    assert(trimmed(Seq::<char>::empty()) == Seq::<char>::empty());
}

/// The modifier bits are `MOD_ALT` 1, `MOD_CONTROL` 2, `MOD_SHIFT` 4 and
/// `MOD_WIN` 8, one for each modifier held.
pub proof fn lemma_modifier_bits(m: HotkeyModifiers)
    ensures
        m.spec_bits() == (if m.alt { 1u32 } else { 0 }) + (if m.ctrl { 2u32 } else { 0 }) + (
        if m.shift {
            4u32
        } else {
            0
        }) + (if m.win { 8u32 } else { 0 }),
{
}

} // verus!
