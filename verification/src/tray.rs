//! System tray: icon bookkeeping, click routing, the context-menu model and
//! menu-command dispatch.

use vstd::prelude::*;

use crate::mode_runtime::{set_mode_pick_files, strings_view, ModeRuntime};
use crate::text::{eq_ignore_ascii_case, lower_seq, trim, trimmed};

verus! {

pub const WM_USER: u32 = 0x0400;
/// `NOTIFYICON_VERSION_4` selection callbacks.
pub const NIN_SELECT: u32 = 0x0400;
pub const NIN_KEYSELECT: u32 = 0x0401;
pub const WM_CONTEXTMENU: u32 = 0x007B;
pub const WM_LBUTTONUP: u32 = 0x0202;
pub const WM_LBUTTONDBLCLK: u32 = 0x0203;
pub const WM_RBUTTONUP: u32 = 0x0205;

pub const IDM_RUN: usize = 1001;
pub const IDM_SEARCH: usize = 1002;
pub const IDM_SETTINGS: usize = 1003;
pub const IDM_RELOAD: usize = 1004;
pub const IDM_HELP: usize = 1005;
pub const IDM_QUIT: usize = 1006;
pub const IDM_MODE_BASE: usize = 1100;
pub const IDM_KEYSET_BASE: usize = 1200;

/// How many times adding the icon is tried before giving up.
pub const ADD_ATTEMPTS: u32 = 5;

/// The registered `TaskbarCreated` message id (0 until registered).
pub struct TaskbarCreated {
    id: u32,
}

impl TaskbarCreated {
    pub closed spec fn spec_id(&self) -> u32 {
        self.id
    }

    pub fn new() -> (r: TaskbarCreated)
        ensures
            r.spec_id() == 0,
    {
        TaskbarCreated { id: 0 }
    }
}

/// Keep the id that `RegisterWindowMessageW("TaskbarCreated")` returned.
pub fn register_taskbar_created_message(tc: &mut TaskbarCreated, id: u32)
    ensures
        final(tc).spec_id() == id,
{
    tc.id = id;
}

/// The registered id (0 until registered).
pub fn taskbar_created_msg(tc: &TaskbarCreated) -> (r: u32)
    ensures
        r == tc.spec_id(),
{
    tc.id
}

/// The `TaskbarCreated` broadcast (Explorer restarted): only once registered.
pub fn is_taskbar_created(tc: &TaskbarCreated, msg: u32) -> (r: bool)
    ensures
        r == (msg == tc.spec_id() && msg != 0),
{
    msg == tc.id && msg != 0
}

/// After one attempt to add the icon.
#[derive(Clone, Copy, Debug, PartialEq, Eq, Structural)]
pub enum AddStep {
    /// Added: set the callback version and mark the icon as in the tray.
    Added,
    /// Wait a moment and try again.
    Retry,
    /// Give up: the icon is unavailable (hooks and hotkey still work).
    GiveUp,
}

/// Outcome of attempt number `attempt` (from 1) to add the icon.
pub fn add_attempt_step(attempt: u32, added: bool) -> (r: AddStep)
    requires
        1 <= attempt <= ADD_ATTEMPTS,
    ensures
        r == (if added {
            AddStep::Added
        } else if attempt < ADD_ATTEMPTS {
            AddStep::Retry
        } else {
            AddStep::GiveUp
        }),
{
    if added {
        AddStep::Added
    } else if attempt < ADD_ATTEMPTS {
        AddStep::Retry
    } else {
        AddStep::GiveUp
    }
}

/// What a tray-icon callback asks for.
#[derive(Clone, Copy, Debug, PartialEq, Eq, Structural)]
pub enum TrayClick {
    /// Left click / keyboard select: open Search.
    OpenSearch,
    /// Right click / context key: show the context menu.
    ContextMenu,
    Ignore,
}

/// The event is the low word of `lParam` (both callback versions).
pub open spec fn tray_event(lparam: isize) -> u32 {
    ((lparam as u32) % 0x10000) as u32
}

pub open spec fn tray_click_spec(event: u32) -> TrayClick {
    if event == NIN_SELECT || event == NIN_KEYSELECT || event == WM_LBUTTONUP || event
        == WM_LBUTTONDBLCLK {
        TrayClick::OpenSearch
    } else if event == WM_CONTEXTMENU || event == WM_RBUTTONUP {
        TrayClick::ContextMenu
    } else {
        TrayClick::Ignore
    }
}

/// One entry of a tray submenu.
#[derive(Clone, Debug)]
pub struct MenuItem {
    pub id: usize,
    pub label: String,
    pub checked: bool,
}

/// The dynamic part of the context menu: Mode and Keys submenus (each is
/// shown only when it has entries).
pub struct TrayMenu {
    pub mode_items: Vec<MenuItem>,
    pub keyset_items: Vec<MenuItem>,
}

/// A menu command picked by the user.
#[derive(Clone, Copy, Debug, PartialEq, Eq, Structural)]
pub enum TrayCommand {
    Run,
    Search,
    Settings,
    Reload,
    Help,
    Quit,
    /// Switch to the slot file at this Mode-submenu index.
    ModePick(usize),
    /// Switch to the key set at this Keys-submenu index.
    KeysetPick(usize),
    Nothing,
}

pub open spec fn menu_command_spec(cmd: usize, n_modes: usize, n_keysets: usize) -> TrayCommand {
    if cmd == IDM_RUN {
        TrayCommand::Run
    } else if cmd == IDM_SEARCH {
        TrayCommand::Search
    } else if cmd == IDM_SETTINGS {
        TrayCommand::Settings
    } else if cmd == IDM_RELOAD {
        TrayCommand::Reload
    } else if cmd == IDM_HELP {
        TrayCommand::Help
    } else if cmd == IDM_QUIT {
        TrayCommand::Quit
    } else if cmd >= IDM_MODE_BASE && cmd < IDM_MODE_BASE + n_modes {
        TrayCommand::ModePick((cmd - IDM_MODE_BASE) as usize)
    } else if cmd >= IDM_KEYSET_BASE && cmd < IDM_KEYSET_BASE + n_keysets {
        TrayCommand::KeysetPick((cmd - IDM_KEYSET_BASE) as usize)
    } else {
        TrayCommand::Nothing
    }
}

/// Each fixed menu item gives its own command, whatever the submenus hold:
/// Run (1001), Search (1002), Settings (1003), Reload (1004), Help (1005),
/// Quit (1006). An item of the Mode submenu gives the pick of its index, and
/// so does an item of the Keys submenu (while the Mode submenu has at most
/// 100 entries, so that the two id ranges stay apart).
pub proof fn lemma_menu_ids_give_their_commands(n_modes: usize, n_keysets: usize, i: usize)
    ensures
        menu_command_spec(1001, n_modes, n_keysets) == TrayCommand::Run,
        menu_command_spec(1002, n_modes, n_keysets) == TrayCommand::Search,
        menu_command_spec(1003, n_modes, n_keysets) == TrayCommand::Settings,
        menu_command_spec(1004, n_modes, n_keysets) == TrayCommand::Reload,
        menu_command_spec(1005, n_modes, n_keysets) == TrayCommand::Help,
        menu_command_spec(1006, n_modes, n_keysets) == TrayCommand::Quit,
        i < n_modes && 1100 + i <= usize::MAX ==> menu_command_spec(
            (1100 + i) as usize,
            n_modes,
            n_keysets,
        ) == TrayCommand::ModePick(i),
        i < n_keysets && n_modes <= 100 && 1200 + i <= usize::MAX ==> menu_command_spec(
            (1200 + i) as usize,
            n_modes,
            n_keysets,
        ) == TrayCommand::KeysetPick(i),
{
}

/// Two ids give the same command only when they are the same id (the ids of
/// the picks lying in their submenus' ranges).
pub proof fn lemma_menu_command_injective(a: usize, b: usize, n_modes: usize, n_keysets: usize)
    requires
        menu_command_spec(a, n_modes, n_keysets) == menu_command_spec(b, n_modes, n_keysets),
        menu_command_spec(a, n_modes, n_keysets) != TrayCommand::Nothing,
    ensures
        a == b,
{
}

/// A left click, double click or keyboard select (0x0202, 0x0203, 0x0400,
/// 0x0401) opens Search; a right click or the context key (0x0205, 0x007B)
/// shows the menu; every other event is ignored.
pub proof fn lemma_tray_clicks(event: u32)
    ensures
        (event == 0x0202 || event == 0x0203 || event == 0x0400 || event == 0x0401)
            <==> tray_click_spec(event) == TrayClick::OpenSearch,
        (event == 0x0205 || event == 0x007B) <==> tray_click_spec(event) == TrayClick::ContextMenu,
{
}

/// Map the id returned by `TrackPopupMenu` to a command.
pub fn menu_command(cmd: usize, n_modes: usize, n_keysets: usize) -> (r: TrayCommand)
    ensures
        r == menu_command_spec(cmd, n_modes, n_keysets),
{
    if cmd == IDM_RUN {
        TrayCommand::Run
    } else if cmd == IDM_SEARCH {
        TrayCommand::Search
    } else if cmd == IDM_SETTINGS {
        TrayCommand::Settings
    } else if cmd == IDM_RELOAD {
        TrayCommand::Reload
    } else if cmd == IDM_HELP {
        TrayCommand::Help
    } else if cmd == IDM_QUIT {
        TrayCommand::Quit
    } else if cmd >= IDM_MODE_BASE && cmd - IDM_MODE_BASE < n_modes {
        TrayCommand::ModePick(cmd - IDM_MODE_BASE)
    } else if cmd >= IDM_KEYSET_BASE && cmd - IDM_KEYSET_BASE < n_keysets {
        TrayCommand::KeysetPick(cmd - IDM_KEYSET_BASE)
    } else {
        TrayCommand::Nothing
    }
}

/// Picking the i-th Mode entry comes back as that index; the i-th Keys entry
/// too, as long as the Mode ids do not reach into the Keys id range.
pub proof fn lemma_menu_ids_round_trip(i: usize, n_modes: usize, n_keysets: usize)
    ensures
        i < n_modes && IDM_MODE_BASE + i <= usize::MAX ==> menu_command_spec((IDM_MODE_BASE + i) as usize, n_modes, n_keysets)
            == TrayCommand::ModePick(i),
        i < n_keysets && n_modes <= IDM_KEYSET_BASE - IDM_MODE_BASE && IDM_KEYSET_BASE + i
            <= usize::MAX ==> menu_command_spec((IDM_KEYSET_BASE + i) as usize, n_modes, n_keysets)
            == TrayCommand::KeysetPick(i),
{
}

/// A Mode entry is checked when it names the current slot file (ASCII case
/// ignored, current name trimmed and non-empty).
pub open spec fn mode_checked(file: Seq<char>, current: Seq<char>) -> bool {
    trimmed(current).len() != 0 && lower_seq(file) == lower_seq(trimmed(current))
}

/// A Keys entry is checked when it is the current key set (trimmed, non-empty).
pub open spec fn keyset_checked(id: Seq<char>, current: Seq<char>) -> bool {
    trimmed(current).len() != 0 && id == trimmed(current)
}

/// The label at `i`, falling back to the entry itself when labels run short.
pub open spec fn label_or(labels: Seq<Seq<char>>, i: int, fallback: Seq<char>) -> Seq<char> {
    if 0 <= i < labels.len() {
        labels[i]
    } else {
        fallback
    }
}

pub open spec fn item_view(m: MenuItem) -> (usize, Seq<char>, bool) {
    (m.id, m.label@, m.checked)
}

/// Tray icon state for one host window.
pub struct WindowsTray {
    hwnd: isize,
    icon: isize,
    added: bool,
    mode_files: Vec<String>,
    mode_labels: Vec<String>,
    mode_current: String,
    keyset_ids: Vec<String>,
    keyset_labels: Vec<String>,
    keyset_current: String,
}

impl WindowsTray {
    pub closed spec fn spec_hwnd(&self) -> isize {
        self.hwnd
    }

    pub closed spec fn spec_icon(&self) -> isize {
        self.icon
    }

    pub closed spec fn spec_added(&self) -> bool {
        self.added
    }

    pub closed spec fn spec_mode_files(&self) -> Seq<Seq<char>> {
        strings_view(self.mode_files@)
    }

    pub closed spec fn spec_mode_labels(&self) -> Seq<Seq<char>> {
        strings_view(self.mode_labels@)
    }

    pub closed spec fn spec_mode_current(&self) -> Seq<char> {
        self.mode_current@
    }

    pub closed spec fn spec_keyset_ids(&self) -> Seq<Seq<char>> {
        strings_view(self.keyset_ids@)
    }

    pub closed spec fn spec_keyset_labels(&self) -> Seq<Seq<char>> {
        strings_view(self.keyset_labels@)
    }

    pub closed spec fn spec_keyset_current(&self) -> Seq<char> {
        self.keyset_current@
    }

    /// A tray for `hwnd` with the loaded icon handle; not added yet.
    pub fn new(hwnd: isize, icon: isize) -> (r: WindowsTray)
        ensures
            r.spec_hwnd() == hwnd,
            r.spec_icon() == icon,
            !r.spec_added(),
            r.spec_mode_files().len() == 0,
            r.spec_mode_labels().len() == 0,
            r.spec_mode_current().len() == 0,
            r.spec_keyset_ids().len() == 0,
            r.spec_keyset_labels().len() == 0,
            r.spec_keyset_current().len() == 0,
    {
        WindowsTray {
            hwnd,
            icon,
            added: false,
            mode_files: Vec::new(),
            mode_labels: Vec::new(),
            mode_current: String::new(),
            keyset_ids: Vec::new(),
            keyset_labels: Vec::new(),
            keyset_current: String::new(),
        }
    }

    pub fn hwnd(&self) -> (r: isize)
        ensures
            r == self.spec_hwnd(),
    {
        self.hwnd
    }

    pub fn icon(&self) -> (r: isize)
        ensures
            r == self.spec_icon(),
    {
        self.icon
    }

    pub fn is_added(&self) -> (r: bool)
        ensures
            r == self.spec_added(),
    {
        self.added
    }

    /// Slot files for the Mode submenu (also published for menu picks).
    pub fn set_mode_files(
        &mut self,
        rt: &mut ModeRuntime,
        files: Vec<String>,
        labels: Vec<String>,
        current: String,
    )
        ensures
            final(self).spec_mode_files() == strings_view(files@),
            final(self).spec_mode_labels() == strings_view(labels@),
            final(self).spec_mode_current() == current@,
            final(rt).spec_pick_files() == strings_view(files@),
            final(self).spec_keyset_ids() == old(self).spec_keyset_ids(),
            final(self).spec_keyset_labels() == old(self).spec_keyset_labels(),
            final(self).spec_keyset_current() == old(self).spec_keyset_current(),
            final(self).spec_added() == old(self).spec_added(),
            final(self).spec_hwnd() == old(self).spec_hwnd(),
            final(self).spec_icon() == old(self).spec_icon(),
    {
        let copy = clone_strings(&files);
        set_mode_pick_files(rt, copy);
        self.mode_files = files;
        self.mode_labels = labels;
        self.mode_current = current;
    }

    /// Key sets for the Keys submenu.
    pub fn set_key_sets(&mut self, ids: Vec<String>, labels: Vec<String>, current: String)
        ensures
            final(self).spec_keyset_ids() == strings_view(ids@),
            final(self).spec_keyset_labels() == strings_view(labels@),
            final(self).spec_keyset_current() == current@,
            final(self).spec_mode_files() == old(self).spec_mode_files(),
            final(self).spec_mode_labels() == old(self).spec_mode_labels(),
            final(self).spec_mode_current() == old(self).spec_mode_current(),
            final(self).spec_added() == old(self).spec_added(),
            final(self).spec_hwnd() == old(self).spec_hwnd(),
            final(self).spec_icon() == old(self).spec_icon(),
    {
        self.keyset_ids = ids;
        self.keyset_labels = labels;
        self.keyset_current = current;
    }

    /// Record that `NIM_ADD` succeeded.
    pub fn mark_added(&mut self)
        ensures
            final(self).spec_added(),
            final(self).spec_hwnd() == old(self).spec_hwnd(),
            final(self).spec_icon() == old(self).spec_icon(),
    {
        self.added = true;
    }

    /// Forget the icon (Explorer restarted, or it was removed). Returns whether
    /// it was shown, i.e. whether `NIM_DELETE` is due.
    pub fn remove(&mut self) -> (was: bool)
        ensures
            was == old(self).spec_added(),
            !final(self).spec_added(),
            final(self).spec_hwnd() == old(self).spec_hwnd(),
            final(self).spec_icon() == old(self).spec_icon(),
            final(self).spec_mode_files() == old(self).spec_mode_files(),
            final(self).spec_keyset_ids() == old(self).spec_keyset_ids(),
    {
        let was = self.added;
        self.added = false;
        was
    }

    /// A balloon is shown only while the icon is in the tray.
    pub fn notify(&self) -> (show: bool)
        ensures
            show == self.spec_added(),
    {
        self.added
    }

    /// Route a tray callback by its `lParam`.
    pub fn handle_callback(&self, lparam: isize) -> (r: TrayClick)
        ensures
            r == tray_click_spec(tray_event(lparam)),
    {
        let event: u32 = (lparam as u32) % 0x10000;
        if event == NIN_SELECT || event == NIN_KEYSELECT || event == WM_LBUTTONUP || event
            == WM_LBUTTONDBLCLK {
            TrayClick::OpenSearch
        } else if event == WM_CONTEXTMENU || event == WM_RBUTTONUP {
            TrayClick::ContextMenu
        } else {
            TrayClick::Ignore
        }
    }

    /// The Mode and Keys submenus for the current state.
    pub fn context_menu(&self) -> (r: TrayMenu)
        requires
            self.spec_mode_files().len() <= usize::MAX - IDM_MODE_BASE,
            self.spec_keyset_ids().len() <= usize::MAX - IDM_KEYSET_BASE,
        ensures
            r.mode_items@.len() == self.spec_mode_files().len(),
            forall|i: int|
                0 <= i < r.mode_items@.len() ==> #[trigger] item_view(r.mode_items@[i]) == (
                    (IDM_MODE_BASE + i) as usize,
                    label_or(self.spec_mode_labels(), i, self.spec_mode_files()[i]),
                    mode_checked(self.spec_mode_files()[i], self.spec_mode_current()),
                ),
            r.keyset_items@.len() == self.spec_keyset_ids().len(),
            forall|i: int|
                0 <= i < r.keyset_items@.len() ==> #[trigger] item_view(r.keyset_items@[i]) == (
                    (IDM_KEYSET_BASE + i) as usize,
                    label_or(self.spec_keyset_labels(), i, self.spec_keyset_ids()[i]),
                    keyset_checked(self.spec_keyset_ids()[i], self.spec_keyset_current()),
                ),
    {
        let cur = trim(self.mode_current.as_str());
        let cur_empty = cur.unicode_len() == 0;
        let mut mode_items: Vec<MenuItem> = Vec::new();
        let mut i: usize = 0;
        while i < self.mode_files.len()
            invariant
                0 <= i <= self.mode_files.len(),
                cur@ == trimmed(self.spec_mode_current()),
                cur_empty == (cur@.len() == 0),
                self.spec_mode_files().len() <= usize::MAX - IDM_MODE_BASE,
                mode_items@.len() == i,
                forall|k: int|
                    0 <= k < i ==> #[trigger] item_view(mode_items@[k]) == (
                        (IDM_MODE_BASE + k) as usize,
                        label_or(self.spec_mode_labels(), k, self.spec_mode_files()[k]),
                        mode_checked(self.spec_mode_files()[k], self.spec_mode_current()),
                    ),
            decreases self.mode_files.len() - i,
        {
            let file = &self.mode_files[i];
            let label = if i < self.mode_labels.len() {
                self.mode_labels[i].clone()
            } else {
                file.clone()
            };
            let checked = !cur_empty && eq_ignore_ascii_case(file.as_str(), cur);
            mode_items.push(MenuItem { id: IDM_MODE_BASE + i, label, checked });
            i += 1;
        }
        let kcur = trim(self.keyset_current.as_str());
        let kcur_empty = kcur.unicode_len() == 0;
        let mut keyset_items: Vec<MenuItem> = Vec::new();
        let mut j: usize = 0;
        while j < self.keyset_ids.len()
            invariant
                0 <= j <= self.keyset_ids.len(),
                kcur@ == trimmed(self.spec_keyset_current()),
                kcur_empty == (kcur@.len() == 0),
                self.spec_keyset_ids().len() <= usize::MAX - IDM_KEYSET_BASE,
                keyset_items@.len() == j,
                forall|k: int|
                    0 <= k < j ==> #[trigger] item_view(keyset_items@[k]) == (
                        (IDM_KEYSET_BASE + k) as usize,
                        label_or(self.spec_keyset_labels(), k, self.spec_keyset_ids()[k]),
                        keyset_checked(self.spec_keyset_ids()[k], self.spec_keyset_current()),
                    ),
            decreases self.keyset_ids.len() - j,
        {
            let id = &self.keyset_ids[j];
            let label = if j < self.keyset_labels.len() {
                self.keyset_labels[j].clone()
            } else {
                id.clone()
            };
            let checked = !kcur_empty && crate::text::str_eq(id.as_str(), kcur);
            keyset_items.push(MenuItem { id: IDM_KEYSET_BASE + j, label, checked });
            j += 1;
        }
        TrayMenu { mode_items, keyset_items }
    }
}

/// Copies of the strings, in order.
pub fn clone_strings(v: &Vec<String>) -> (r: Vec<String>)
    ensures
        strings_view(r@) == strings_view(v@),
{
    let mut out: Vec<String> = Vec::new();
    let mut i: usize = 0;
    while i < v.len()
        invariant
            0 <= i <= v.len(),
            out@.len() == i,
            strings_view(out@) == strings_view(v@).take(i as int),
        decreases v.len() - i,
    {
        let s = v[i].clone();
        assert(s@ == v@[i as int]@);
        let ghost before = out@;
        out.push(s);
        assert(out@ == before.push(s));
        assert forall|k: int| 0 <= k < i + 1 implies #[trigger] strings_view(out@)[k]
            == strings_view(v@).take(i + 1)[k] by {
            assert(strings_view(out@)[k] == out@[k]@);
            assert(strings_view(v@)[k] == v@[k]@);
            if k < i {
                assert(strings_view(before)[k] == strings_view(v@).take(i as int)[k]);
                assert(strings_view(before)[k] == before[k]@);
                assert(out@[k] == before[k]);
            } else {
                assert(out@[k] == s);
            }
        }
        assert(strings_view(out@) =~= strings_view(v@).take(i + 1));
        i += 1;
    }
    assert(strings_view(v@).take(v.len() as int) =~= strings_view(v@));
    out
}

/// The first `cap` code units (a fixed-size `NOTIFYICONDATAW` text field).
pub fn fit_units(units: &[u16], cap: usize) -> (r: Vec<u16>)
    ensures
        r@ == units@.take(if units@.len() < cap { units@.len() as int } else { cap as int }),
{
    let n = if units.len() < cap {
        units.len()
    } else {
        cap
    };
    let mut out: Vec<u16> = Vec::new();
    let mut i: usize = 0;
    while i < n
        invariant
            0 <= i <= n,
            n <= units.len(),
            out@ == units@.take(i as int),
        decreases n - i,
    {
        out.push(units[i]);
        assert(units@.take(i + 1) =~= units@.take(i as int).push(units@[i as int]));
        i += 1;
    }
    out
}

} // verus!
