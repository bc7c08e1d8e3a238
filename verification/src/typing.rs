//! Typing window: the keyboard hook's key filter (autorepeat suppression),
//! key-to-event routing, launch feedback, trigger routing and the typing
//! window's fixed row layout.

use vstd::prelude::*;

use crate::launch_queue::{queue_launch, queued_one, table_find, LaunchJob, LaunchQueue, SlotTable};
use crate::text::{eq_ignore_ascii_case, lower_seq, trim, trimmed};

verus! {

pub const WM_KEYDOWN: u32 = 0x0100;
pub const WM_KEYUP: u32 = 0x0101;
pub const WM_SYSKEYDOWN: u32 = 0x0104;
pub const WM_SYSKEYUP: u32 = 0x0105;

/// Option rows under the dial area (one per legend item).
pub const LEGEND_ITEM_COUNT: usize = 5;
/// Title of the separator row.
pub const SEPARATOR_TITLE: &'static str = "--------";

/// What the keyboard hook does with one event.
#[derive(Clone, Copy, Debug, PartialEq, Eq, Structural)]
pub enum KeyAction {
    /// Pass the event on to the foreground application.
    Pass,
    /// Swallow it (a key-up or autorepeat of a key the typing window owns).
    Swallow,
    /// Post the key to the typing window and swallow it.
    PostAndSwallow,
}

pub open spec fn is_down(msg: u32) -> bool {
    msg == WM_KEYDOWN || msg == WM_SYSKEYDOWN
}

pub open spec fn is_up(msg: u32) -> bool {
    msg == WM_KEYUP || msg == WM_SYSKEYUP
}

/// Whether an event reaches the filter at all: a real (not injected) key
/// event while the typing window is open.
pub open spec fn tracked_event(code: i32, msg: u32, injected: bool, window_open: bool) -> bool {
    code == 0 && (is_down(msg) || is_up(msg)) && !injected && window_open
}

/// The filter's answer and its new set of held keys. `consumed` tells whether
/// the typing window owns the key (a role key or a digit).
pub open spec fn key_filter_spec(
    pressed: Set<u32>,
    code: i32,
    msg: u32,
    injected: bool,
    window_open: bool,
    vk: u32,
    consumed: bool,
) -> (KeyAction, Set<u32>) {
    if !tracked_event(code, msg, injected, window_open) {
        (KeyAction::Pass, pressed)
    } else if is_up(msg) {
        (if consumed {
            KeyAction::Swallow
        } else {
            KeyAction::Pass
        }, pressed.remove(vk))
    } else if pressed.contains(vk) {
        (if consumed {
            KeyAction::Swallow
        } else {
            KeyAction::Pass
        }, pressed)
    } else {
        (if consumed {
            KeyAction::PostAndSwallow
        } else {
            KeyAction::Pass
        }, pressed.insert(vk))
    }
}

/// The typing session's keyboard hook: whether it is installed, and the keys
/// held down while it is (for autorepeat).
pub struct KeyFilter {
    installed: bool,
    pressed: Vec<u32>,
}

/// One step of the hook: an event reaches the filter only while the hook is
/// installed; otherwise the system never calls it and the event passes.
pub open spec fn hook_step_spec(
    installed: bool,
    pressed: Set<u32>,
    code: i32,
    msg: u32,
    injected: bool,
    window_open: bool,
    vk: u32,
    consumed: bool,
) -> (KeyAction, Set<u32>) {
    key_filter_spec(pressed, code, msg, injected, installed && window_open, vk, consumed)
}

impl KeyFilter {
    pub closed spec fn wf(&self) -> bool {
        self.pressed@.no_duplicates()
    }

    pub closed spec fn spec_pressed(&self) -> Set<u32> {
        self.pressed@.to_set()
    }

    pub closed spec fn spec_installed(&self) -> bool {
        self.installed
    }

    /// No hook yet, nothing held.
    pub fn new() -> (r: KeyFilter)
        ensures
            r.wf(),
            !r.spec_installed(),
            r.spec_pressed() == Set::<u32>::empty(),
    {
        let r = KeyFilter { installed: false, pressed: Vec::new() };
        assert(r.pressed@.to_set() =~= Set::<u32>::empty());
        r
    }

    /// The typing session opened and installed its hook: nothing held yet.
    pub fn install(&mut self)
        ensures
            final(self).wf(),
            final(self).spec_installed(),
            final(self).spec_pressed() == Set::<u32>::empty(),
    {
        self.installed = true;
        self.pressed = Vec::new();
        assert(self.pressed@.to_set() =~= Set::<u32>::empty());
    }

    /// The typing session closed and removed its hook: every held key is
    /// forgotten.
    pub fn uninstall(&mut self)
        ensures
            final(self).wf(),
            !final(self).spec_installed(),
            final(self).spec_pressed() == Set::<u32>::empty(),
    {
        self.installed = false;
        self.pressed = Vec::new();
        assert(self.pressed@.to_set() =~= Set::<u32>::empty());
    }

    /// Forget every held key; the hook stays as it is.
    pub fn clear(&mut self)
        ensures
            final(self).wf(),
            final(self).spec_installed() == old(self).spec_installed(),
            final(self).spec_pressed() == Set::<u32>::empty(),
    {
        self.pressed = Vec::new();
        assert(self.pressed@.to_set() =~= Set::<u32>::empty());
    }

    /// Decide one low-level keyboard event and update the held keys.
    pub fn on_key(
        &mut self,
        code: i32,
        msg: u32,
        injected: bool,
        window_open: bool,
        vk: u32,
        consumed: bool,
    ) -> (r: KeyAction)
        requires
            old(self).wf(),
        ensures
            final(self).wf(),
            final(self).spec_installed() == old(self).spec_installed(),
            (r, final(self).spec_pressed()) == hook_step_spec(
                old(self).spec_installed(),
                old(self).spec_pressed(),
                code,
                msg,
                injected,
                window_open,
                vk,
                consumed,
            ),
    {
        let down = msg == WM_KEYDOWN || msg == WM_SYSKEYDOWN;
        let up = msg == WM_KEYUP || msg == WM_SYSKEYUP;
        if code != 0 || (!down && !up) || injected || !window_open || !self.installed {
            return KeyAction::Pass;
        }
        let found = self.position(vk);
        if up {
            if let Some(i) = found {
                let ghost before = self.pressed@;
                self.pressed.remove(i);
                proof {
                    lemma_remove_to_set(before, i as int);
                }
            } else {
                assert(self.pressed@.to_set().remove(vk) =~= self.pressed@.to_set());
            }
            return if consumed {
                KeyAction::Swallow
            } else {
                KeyAction::Pass
            };
        }
        if found.is_some() {
            return if consumed {
                KeyAction::Swallow
            } else {
                KeyAction::Pass
            };
        }
        let ghost before = self.pressed@;
        self.pressed.push(vk);
        assert(self.pressed@.to_set() =~= before.to_set().insert(vk)) by {
            assert forall|x: u32| self.pressed@.contains(x) <==> before.contains(x) || x == vk by {
                if self.pressed@.contains(x) {
                    let k = choose|k: int| 0 <= k < self.pressed@.len() && self.pressed@[k] == x;
                    if k < before.len() {
                        assert(before[k] == x);
                    }
                }
                if before.contains(x) {
                    let k = choose|k: int| 0 <= k < before.len() && before[k] == x;
                    assert(self.pressed@[k] == x);
                }
                if x == vk {
                    assert(self.pressed@[before.len() as int] == x);
                }
            }
        }
        if consumed {
            KeyAction::PostAndSwallow
        } else {
            KeyAction::Pass
        }
    }

    fn position(&self, vk: u32) -> (r: Option<usize>)
        ensures
            match r {
                Some(i) => i < self.pressed@.len() && self.pressed@[i as int] == vk,
                None => !self.pressed@.contains(vk),
            },
            r is Some <==> self.spec_pressed().contains(vk),
    {
        let mut i: usize = 0;
        while i < self.pressed.len()
            invariant
                0 <= i <= self.pressed.len(),
                forall|k: int| 0 <= k < i ==> self.pressed@[k] != vk,
            decreases self.pressed.len() - i,
        {
            if self.pressed[i] == vk {
                return Some(i);
            }
            i += 1;
        }
        None
    }
}

proof fn lemma_remove_to_set(s: Seq<u32>, i: int)
    requires
        s.no_duplicates(),
        0 <= i < s.len(),
    ensures
        s.remove(i).no_duplicates(),
        s.remove(i).to_set() == s.to_set().remove(s[i]),
{
    let r = s.remove(i);
    assert forall|a: int, b: int| 0 <= a < b < r.len() implies r[a] != r[b] by {
        let a2 = if a < i { a } else { a + 1 };
        let b2 = if b < i { b } else { b + 1 };
        assert(r[a] == s[a2] && r[b] == s[b2]);
    }
    assert forall|x: u32| r.contains(x) <==> s.contains(x) && x != s[i] by {
        if r.contains(x) {
            let k = choose|k: int| 0 <= k < r.len() && r[k] == x;
            let k2 = if k < i { k } else { k + 1 };
            assert(s[k2] == x);
            assert(k2 != i);
        }
        if s.contains(x) && x != s[i] {
            let k = choose|k: int| 0 <= k < s.len() && s[k] == x;
            assert(k != i);
            if k < i {
                assert(r[k] == x);
            } else {
                assert(r[k - 1] == x);
            }
        }
    }
    assert(r.to_set() =~= s.to_set().remove(s[i]));
}

/// The keyboard hook touches nothing while the typing window is closed:
/// every event passes on and no key is remembered.
pub proof fn lemma_closed_window_passes_keys(
    pressed: Set<u32>,
    code: i32,
    msg: u32,
    injected: bool,
    vk: u32,
    consumed: bool,
)
    ensures
        key_filter_spec(pressed, code, msg, injected, false, vk, consumed) == (KeyAction::Pass, pressed),
{
}

/// Once the typing session has removed its hook, the filter reads nothing:
/// every event passes on and no key is remembered, whatever the window.
pub proof fn lemma_removed_hook_passes_keys(
    pressed: Set<u32>,
    code: i32,
    msg: u32,
    injected: bool,
    window_open: bool,
    vk: u32,
    consumed: bool,
)
    ensures
        hook_step_spec(false, pressed, code, msg, injected, window_open, vk, consumed) == (
            KeyAction::Pass,
            pressed,
        ),
{
}

/// Autorepeat: a key the typing window owns is posted once per press. While
/// it is held, further key-downs are swallowed without being posted.
pub proof fn lemma_autorepeat_posts_once(
    pressed: Set<u32>,
    msg: u32,
    msg2: u32,
    vk: u32,
)
    requires
        is_down(msg),
        is_down(msg2),
    ensures
        ({
            let (_, held) = key_filter_spec(pressed, 0, msg, false, true, vk, true);
            key_filter_spec(held, 0, msg2, false, true, vk, true).0 == KeyAction::Swallow
        }),
{
}

/// After its key-up a key can be posted again.
pub proof fn lemma_release_rearms(pressed: Set<u32>, up: u32, down: u32, vk: u32)
    requires
        is_up(up),
        is_down(down),
    ensures
        ({
            let (_, held) = key_filter_spec(pressed, 0, up, false, true, vk, true);
            key_filter_spec(held, 0, down, false, true, vk, true).0 == KeyAction::PostAndSwallow
        }),
{
}

/// Which roles a virtual key plays under the active key bindings.
#[derive(Clone, Copy, Debug)]
pub struct KeyMatch {
    pub cancel: bool,
    pub start: bool,
    pub confirm: bool,
    pub open_workdir: bool,
    pub digit_back: bool,
    pub search: bool,
    pub wake: bool,
    /// The digit this key types, if any.
    pub digit: Option<u8>,
}

/// Input event for the digit sequence.
#[derive(Clone, Copy, Debug, PartialEq, Eq, Structural)]
pub enum KeyEvent {
    Cancel,
    Start,
    Confirm,
    OpenWorkdir,
    DigitBack,
    Search,
    Digit(u8),
}

/// What a typed key means to an open typing session.
#[derive(Clone, Copy, Debug, PartialEq, Eq, Structural)]
pub enum KeyRoute {
    /// Launch feedback is showing: only Cancel closes early.
    Feedback { close: bool },
    /// Not a key of the session (or the wake key): nothing happens.
    Ignore,
    /// Feed this event to the sequence (and restart the idle timeout).
    Event(KeyEvent),
}

/// Roles are tried in a fixed order: Cancel, Start, Confirm, Open-workdir,
/// Digit-back, Search, then digits.
pub open spec fn key_route_spec(feedback_pending: bool, m: KeyMatch) -> KeyRoute {
    if feedback_pending {
        KeyRoute::Feedback { close: m.cancel }
    } else if m.wake {
        KeyRoute::Ignore
    } else if m.cancel {
        KeyRoute::Event(KeyEvent::Cancel)
    } else if m.start {
        KeyRoute::Event(KeyEvent::Start)
    } else if m.confirm {
        KeyRoute::Event(KeyEvent::Confirm)
    } else if m.open_workdir {
        KeyRoute::Event(KeyEvent::OpenWorkdir)
    } else if m.digit_back {
        KeyRoute::Event(KeyEvent::DigitBack)
    } else if m.search {
        KeyRoute::Event(KeyEvent::Search)
    } else {
        match m.digit {
            Some(d) => KeyRoute::Event(KeyEvent::Digit(d)),
            None => KeyRoute::Ignore,
        }
    }
}

pub fn handle_key(feedback_pending: bool, m: KeyMatch) -> (r: KeyRoute)
    ensures
        r == key_route_spec(feedback_pending, m),
{
    if feedback_pending {
        return KeyRoute::Feedback { close: m.cancel };
    }
    if m.wake {
        return KeyRoute::Ignore;
    }
    let event = if m.cancel {
        KeyEvent::Cancel
    } else if m.start {
        KeyEvent::Start
    } else if m.confirm {
        KeyEvent::Confirm
    } else if m.open_workdir {
        KeyEvent::OpenWorkdir
    } else if m.digit_back {
        KeyEvent::DigitBack
    } else if m.search {
        KeyEvent::Search
    } else if let Some(d) = m.digit {
        KeyEvent::Digit(d)
    } else {
        return KeyRoute::Ignore;
    };
    KeyRoute::Event(event)
}

/// How many of the key's roles are set (a digit counts as one).
pub open spec fn role_count(m: KeyMatch) -> int {
    (if m.cancel { 1int } else { 0 }) + (if m.start { 1int } else { 0 }) + (if m.confirm {
        1int
    } else {
        0
    }) + (if m.open_workdir { 1int } else { 0 }) + (if m.digit_back { 1int } else { 0 }) + (
    if m.search {
        1int
    } else {
        0
    }) + (if m.digit is Some { 1int } else { 0 })
}

/// A key with exactly one role, typed while no feedback is showing, feeds
/// that role's own event to the sequence: Cancel cancels, Start starts,
/// Confirm (Enter) launches, Open-workdir opens the folder, Digit-back
/// erases, Search searches and a digit types itself. The wake key and keys
/// with no role do nothing; while feedback shows, only Cancel closes it.
pub proof fn lemma_key_routes_to_its_role(m: KeyMatch)
    ensures
        !m.wake && role_count(m) == 1 ==> {
            &&& m.cancel ==> key_route_spec(false, m) == KeyRoute::Event(KeyEvent::Cancel)
            &&& m.start ==> key_route_spec(false, m) == KeyRoute::Event(KeyEvent::Start)
            &&& m.confirm ==> key_route_spec(false, m) == KeyRoute::Event(KeyEvent::Confirm)
            &&& m.open_workdir ==> key_route_spec(false, m) == KeyRoute::Event(
                KeyEvent::OpenWorkdir,
            )
            &&& m.digit_back ==> key_route_spec(false, m) == KeyRoute::Event(KeyEvent::DigitBack)
            &&& m.search ==> key_route_spec(false, m) == KeyRoute::Event(KeyEvent::Search)
            &&& m.digit matches Some(d) ==> key_route_spec(false, m) == KeyRoute::Event(
                KeyEvent::Digit(d),
            )
        },
        m.wake || role_count(m) == 0 ==> key_route_spec(false, m) == KeyRoute::Ignore,
        key_route_spec(true, m) == (KeyRoute::Feedback { close: m.cancel }),
{
}

/// Of several roles, the earlier in the fixed order wins, and the event
/// always names one of the key's own roles.
pub proof fn lemma_key_event_is_own_role(m: KeyMatch)
    ensures
        key_route_spec(false, m) matches KeyRoute::Event(e) ==> match e {
            KeyEvent::Cancel => m.cancel,
            KeyEvent::Start => m.start && !m.cancel,
            KeyEvent::Confirm => m.confirm && !m.cancel && !m.start,
            KeyEvent::OpenWorkdir => m.open_workdir && !m.cancel && !m.start && !m.confirm,
            KeyEvent::DigitBack => m.digit_back && !m.cancel && !m.start && !m.confirm
                && !m.open_workdir,
            KeyEvent::Search => m.search && !m.cancel && !m.start && !m.confirm && !m.open_workdir
                && !m.digit_back,
            KeyEvent::Digit(d) => m.digit == Some(d) && !m.cancel && !m.start && !m.confirm
                && !m.open_workdir && !m.digit_back && !m.search,
        },
{
}

/// How a slot launch from the typing window ends.
#[derive(Clone, Copy, Debug, PartialEq, Eq, Structural)]
pub struct LaunchFeedback {
    /// Tell the host (tray toast) that the launch failed.
    pub post_failed: bool,
    /// The feedback line finally shown says the request was accepted.
    pub shown_ok: bool,
    /// Keep the window for `feedbackMs` (timer) instead of closing now.
    pub hold: bool,
    /// Close the session right away.
    pub close_now: bool,
}

/// `feedback_ms`: the feedback time; `slot_known`: the id names a slot;
/// `queued`: the launch worker accepted the job.
pub open spec fn launch_feedback_spec(feedback_ms: u32, slot_known: bool, queued: bool) -> LaunchFeedback {
    let ok = slot_known && queued;
    LaunchFeedback {
        post_failed: !ok,
        shown_ok: ok,
        hold: feedback_ms > 0,
        close_now: feedback_ms == 0,
    }
}

pub fn slot_launch_feedback(feedback_ms: u32, slot_known: bool, queued: bool) -> (r: LaunchFeedback)
    ensures
        r == launch_feedback_spec(feedback_ms, slot_known, queued),
{
    let ok = slot_known && queued;
    LaunchFeedback {
        post_failed: !ok,
        shown_ok: ok,
        hold: feedback_ms > 0,
        close_now: feedback_ms == 0,
    }
}

/// Launch slot `id` from the typing window. An unknown id queues nothing; a
/// known one queues exactly one job: its slot, `exe_dir`, the registry,
/// `folder_only` and the host window. The answer says how the session ends
/// (a failure is also posted to the host).
pub fn run_slot_launch<S: Copy>(
    slots: &SlotTable<S>,
    q: &mut LaunchQueue<LaunchJob<S>>,
    id: &str,
    exe_dir: &str,
    folder_only: bool,
    host: isize,
    feedback_ms: u32,
) -> (r: LaunchFeedback)
    ensures
        r == launch_feedback_spec(
            feedback_ms,
            table_find(slots.spec_entries(), id@) is Some,
            old(q).spec_started(),
        ),
        final(q).spec_started() == old(q).spec_started(),
        (table_find(slots.spec_entries(), id@) is None || !old(q).spec_started())
            ==> final(q).spec_pending() == old(q).spec_pending(),
        table_find(slots.spec_entries(), id@) is Some && old(q).spec_started() ==> queued_one(
            old(q).spec_pending(),
            final(q).spec_pending(),
            table_find(slots.spec_entries(), id@)->0,
            exe_dir@,
            slots.spec_entries(),
            folder_only,
            host,
        ),
{
    match slots.get(id) {
        None => slot_launch_feedback(feedback_ms, false, false),
        Some(slot) => {
            let queued = queue_launch(q, slot, exe_dir, slots, folder_only, host).is_ok();
            slot_launch_feedback(feedback_ms, true, queued)
        },
    }
}

/// The idle-timeout timer period for a timeout in seconds; none when the
/// timeout is off (0). The timer restarts on every key the session handles.
pub fn idle_timer_ms(timeout_sec: u32) -> (r: Option<u32>)
    requires
        timeout_sec <= u32::MAX / 1000,
    ensures
        r == (if timeout_sec > 0 {
            Some((timeout_sec * 1000) as u32)
        } else {
            None::<u32>
        }),
{
    if timeout_sec > 0 {
        Some(timeout_sec * 1000)
    } else {
        None
    }
}

/// Which feedback line the typing window shows for a launch request.
#[derive(Clone, Copy, Debug, PartialEq, Eq, Structural)]
pub enum FeedbackText {
    /// "Launching {id} {name}".
    Launching,
    LaunchFailed,
    /// "Opening the folder of {id} {name}".
    OpeningFolder,
    OpenFolderFailed,
}

pub fn feedback_text(folder_only: bool, ok: bool) -> (r: FeedbackText)
    ensures
        r == (if folder_only {
            if ok {
                FeedbackText::OpeningFolder
            } else {
                FeedbackText::OpenFolderFailed
            }
        } else if ok {
            FeedbackText::Launching
        } else {
            FeedbackText::LaunchFailed
        }),
{
    if folder_only {
        if ok {
            FeedbackText::OpeningFolder
        } else {
            FeedbackText::OpenFolderFailed
        }
    } else if ok {
        FeedbackText::Launching
    } else {
        FeedbackText::LaunchFailed
    }
}

/// What the launch trigger (mouse button or hotkey) does.
#[derive(Clone, Copy, Debug, PartialEq, Eq, Structural)]
pub enum TriggerAction {
    /// Settings open or triggers disabled: nothing.
    Ignore,
    /// Search is open: close it.
    CloseSearch,
    /// The typing window is open: close it (the trigger toggles).
    CloseTyping,
    /// Open the typing window.
    OpenTyping,
}

pub open spec fn trigger_action_spec(
    triggers_disabled: bool,
    settings_open: bool,
    search_open: bool,
    typing_open: bool,
) -> TriggerAction {
    if triggers_disabled || settings_open {
        TriggerAction::Ignore
    } else if search_open {
        TriggerAction::CloseSearch
    } else if typing_open {
        TriggerAction::CloseTyping
    } else {
        TriggerAction::OpenTyping
    }
}

pub fn trigger_action(
    triggers_disabled: bool,
    settings_open: bool,
    search_open: bool,
    typing_open: bool,
) -> (r: TriggerAction)
    ensures
        r == trigger_action_spec(triggers_disabled, settings_open, search_open, typing_open),
{
    if triggers_disabled || settings_open {
        TriggerAction::Ignore
    } else if search_open {
        TriggerAction::CloseSearch
    } else if typing_open {
        TriggerAction::CloseTyping
    } else {
        TriggerAction::OpenTyping
    }
}

/// The mode-switch mouse is on when a chord timeout is set and its button is
/// not the launch button (a non-empty mode button equal to the launch button,
/// ASCII case ignored, would fight the launch trigger).
pub open spec fn mode_mouse_on_spec(launch_button: Seq<char>, mode_button: Seq<char>, chord_timeout_ms: u32) -> bool {
    let same = mode_button.len() != 0 && lower_seq(launch_button) == lower_seq(
        trimmed(mode_button),
    );
    chord_timeout_ms > 0 && !same
}

pub fn mode_mouse_on(launch_button: &str, mode_button: &str, chord_timeout_ms: u32) -> (r: bool)
    ensures
        r == mode_mouse_on_spec(launch_button@, mode_button@, chord_timeout_ms),
{
    let same = mode_button.unicode_len() != 0 && eq_ignore_ascii_case(
        launch_button,
        trim(mode_button),
    );
    chord_timeout_ms > 0 && !same
}

/// One typing-window row: key/id column and title.
#[derive(Clone, Debug)]
pub struct TypingRow {
    pub key: String,
    pub title: String,
}

pub open spec fn row_view(r: TypingRow) -> (Seq<char>, Seq<char>) {
    (r.key@, r.title@)
}

/// Separator, the visible option rows, then blank rows so that there are
/// always `1 + LEGEND_ITEM_COUNT` rows (a stable window height).
pub fn typing_key_rows(options: Vec<TypingRow>) -> (r: Vec<TypingRow>)
    ensures
        r@.len() == if options@.len() < LEGEND_ITEM_COUNT {
            1 + LEGEND_ITEM_COUNT
        } else {
            1 + options@.len() as int
        },
        row_view(r@[0]) == (Seq::<char>::empty(), SEPARATOR_TITLE@),
        forall|i: int| 0 <= i < options@.len() ==> #[trigger] row_view(r@[i + 1]) == row_view(options@[i]),
        forall|i: int|
            options@.len() < i + 1 < r@.len() ==> #[trigger] row_view(r@[i + 1]) == (
                Seq::<char>::empty(),
                Seq::<char>::empty(),
            ),
{
    let mut rows: Vec<TypingRow> = Vec::new();
    rows.push(TypingRow { key: String::new(), title: crate::text::string_of(SEPARATOR_TITLE) });
    let mut i: usize = 0;
    let n = options.len();
    while i < n
        invariant
            0 <= i <= n,
            n == options@.len(),
            rows@.len() == i + 1,
            row_view(rows@[0]) == (Seq::<char>::empty(), SEPARATOR_TITLE@),
            forall|k: int| 0 <= k < i ==> #[trigger] row_view(rows@[k + 1]) == row_view(options@[k]),
        decreases n - i,
    {
        let k = options[i].key.clone();
        let t = options[i].title.clone();
        rows.push(TypingRow { key: k, title: t });
        i += 1;
    }
    while rows.len() < 1 + LEGEND_ITEM_COUNT
        invariant
            n == options@.len(),
            rows@.len() >= n + 1,
            rows@.len() <= if n < LEGEND_ITEM_COUNT { 1 + LEGEND_ITEM_COUNT } else { 1 + n as int },
            row_view(rows@[0]) == (Seq::<char>::empty(), SEPARATOR_TITLE@),
            forall|k: int| 0 <= k < n ==> #[trigger] row_view(rows@[k + 1]) == row_view(options@[k]),
            forall|k: int|
                n < k + 1 < rows@.len() ==> #[trigger] row_view(rows@[k + 1]) == (
                    Seq::<char>::empty(),
                    Seq::<char>::empty(),
                ),
        decreases 1 + LEGEND_ITEM_COUNT - rows.len(),
    {
        rows.push(TypingRow { key: String::new(), title: String::new() });
    }
    rows
}

/// About text with a language-pack line: inserted as a new line right after
/// the first line, or appended on a new line when there is only one line.
pub open spec fn with_pack_line_spec(body: Seq<char>, line: Seq<char>) -> Seq<char> {
    if body.contains('\n') {
        let p = choose|p: int| 0 <= p < body.len() && body[p] == '\n' && forall|q: int|
            0 <= q < p ==> body[q] != '\n';
        body.subrange(0, p) + seq!['\n'] + line + body.subrange(p, body.len() as int)
    } else {
        body + seq!['\n'] + line
    }
}

pub fn with_pack_line(body: &str, line: &str) -> (r: String)
    ensures
        r@ == with_pack_line_spec(body@, line@),
{
    let cs = crate::text::chars_of(body);
    let mut i: usize = 0;
    while i < cs.len() && cs[i] != '\n'
        invariant
            cs@ == body@,
            0 <= i <= cs.len(),
            forall|q: int| 0 <= q < i ==> cs@[q] != '\n',
        decreases cs.len() - i,
    {
        i += 1;
    }
    let mut out = String::new();
    let mut k: usize = 0;
    while k < i
        invariant
            cs@ == body@,
            0 <= k <= i <= cs.len(),
            out@ == body@.subrange(0, k as int),
        decreases i - k,
    {
        crate::text::push_char(&mut out, cs[k]);
        assert(body@.subrange(0, k + 1) =~= body@.subrange(0, k as int).push(cs@[k as int]));
        k += 1;
    }
    crate::text::push_char(&mut out, '\n');
    crate::text::push_str(&mut out, line);
    let mut j: usize = i;
    let ghost mid = out@;
    while j < cs.len()
        invariant
            cs@ == body@,
            i <= j <= cs.len(),
            out@ == mid + body@.subrange(i as int, j as int),
        decreases cs.len() - j,
    {
        crate::text::push_char(&mut out, cs[j]);
        assert(body@.subrange(i as int, j + 1) =~= body@.subrange(i as int, j as int).push(
            cs@[j as int],
        ));
        j += 1;
    }
    proof {
        if body@.contains('\n') {
            let p = choose|p: int| 0 <= p < body@.len() && body@[p] == '\n' && forall|q: int|
                0 <= q < p ==> body@[q] != '\n';
            let w = choose|w: int| 0 <= w < body@.len() && body@[w] == '\n';
            assert(i < cs.len()) by {
                if i == cs.len() {
                    assert(cs@[w] != '\n');
                }
            }
            assert(cs@[i as int] == '\n');
            assert(0 <= i < body@.len() && body@[i as int] == '\n' && forall|q: int|
                0 <= q < i ==> body@[q] != '\n');
            if p < i {
                assert(body@[p] != '\n');
            }
            if i < p {
                assert(body@[i as int] != '\n');
            }
            assert(p == i);
            assert(out@ =~= body@.subrange(0, p) + seq!['\n'] + line@ + body@.subrange(
                p,
                body@.len() as int,
            ));
        } else {
            assert(i == cs.len()) by {
                if i < cs.len() {
                    assert(body@[i as int] == '\n');
                }
            }
            assert(out@ =~= body@ + seq!['\n'] + line@);
        }
    }
    out
}

/// A registered slot's id and display name.
#[derive(Clone, Debug)]
pub struct SlotName {
    pub id: String,
    pub name: String,
}

pub open spec fn slot_names_view(reg: Seq<SlotName>) -> Seq<(Seq<char>, Seq<char>)> {
    reg.map_values(|s: SlotName| (s.id@, s.name@))
}

/// The name registered for `id` (the first entry with that id), or empty.
pub open spec fn name_of(reg: Seq<(Seq<char>, Seq<char>)>, id: Seq<char>) -> Seq<char>
    decreases reg.len(),
{
    if reg.len() == 0 {
        Seq::empty()
    } else if reg[0].0 == id {
        reg[0].1
    } else {
        name_of(reg.drop_first(), id)
    }
}

/// Ids whose instant-fire flag is set.
pub open spec fn is_instant(instant: Seq<Seq<char>>, id: Seq<char>) -> bool {
    exists|k: int| 0 <= k < instant.len() && instant[k] == id
}

/// Row `i` of the dial area: the head row shows `head` and the name of the
/// typed prefix; an empty id is a blank row; otherwise the id, titled with
/// its name (while idle, only instant-fire ids are titled).
pub open spec fn dial_row_spec(
    i: int,
    ids: Seq<Seq<char>>,
    head: Seq<char>,
    prefix: Seq<char>,
    idle: bool,
    instant: Seq<Seq<char>>,
    reg: Seq<(Seq<char>, Seq<char>)>,
) -> (Seq<char>, Seq<char>) {
    if i == 0 {
        (head, if prefix.len() == 0 { Seq::empty() } else { name_of(reg, prefix) })
    } else if ids[i].len() == 0 {
        (Seq::empty(), Seq::empty())
    } else if idle && !is_instant(instant, ids[i]) {
        (ids[i], Seq::empty())
    } else {
        (ids[i], name_of(reg, ids[i]))
    }
}

proof fn lemma_name_of_skip(reg: Seq<(Seq<char>, Seq<char>)>, id: Seq<char>, k: int)
    requires
        0 <= k <= reg.len(),
        forall|j: int| 0 <= j < k ==> reg[j].0 != id,
    ensures
        name_of(reg, id) == name_of(reg.subrange(k, reg.len() as int), id),
    decreases k,
{
    if k > 0 {
        assert(reg.drop_first().subrange(k - 1, reg.drop_first().len() as int) =~= reg.subrange(
            k,
            reg.len() as int,
        ));
        assert forall|j: int| 0 <= j < k - 1 implies reg.drop_first()[j].0 != id by {
            assert(reg.drop_first()[j] == reg[j + 1]);
        }
        lemma_name_of_skip(reg.drop_first(), id, k - 1);
    } else {
        assert(reg.subrange(0, reg.len() as int) =~= reg);
    }
}

/// Look up a slot's name by id (empty when not registered).
pub fn slot_name(reg: &Vec<SlotName>, id: &str) -> (r: String)
    ensures
        r@ == name_of(slot_names_view(reg@), id@),
{
    let ghost v = slot_names_view(reg@);
    let mut k: usize = 0;
    while k < reg.len()
        invariant
            0 <= k <= reg.len(),
            v == slot_names_view(reg@),
            forall|j: int| 0 <= j < k ==> v[j].0 != id@,
        decreases reg.len() - k,
    {
        if crate::text::str_eq(reg[k].id.as_str(), id) {
            proof {
                lemma_name_of_skip(v, id@, k as int);
                let rest = v.subrange(k as int, v.len() as int);
                assert(rest[0] == v[k as int]);
            }
            return crate::text::string_of(reg[k].name.as_str());
        }
        k += 1;
    }
    proof {
        lemma_name_of_skip(v, id@, k as int);
        assert(v.subrange(k as int, v.len() as int).len() == 0);
    }
    String::new()
}

fn instant_contains(instant: &Vec<String>, id: &str) -> (r: bool)
    ensures
        r == is_instant(crate::text::views_of(instant@), id@),
{
    let mut k: usize = 0;
    while k < instant.len()
        invariant
            0 <= k <= instant.len(),
            forall|j: int| 0 <= j < k ==> instant@[j]@ != id@,
        decreases instant.len() - k,
    {
        if crate::text::str_eq(instant[k].as_str(), id) {
            assert(crate::text::views_of(instant@)[k as int] == id@);
            return true;
        }
        k += 1;
    }
    assert forall|j: int| 0 <= j < crate::text::views_of(instant@).len() implies crate::text::views_of(
        instant@,
    )[j] != id@ by {
        assert(crate::text::views_of(instant@)[j] == instant@[j]@);
    }
    false
}

/// The dial area's rows for the ids laid out for the typed `prefix`
/// (row 0 is the head row, shown as `head`).
pub fn dial_area_rows(
    ids: &Vec<String>,
    head: &str,
    prefix: &str,
    idle: bool,
    instant: &Vec<String>,
    reg: &Vec<SlotName>,
) -> (r: Vec<TypingRow>)
    ensures
        r@.len() == ids@.len(),
        forall|i: int|
            0 <= i < ids@.len() ==> #[trigger] row_view(r@[i]) == dial_row_spec(
                i,
                crate::text::views_of(ids@),
                head@,
                prefix@,
                idle,
                crate::text::views_of(instant@),
                slot_names_view(reg@),
            ),
{
    let ghost idv = crate::text::views_of(ids@);
    let mut rows: Vec<TypingRow> = Vec::new();
    let mut i: usize = 0;
    while i < ids.len()
        invariant
            0 <= i <= ids.len(),
            idv == crate::text::views_of(ids@),
            rows@.len() == i,
            forall|k: int|
                0 <= k < i ==> #[trigger] row_view(rows@[k]) == dial_row_spec(
                    k,
                    idv,
                    head@,
                    prefix@,
                    idle,
                    crate::text::views_of(instant@),
                    slot_names_view(reg@),
                ),
        decreases ids.len() - i,
    {
        let id = ids[i].as_str();
        assert(idv[i as int] == id@);
        let row = if i == 0 {
            let title = if prefix.is_empty() {
                String::new()
            } else {
                slot_name(reg, prefix)
            };
            TypingRow { key: crate::text::string_of(head), title }
        } else if id.is_empty() {
            TypingRow { key: String::new(), title: String::new() }
        } else if idle && !instant_contains(instant, id) {
            TypingRow { key: crate::text::string_of(id), title: String::new() }
        } else {
            TypingRow { key: crate::text::string_of(id), title: slot_name(reg, id) }
        };
        rows.push(row);
        i += 1;
    }
    rows
}

// ── Painting ────────────────────────────────────────────────────────────

/// Left padding of the typing window's text.
pub const PAINT_PAD_X: i32 = 12;
/// Gap between the key column and the title column.
pub const PAINT_KEY_GAP: i32 = 12;
/// Top of the first row and the row pitch.
pub const PAINT_TOP: i32 = 12;
pub const PAINT_ROW_H: i32 = 18;
/// Client size used while the window reports none.
pub const TYPING_WIDTH: i32 = 420;
pub const TYPING_HEIGHT: i32 = 358;

/// How one row is painted.
#[derive(Clone, Copy, Debug, PartialEq, Eq, Structural)]
pub enum RowPaint {
    /// A horizontal rule from `x1` to `x2`, 8 pixels below the row top.
    Rule { y: i32, x1: i32, x2: i32 },
    /// The title alone at the left padding.
    Title { x: i32, y: i32 },
    /// The key at the left padding and the title in the title column.
    KeyAndTitle { key_x: i32, title_x: i32, y: i32 },
}

/// Widest key among the rows that have one (0 when none has).
pub open spec fn widest_key(keys_empty: Seq<bool>, widths: Seq<i32>) -> int
    decreases keys_empty.len(),
{
    if keys_empty.len() == 0 {
        0
    } else {
        let rest = widest_key(keys_empty.drop_last(), widths.drop_last());
        if keys_empty.last() {
            rest
        } else if widths.last() > rest {
            widths.last() as int
        } else {
            rest
        }
    }
}

pub open spec fn keys_empty_of(rows: Seq<TypingRow>) -> Seq<bool> {
    rows.map_values(|r: TypingRow| r.key@.len() == 0)
}

pub open spec fn is_rule_row(i: int, body_from: Option<usize>, title: Seq<char>) -> bool {
    body_from == Some(i as usize) || crate::text::has_prefix(title, SEPARATOR_TITLE@)
}

pub open spec fn row_paint_spec(
    i: int,
    row: TypingRow,
    body_from: Option<usize>,
    right: i32,
    title_x: int,
) -> RowPaint {
    let y = (PAINT_TOP + PAINT_ROW_H * i) as i32;
    if is_rule_row(i, body_from, row.title@) {
        RowPaint::Rule {
            y: (y + 8) as i32,
            x1: PAINT_PAD_X,
            x2: (if right - PAINT_PAD_X > PAINT_PAD_X + 40 {
                right - PAINT_PAD_X
            } else {
                PAINT_PAD_X + 40
            }) as i32,
        }
    } else if row.key@.len() == 0 {
        RowPaint::Title { x: PAINT_PAD_X, y }
    } else {
        RowPaint::KeyAndTitle { key_x: PAINT_PAD_X, title_x: title_x as i32, y }
    }
}

/// Where each row of the typing window is painted. `key_widths[i]` is the
/// measured width of row `i`'s key; `right` is the client width (0 while the
/// window reports none: the default width is used). The title column starts
/// after the widest key; a row at `body_from` or titled with the separator
/// is drawn as a rule.
pub fn paint_rows(rows: &Vec<TypingRow>, key_widths: &Vec<i32>, body_from: Option<usize>, right: i32) -> (r:
    Vec<RowPaint>)
    requires
        key_widths@.len() == rows@.len(),
        rows@.len() <= 100_000,
        forall|i: int| 0 <= i < key_widths@.len() ==> 0 <= #[trigger] key_widths@[i] <= 0x1000_0000,
        0 <= right <= 0x1000_0000,
    ensures
        r@.len() == rows@.len(),
        forall|i: int|
            0 <= i < rows@.len() ==> #[trigger] r@[i] == row_paint_spec(
                i,
                rows@[i],
                body_from,
                if right > 0 {
                    right
                } else {
                    TYPING_WIDTH
                },
                PAINT_PAD_X + widest_key(keys_empty_of(rows@), key_widths@) + PAINT_KEY_GAP,
            ),
{
    let width = if right > 0 {
        right
    } else {
        TYPING_WIDTH
    };
    let ghost ke = keys_empty_of(rows@);
    let mut key_max: i32 = 0;
    let mut k: usize = 0;
    while k < rows.len()
        invariant
            0 <= k <= rows.len(),
            key_widths@.len() == rows@.len(),
            ke == keys_empty_of(rows@),
            forall|i: int| 0 <= i < key_widths@.len() ==> 0 <= #[trigger] key_widths@[i] <= 0x1000_0000,
            key_max == widest_key(ke.take(k as int), key_widths@.take(k as int)),
            0 <= key_max <= 0x1000_0000,
        decreases rows.len() - k,
    {
        assert(ke.take(k + 1).drop_last() =~= ke.take(k as int));
        assert(key_widths@.take(k + 1).drop_last() =~= key_widths@.take(k as int));
        assert(ke.take(k + 1).last() == (rows@[k as int].key@.len() == 0));
        if !rows[k].key.as_str().is_empty() && key_widths[k] > key_max {
            key_max = key_widths[k];
        }
        k += 1;
    }
    assert(ke.take(rows@.len() as int) =~= ke);
    assert(key_widths@.take(rows@.len() as int) =~= key_widths@);
    let title_x = PAINT_PAD_X + key_max + PAINT_KEY_GAP;
    let x2 = if width - PAINT_PAD_X > PAINT_PAD_X + 40 {
        width - PAINT_PAD_X
    } else {
        PAINT_PAD_X + 40
    };
    let mut out: Vec<RowPaint> = Vec::new();
    let mut i: usize = 0;
    let mut y: i32 = PAINT_TOP;
    while i < rows.len()
        invariant
            0 <= i <= rows.len(),
            rows@.len() <= 100_000,
            y == PAINT_TOP + PAINT_ROW_H * i,
            out@.len() == i,
            title_x == PAINT_PAD_X + widest_key(keys_empty_of(rows@), key_widths@) + PAINT_KEY_GAP,
            x2 == (if width - PAINT_PAD_X > PAINT_PAD_X + 40 {
                width - PAINT_PAD_X
            } else {
                PAINT_PAD_X + 40
            }),
            forall|j: int|
                0 <= j < i ==> #[trigger] out@[j] == row_paint_spec(j, rows@[j], body_from, width, title_x as int),
        decreases rows.len() - i,
    {
        let by_index = match body_from {
            Some(b) => b == i,
            None => false,
        };
        let rule = by_index || crate::text::starts_with(rows[i].title.as_str(), SEPARATOR_TITLE);
        let op = if rule {
            RowPaint::Rule { y: y + 8, x1: PAINT_PAD_X, x2 }
        } else if rows[i].key.as_str().is_empty() {
            RowPaint::Title { x: PAINT_PAD_X, y }
        } else {
            RowPaint::KeyAndTitle { key_x: PAINT_PAD_X, title_x, y }
        };
        out.push(op);
        i += 1;
        y = y + PAINT_ROW_H;
    }
    out
}

} // verus!
