//! Low-level mouse hook decisions: the launch trigger button and the
//! mode-switch leader button.

use vstd::prelude::*;

use crate::mode_runtime::ModeRuntime;
use crate::text::{lower_seq, str_eq, to_ascii_lowercase};

verus! {

pub const WM_MBUTTONDOWN: u32 = 0x0207;
pub const WM_XBUTTONDOWN: u32 = 0x020B;
pub const XBUTTON1: u16 = 0x0001;
pub const XBUTTON2: u16 = 0x0002;

/// Launch-trigger button and whether its click is swallowed.
/// Button kind: 0 = X2, 1 = X1, 2 = middle.
pub struct MouseTriggerConfig {
    kind: u16,
    suppress: bool,
}

impl MouseTriggerConfig {
    pub closed spec fn spec_kind(&self) -> u16 {
        self.kind
    }

    pub closed spec fn spec_suppress(&self) -> bool {
        self.suppress
    }

    /// Start-up state: X2, suppressed.
    pub fn new() -> (r: MouseTriggerConfig)
        ensures
            r.spec_kind() == 0,
            r.spec_suppress(),
    {
        MouseTriggerConfig { kind: 0, suppress: true }
    }

    pub fn kind(&self) -> (r: u16)
        ensures
            r == self.spec_kind(),
    {
        self.kind
    }

    pub fn suppress(&self) -> (r: bool)
        ensures
            r == self.spec_suppress(),
    {
        self.suppress
    }
}

pub fn configure(cfg: &mut MouseTriggerConfig, kind: u16, suppress: bool)
    ensures
        final(cfg).spec_kind() == kind,
        final(cfg).spec_suppress() == suppress,
{
    cfg.kind = kind;
    cfg.suppress = suppress;
}

/// Launch-trigger button kind: `x1`, `middle`/`mbutton`, anything else X2.
pub open spec fn launch_button_kind_spec(l: Seq<char>) -> u16 {
    if l == "x1"@ {
        1
    } else if l == "middle"@ || l == "mbutton"@ {
        2
    } else {
        0
    }
}

pub fn launch_button_kind(button: &str) -> (r: u16)
    ensures
        r == launch_button_kind_spec(lower_seq(button@)),
{
    let l = to_ascii_lowercase(button);
    let s = l.as_str();
    if str_eq(s, "x1") {
        1
    } else if str_eq(s, "middle") || str_eq(s, "mbutton") {
        2
    } else {
        0
    }
}

/// The X button of a `WM_XBUTTONDOWN` event (high word of `mouseData`).
pub open spec fn xbutton_spec(msg: u32, mouse_data: u32) -> Option<u16> {
    if msg == WM_XBUTTONDOWN {
        Some((mouse_data / 0x10000) as u16)
    } else {
        None
    }
}

/// Whether an event is a press of the button of this kind.
pub open spec fn button_hit(kind: u16, msg: u32, mouse_data: u32) -> bool {
    if kind == 2 {
        msg == WM_MBUTTONDOWN
    } else if kind == 1 {
        xbutton_spec(msg, mouse_data) == Some(XBUTTON1)
    } else {
        xbutton_spec(msg, mouse_data) == Some(XBUTTON2)
    }
}

fn is_button_hit(kind: u16, msg: u32, mouse_data: u32) -> (r: bool)
    ensures
        r == button_hit(kind, msg, mouse_data),
{
    let xbutton: Option<u16> = if msg == WM_XBUTTONDOWN {
        Some((mouse_data / 0x10000) as u16)
    } else {
        None
    };
    if kind == 2 {
        msg == WM_MBUTTONDOWN
    } else if kind == 1 {
        xbutton == Some(XBUTTON1)
    } else {
        xbutton == Some(XBUTTON2)
    }
}

/// What the mouse hook does with one event.
#[derive(Clone, Copy, Debug, PartialEq, Eq, Structural)]
pub struct MouseDecision {
    /// Post `MODE_ARM` to the host (leader button pressed).
    pub post_mode_arm: bool,
    /// Post the launch trigger to the host.
    pub post_trigger: bool,
    /// Swallow the event instead of passing it on.
    pub swallow: bool,
}

pub open spec fn pass_on() -> MouseDecision {
    MouseDecision { post_mode_arm: false, post_trigger: false, swallow: false }
}

/// The leader button wins over the launch button; while triggers are
/// disabled (Settings open) both pass through untouched.
pub open spec fn mouse_decision_spec(
    code: i32,
    msg: u32,
    mouse_data: u32,
    mode_enabled: bool,
    mode_kind: u16,
    mode_suppress: bool,
    launch_kind: u16,
    launch_suppress: bool,
    triggers_disabled: bool,
    host_present: bool,
) -> MouseDecision {
    if code != 0 {
        pass_on()
    } else if mode_enabled && button_hit(mode_kind, msg, mouse_data) {
        if triggers_disabled {
            pass_on()
        } else {
            MouseDecision { post_mode_arm: true, post_trigger: false, swallow: mode_suppress }
        }
    } else if button_hit(launch_kind, msg, mouse_data) {
        if triggers_disabled {
            pass_on()
        } else {
            MouseDecision {
                post_mode_arm: false,
                post_trigger: host_present,
                swallow: launch_suppress,
            }
        }
    } else {
        pass_on()
    }
}

/// Decide one `WH_MOUSE_LL` event (`code`, message, `mouseData`).
pub fn mouse_decision(
    code: i32,
    msg: u32,
    mouse_data: u32,
    mode: &ModeRuntime,
    launch: &MouseTriggerConfig,
    triggers_disabled: bool,
    host_present: bool,
) -> (r: MouseDecision)
    ensures
        r == mouse_decision_spec(
            code,
            msg,
            mouse_data,
            mode.spec_enabled(),
            mode.spec_kind(),
            mode.spec_suppress(),
            launch.spec_kind(),
            launch.spec_suppress(),
            triggers_disabled,
            host_present,
        ),
{
    let pass = MouseDecision { post_mode_arm: false, post_trigger: false, swallow: false };
    if code != 0 {
        return pass;
    }
    if crate::mode_runtime::mode_mouse_enabled(mode) {
        let kind = crate::mode_runtime::mode_mouse_kind(mode);
        if is_button_hit(kind, msg, mouse_data) {
            if triggers_disabled {
                return pass;
            }
            let post = crate::mode_runtime::post_mode_arm(mode);
            return MouseDecision {
                post_mode_arm: post,
                post_trigger: false,
                swallow: crate::mode_runtime::mode_mouse_suppress(mode),
            };
        }
    }
    if is_button_hit(launch.kind, msg, mouse_data) {
        if triggers_disabled {
            return pass;
        }
        return MouseDecision {
            post_mode_arm: false,
            post_trigger: host_present,
            swallow: launch.suppress,
        };
    }
    pass
}

/// Nothing a disabled-trigger period sees is swallowed or posted.
pub proof fn lemma_disabled_triggers_pass_everything(
    code: i32,
    msg: u32,
    mouse_data: u32,
    mode_enabled: bool,
    mode_kind: u16,
    mode_suppress: bool,
    launch_kind: u16,
    launch_suppress: bool,
    host_present: bool,
)
    ensures
        mouse_decision_spec(
            code,
            msg,
            mouse_data,
            mode_enabled,
            mode_kind,
            mode_suppress,
            launch_kind,
            launch_suppress,
            true,
            host_present,
        ) == pass_on(),
{
}


/// Each button is hit by its own press message and nothing else: the middle
/// button by `WM_MBUTTONDOWN` (0x0207), X1 and X2 by `WM_XBUTTONDOWN`
/// (0x020B) whose `mouseData` high word names that button.
pub proof fn lemma_button_hit_own_press(kind: u16, msg: u32, mouse_data: u32)
    ensures
        button_hit(2, msg, mouse_data) <==> msg == 0x0207,
        button_hit(1, msg, mouse_data) <==> (msg == 0x020B && mouse_data / 0x10000 == 1),
        button_hit(0, msg, mouse_data) <==> (msg == 0x020B && mouse_data / 0x10000 == 2),
        button_hit(kind, msg, mouse_data) ==> msg == 0x0207 || msg == 0x020B,
        kind != 1 && kind != 2 ==> button_hit(kind, msg, mouse_data) == button_hit(
            0,
            msg,
            mouse_data,
        ),
{
}

/// A press of the launch button fires the trigger (when the host window
/// exists) and is swallowed as configured, unless the triggers are off or the
/// same press is the mode leader's.
pub proof fn lemma_launch_press_fires(
    msg: u32,
    mouse_data: u32,
    mode_enabled: bool,
    mode_kind: u16,
    mode_suppress: bool,
    launch_kind: u16,
    launch_suppress: bool,
    host_present: bool,
)
    requires
        button_hit(launch_kind, msg, mouse_data),
        !(mode_enabled && button_hit(mode_kind, msg, mouse_data)),
    ensures
        mouse_decision_spec(
            0,
            msg,
            mouse_data,
            mode_enabled,
            mode_kind,
            mode_suppress,
            launch_kind,
            launch_suppress,
            false,
            host_present,
        ) == (MouseDecision {
            post_mode_arm: false,
            post_trigger: host_present,
            swallow: launch_suppress,
        }),
{
}

/// With the middle button as the launch button, a middle press (and the
/// leader not on the middle button) launches; any event that is not a button
/// press of the hook's two buttons passes on untouched.
pub proof fn lemma_middle_press_launches(
    mouse_data: u32,
    mode_enabled: bool,
    mode_kind: u16,
    mode_suppress: bool,
    launch_suppress: bool,
    host_present: bool,
    msg: u32,
)
    requires
        !(mode_enabled && mode_kind == 2),
    ensures
        mouse_decision_spec(
            0,
            0x0207,
            mouse_data,
            mode_enabled,
            mode_kind,
            mode_suppress,
            2,
            launch_suppress,
            false,
            host_present,
        ) == (MouseDecision {
            post_mode_arm: false,
            post_trigger: host_present,
            swallow: launch_suppress,
        }),
        msg != 0x0207 && msg != 0x020B ==> mouse_decision_spec(
            0,
            msg,
            mouse_data,
            mode_enabled,
            mode_kind,
            mode_suppress,
            2,
            launch_suppress,
            false,
            host_present,
        ) == pass_on(),
{
}

} // verus!
