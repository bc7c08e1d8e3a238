//! The operations each platform provides. Windows implements them around the
//! decisions of this library; macOS is a future target (CGEventTap /
//! NSStatusItem / LaunchAgent).

use vstd::prelude::*;

verus! {

/// Why a platform operation failed, as text for the log and the user.
#[derive(Clone, Debug)]
pub struct PlatformError {
    pub message: String,
}

impl PlatformError {
    pub fn new(message: String) -> (r: PlatformError)
        ensures
            r.message@ == message@,
    {
        PlatformError { message }
    }
}

pub trait TriggerSource {
    /// Install the trigger. Suppression is per configuration.
    fn install(&mut self) -> Result<(), PlatformError>;

    fn uninstall(&mut self);
}

pub trait InputCapture {
    /// Install while the window is shown; it must be uninstalled on close,
    /// including when unwinding (hold it in a guard that uninstalls on drop).
    fn install(&mut self) -> Result<(), PlatformError>;

    fn uninstall(&mut self);
}

pub trait TrayIcon {
    fn add(&mut self) -> Result<(), PlatformError>;

    /// Re-register on the `TaskbarCreated` broadcast (Explorer restart).
    fn reregister(&mut self) -> Result<(), PlatformError>;
}

pub trait Notifier {
    fn error(&self, message: &str);
}

pub trait AutoStart {
    fn enable(&self) -> Result<(), PlatformError>;

    fn disable(&self) -> Result<(), PlatformError>;

    fn heal(&self) -> Result<(), PlatformError>;
}

} // verus!
