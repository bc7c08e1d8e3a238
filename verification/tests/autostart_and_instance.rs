use dialkey::autostart::{
    decode_run_value, reg_sz_bytes, uninstall_run_key, AutoStartStep, HealAction, RegistryError,
    WindowsAutoStart, ERROR_FILE_NOT_FOUND,
};
use dialkey::single_instance::{
    mutex_outcome, signal_target, AlreadyRunning, MutexOutcome, SingleInstance, ERROR_ALREADY_EXISTS,
};

#[test]
fn quoted_command_wraps_path() {
    let a = WindowsAutoStart::new(r"C:\Tools\dialkey.exe");
    assert_eq!(a.quoted_command(), "\"C:\\Tools\\dialkey.exe\"");
}

#[test]
fn reg_sz_bytes_are_little_endian_with_nul() {
    assert_eq!(reg_sz_bytes("A"), vec![0x41, 0x00, 0x00, 0x00]);
    assert_eq!(reg_sz_bytes("é"), vec![0xE9, 0x00, 0x00, 0x00]);
    assert_eq!(reg_sz_bytes("\u{20AC}"), vec![0xAC, 0x20, 0x00, 0x00]);
}

#[test]
fn run_value_reads_back_what_was_written() {
    let a = WindowsAutoStart::new(r"D:\Apps\DialKey\dialkey.exe");
    let bytes = a.run_value_bytes();
    assert_eq!(decode_run_value(&bytes), a.quoted_command());
    assert_eq!(a.heal_action(Some(&bytes)), HealAction::AlreadyCorrect);
}

#[test]
fn heal_actions() {
    let a = WindowsAutoStart::new(r"C:\new\dialkey.exe");
    assert_eq!(a.heal_action(None), HealAction::Enable);
    let old = WindowsAutoStart::new(r"C:\old\dialkey.exe").run_value_bytes();
    assert_eq!(a.heal_action(Some(&old)), HealAction::Rewrite);
}

#[test]
fn decode_stops_at_nul_and_ignores_odd_byte() {
    // "AB", NUL, "C" then a stray byte.
    let bytes = [0x41, 0x00, 0x42, 0x00, 0x00, 0x00, 0x43, 0x00, 0x7F];
    assert_eq!(decode_run_value(&bytes), "AB");
    assert_eq!(decode_run_value(&[0x41, 0x00, 0x42]), "A");
    assert_eq!(decode_run_value(&[]), "");
}

#[test]
fn decode_replaces_unpaired_surrogate() {
    // A lone high surrogate followed by 'A'.
    let bytes = [0x3D, 0xD8, 0x41, 0x00];
    assert_eq!(decode_run_value(&bytes), "\u{FFFD}A");
}

#[test]
fn apply_steps() {
    let a = WindowsAutoStart::new("x.exe");
    assert_eq!(a.apply(true), AutoStartStep::Heal);
    assert_eq!(a.apply(false), AutoStartStep::Disable);
    let err = Err(RegistryError { status: 5 });
    assert_eq!(a.apply_outcome(true, err), err);
    assert_eq!(a.apply_outcome(false, err), Ok(()));
}

#[test]
fn disable_outcomes() {
    let a = WindowsAutoStart::new("x.exe");
    assert_eq!(a.disable_outcome(false, 5), Ok(()));
    assert_eq!(a.disable_outcome(true, 0), Ok(()));
    assert_eq!(a.disable_outcome(true, ERROR_FILE_NOT_FOUND), Ok(()));
    assert_eq!(a.disable_outcome(true, 5), Err(RegistryError { status: 5 }));
}

#[test]
fn enable_outcomes() {
    let a = WindowsAutoStart::new("x.exe");
    assert_eq!(a.enable_outcome(0, 0), Ok(()));
    assert_eq!(a.enable_outcome(2, 0), Err(RegistryError { status: 2 }));
    assert_eq!(a.enable_outcome(0, 5), Err(RegistryError { status: 5 }));
}

#[test]
fn uninstall_run_key_ignores_missing_value() {
    assert_eq!(uninstall_run_key("x.exe", true, ERROR_FILE_NOT_FOUND), Ok(()));
    assert_eq!(uninstall_run_key("x.exe", true, 1), Err(RegistryError { status: 1 }));
}

#[test]
fn single_instance_acquire() {
    assert_eq!(mutex_outcome(false, 0), MutexOutcome::Failed);
    assert_eq!(mutex_outcome(true, ERROR_ALREADY_EXISTS), MutexOutcome::Existed);
    assert_eq!(mutex_outcome(true, 0), MutexOutcome::Owned);
    let owned = SingleInstance::acquire(Some(77), 0).ok().unwrap();
    assert_eq!(owned.handle(), 77);
    assert_eq!(SingleInstance::acquire(Some(77), ERROR_ALREADY_EXISTS).err(), Some(AlreadyRunning));
    assert_eq!(SingleInstance::acquire(None, 0).err(), Some(AlreadyRunning));
}

#[test]
fn signal_primary_target() {
    assert_eq!(signal_target(Some(9)), Some(9));
    assert_eq!(signal_target(Some(0)), None);
    assert_eq!(signal_target(None), None);
}
