//! Autostart through the registry Run key, with path self-healing: the Run
//! value holds the quoted exe path and is rewritten when the exe moved.

use vstd::prelude::*;

use crate::text::{decode_utf16_lossy, push_char, push_str, to_wide, utf16_lossy_of, utf16_of};

verus! {

/// `"<exe path>"`.
pub open spec fn quoted_spec(path: Seq<char>) -> Seq<char> {
    seq!['"'] + path + seq!['"']
}

/// Little-endian bytes of UTF-16 code units (how a `REG_SZ` value is stored).
pub open spec fn le_bytes_of(units: Seq<u16>) -> Seq<u8>
    decreases units.len(),
{
    if units.len() == 0 {
        Seq::empty()
    } else {
        le_bytes_of(units.drop_last()) + seq![
            (units.last() % 256) as u8,
            (units.last() / 256) as u8,
        ]
    }
}

/// Code units read back from stored bytes: little-endian pairs (a trailing odd
/// byte is ignored).
pub open spec fn units_of_le(bytes: Seq<u8>) -> Seq<u16>
    decreases bytes.len(),
{
    if bytes.len() < 2 {
        Seq::empty()
    } else {
        seq![(bytes[0] + bytes[1] * 256) as u16] + units_of_le(bytes.subrange(2, bytes.len() as int))
    }
}

/// The units before the first NUL.
pub open spec fn until_nul(units: Seq<u16>) -> Seq<u16>
    decreases units.len(),
{
    if units.len() == 0 {
        Seq::empty()
    } else if units[0] == 0 {
        Seq::empty()
    } else {
        seq![units[0]] + until_nul(units.drop_first())
    }
}

/// The `REG_SZ` bytes written for a command.
pub open spec fn reg_sz_bytes_spec(cmd: Seq<char>) -> Seq<u8> {
    le_bytes_of(utf16_of(cmd).push(0u16))
}

/// Code units of a stored Run value, up to its terminating NUL.
pub open spec fn run_value_units(bytes: Seq<u8>) -> Seq<u16> {
    until_nul(units_of_le(bytes))
}

pub open spec fn stored_view(stored: Option<&[u8]>) -> Option<Seq<u8>> {
    match stored {
        Some(b) => Some(b@),
        None => None,
    }
}

/// What the heal step does, given the value currently in the Run key.
#[derive(Clone, Copy, Debug, PartialEq, Eq, Structural)]
pub enum HealAction {
    /// Not registered yet: register it.
    Enable,
    /// Already points at this exe: nothing to do.
    AlreadyCorrect,
    /// Points elsewhere (the exe moved): rewrite it.
    Rewrite,
}

pub open spec fn heal_spec(expected: Seq<char>, current: Option<Seq<char>>) -> HealAction {
    match current {
        None => HealAction::Enable,
        Some(c) => if c == expected {
            HealAction::AlreadyCorrect
        } else {
            HealAction::Rewrite
        },
    }
}

/// What applying the autostart setting does.
#[derive(Clone, Copy, Debug, PartialEq, Eq, Structural)]
pub enum AutoStartStep {
    /// Enabled: heal (register or repair) the Run value.
    Heal,
    /// Disabled: remove the Run value; a failure there is only logged.
    Disable,
}

/// Registry Run-key autostart for one exe path.
pub struct WindowsAutoStart {
    exe_path: String,
}

impl WindowsAutoStart {
    pub closed spec fn spec_exe_path(&self) -> Seq<char> {
        self.exe_path@
    }

    /// `exe_path` is the exe's path as text (lossy for non-Unicode paths).
    pub fn new(exe_path: &str) -> (r: WindowsAutoStart)
        ensures
            r.spec_exe_path() == exe_path@,
    {
        WindowsAutoStart { exe_path: crate::text::string_of(exe_path) }
    }

    /// Apply the setting: enabled heals, disabled removes.
    pub fn apply(&self, enabled: bool) -> (r: AutoStartStep)
        ensures
            r == (if enabled {
                AutoStartStep::Heal
            } else {
                AutoStartStep::Disable
            }),
    {
        if enabled {
            AutoStartStep::Heal
        } else {
            AutoStartStep::Disable
        }
    }

    /// The command stored in the Run value: the exe path in double quotes.
    pub fn quoted_command(&self) -> (r: String)
        ensures
            r@ == quoted_spec(self.spec_exe_path()),
    {
        let mut s = String::new();
        push_char(&mut s, '"');
        push_str(&mut s, self.exe_path.as_str());
        push_char(&mut s, '"');
        s
    }

    /// The bytes to write as the `REG_SZ` Run value.
    pub fn run_value_bytes(&self) -> (r: Vec<u8>)
        ensures
            r@ == reg_sz_bytes_spec(quoted_spec(self.spec_exe_path())),
    {
        let cmd = self.quoted_command();
        reg_sz_bytes(cmd.as_str())
    }

    /// Heal decision from the Run value as read (`None`: absent or unreadable).
    /// A value that holds exactly what `run_value_bytes` writes is correct.
    pub fn heal_action(&self, stored: Option<&[u8]>) -> (r: HealAction)
        ensures
            r == heal_spec(
                quoted_spec(self.spec_exe_path()),
                match stored_view(stored) {
                    Some(b) => Some(utf16_lossy_of(run_value_units(b))),
                    None => None,
                },
            ),
            (!self.spec_exe_path().contains('\0') && stored_view(stored) == Some(
                reg_sz_bytes_spec(quoted_spec(self.spec_exe_path())),
            )) ==> r == HealAction::AlreadyCorrect,
    {
        let expected = self.quoted_command();
        match stored {
            None => HealAction::Enable,
            Some(b) => {
                let current = decode_run_value(b);
                proof {
                    if !self.spec_exe_path().contains('\0') && b@ == reg_sz_bytes_spec(
                        quoted_spec(self.spec_exe_path()),
                    ) {
                        let q = quoted_spec(self.spec_exe_path());
                        assert(!q.contains('\0')) by {
                            if q.contains('\0') {
                                let k = choose|k: int| 0 <= k < q.len() && q[k] == '\0';
                                assert(self.spec_exe_path()[k - 1] == '\0');
                            }
                        }
                        lemma_run_value_roundtrip(q);
                    }
                }
                if current == expected {
                    HealAction::AlreadyCorrect
                } else {
                    HealAction::Rewrite
                }
            },
        }
    }
}

/// `ERROR_SUCCESS`.
pub const ERROR_SUCCESS: u32 = 0;
/// `ERROR_FILE_NOT_FOUND`: the Run value is not there.
pub const ERROR_FILE_NOT_FOUND: u32 = 2;

/// A registry call on the Run key failed with this Win32 status.
#[derive(Clone, Copy, Debug, PartialEq, Eq, Structural)]
pub struct RegistryError {
    pub status: u32,
}

/// Outcome of removing the Run value: nothing to do when the key could not
/// be opened for writing or the value is already gone; any other failed
/// delete is an error.
pub open spec fn disable_spec(opened: bool, delete_status: u32) -> Result<(), RegistryError> {
    if !opened || delete_status == ERROR_SUCCESS || delete_status == ERROR_FILE_NOT_FOUND {
        Ok(())
    } else {
        Err(RegistryError { status: delete_status })
    }
}

/// Outcome of writing the Run value: the open, then the write, must succeed.
pub open spec fn enable_spec(open_status: u32, set_status: u32) -> Result<(), RegistryError> {
    if open_status != ERROR_SUCCESS {
        Err(RegistryError { status: open_status })
    } else if set_status != ERROR_SUCCESS {
        Err(RegistryError { status: set_status })
    } else {
        Ok(())
    }
}

impl WindowsAutoStart {
    /// Result of `disable` from the registry's answers (`delete_status` is
    /// only read when the key was opened).
    pub fn disable_outcome(&self, opened: bool, delete_status: u32) -> (r: Result<(), RegistryError>)
        ensures
            r == disable_spec(opened, delete_status),
    {
        if !opened || delete_status == ERROR_SUCCESS || delete_status == ERROR_FILE_NOT_FOUND {
            Ok(())
        } else {
            Err(RegistryError { status: delete_status })
        }
    }

    /// Result of `enable` from the registry's answers (`set_status` is only
    /// read when the key was opened).
    pub fn enable_outcome(&self, open_status: u32, set_status: u32) -> (r: Result<(), RegistryError>)
        ensures
            r == enable_spec(open_status, set_status),
    {
        if open_status != ERROR_SUCCESS {
            Err(RegistryError { status: open_status })
        } else if set_status != ERROR_SUCCESS {
            Err(RegistryError { status: set_status })
        } else {
            Ok(())
        }
    }

    /// Result of `apply`: enabling reports a failed heal; disabling never
    /// fails (a failed delete is only logged).
    pub fn apply_outcome(&self, enabled: bool, step_result: Result<(), RegistryError>) -> (r: Result<(), RegistryError>)
        ensures
            r == (if enabled {
                step_result
            } else {
                Ok::<(), RegistryError>(())
            }),
    {
        if enabled {
            step_result
        } else {
            Ok(())
        }
    }
}

/// `--uninstall`: remove the Run value only (configuration files are never
/// touched). Given the registry's answers to the open and the delete.
pub fn uninstall_run_key(exe_path: &str, opened: bool, delete_status: u32) -> (r: Result<(), RegistryError>)
    ensures
        r == disable_spec(opened, delete_status),
{
    WindowsAutoStart::new(exe_path).disable_outcome(opened, delete_status)
}

/// Little-endian bytes of a NUL-terminated UTF-16 command.
pub fn reg_sz_bytes(cmd: &str) -> (r: Vec<u8>)
    ensures
        r@ == reg_sz_bytes_spec(cmd@),
{
    let wide = to_wide(cmd);
    let mut out: Vec<u8> = Vec::new();
    let mut i: usize = 0;
    while i < wide.len()
        invariant
            0 <= i <= wide.len(),
            out@ == le_bytes_of(wide@.take(i as int)),
        decreases wide.len() - i,
    {
        let u = wide[i];
        assert(wide@.take(i + 1).drop_last() == wide@.take(i as int));
        out.push((u % 256) as u8);
        out.push((u / 256) as u8);
        i += 1;
    }
    assert(wide@.take(wide@.len() as int) == wide@);
    out
}

/// Decode a stored Run value: little-endian code units up to the first NUL,
/// then UTF-16 (lossy).
pub fn decode_run_value(bytes: &[u8]) -> (r: String)
    ensures
        r@ == utf16_lossy_of(run_value_units(bytes@)),
        forall|cs: Seq<char>| #[trigger] utf16_of(cs) == run_value_units(bytes@) ==> r@ == cs,
{
    let mut units: Vec<u16> = Vec::new();
    let mut i: usize = 0;
    assert(bytes@.subrange(0, bytes@.len() as int) =~= bytes@);
    assert(units@ + run_value_units(bytes@) =~= run_value_units(bytes@));
    while i + 1 < bytes.len()
        invariant
            0 <= i <= bytes.len(),
            i % 2 == 0,
            run_value_units(bytes@) == units@ + until_nul(
                units_of_le(bytes@.subrange(i as int, bytes@.len() as int)),
            ),
            forall|k: int| 0 <= k < units@.len() ==> units@[k] != 0u16,
        decreases bytes.len() - i,
    {
        let ghost rest = bytes@.subrange(i as int, bytes@.len() as int);
        let u: u16 = (bytes[i] as u16) + (bytes[i + 1] as u16) * 256;
        assert(rest.subrange(2, rest.len() as int) =~= bytes@.subrange(i + 2, bytes@.len() as int));
        assert(units_of_le(rest) == seq![u] + units_of_le(rest.subrange(2, rest.len() as int)));
        if u == 0 {
            assert(until_nul(units_of_le(rest)) =~= Seq::<u16>::empty());
            assert(units@ + Seq::<u16>::empty() =~= units@);
            proof {
                assert forall|cs: Seq<char>| #[trigger] utf16_of(cs) == run_value_units(bytes@) implies utf16_lossy_of(
                    run_value_units(bytes@),
                ) == cs by {
                    crate::text::lemma_lossy_decodes(cs);
                }
            }
            return decode_utf16_lossy(units.as_slice());
        }
        let ghost tail = units_of_le(rest.subrange(2, rest.len() as int));
        assert(until_nul(seq![u] + tail) == seq![u] + until_nul(tail)) by {
            assert((seq![u] + tail).drop_first() =~= tail);
        }
        units.push(u);
        assert(units@ + until_nul(tail) =~= units@.drop_last() + (seq![u] + until_nul(tail)));
        i += 2;
    }
    assert(units_of_le(bytes@.subrange(i as int, bytes@.len() as int)) =~= Seq::<u16>::empty());
    assert(units@ + Seq::<u16>::empty() =~= units@);
    proof {
        assert forall|cs: Seq<char>| #[trigger] utf16_of(cs) == run_value_units(bytes@) implies utf16_lossy_of(
            run_value_units(bytes@),
        ) == cs by {
            crate::text::lemma_lossy_decodes(cs);
        }
    }
    decode_utf16_lossy(units.as_slice())
}

proof fn lemma_le_roundtrip_units(units: Seq<u16>)
    ensures
        units_of_le(le_bytes_of(units)) == units,
    decreases units.len(),
{
    if units.len() > 0 {
        let init = units.drop_last();
        let u = units.last();
        lemma_le_roundtrip_units(init);
        lemma_le_bytes_even(init);
        lemma_units_of_le_append(le_bytes_of(init), (u % 256) as u8, (u / 256) as u8);
        assert(((u % 256) as u8 + ((u / 256) as u8) * 256) as u16 == u);
        assert(init.push(u) =~= units);
    }
}

proof fn lemma_units_of_le_append(b: Seq<u8>, lo: u8, hi: u8)
    requires
        b.len() % 2 == 0,
    ensures
        units_of_le(b + seq![lo, hi]) == units_of_le(b).push((lo + hi * 256) as u16),
    decreases b.len(),
{
    if b.len() < 2 {
        assert(b.len() == 0);
        assert(b + seq![lo, hi] =~= seq![lo, hi]);
        let two = seq![lo, hi];
        assert(two.subrange(2, 2) =~= Seq::<u8>::empty());
        assert(units_of_le(Seq::<u8>::empty()) == Seq::<u16>::empty());
        assert(two[0] == lo && two[1] == hi);
        assert(units_of_le(two) == seq![(two[0] + two[1] * 256) as u16] + units_of_le(two.subrange(2, 2)));
        assert(units_of_le(two) =~= seq![(lo + hi * 256) as u16]);
        assert(units_of_le(b) =~= Seq::<u16>::empty());
    } else {
        let rest = b.subrange(2, b.len() as int);
        lemma_units_of_le_append(rest, lo, hi);
        assert((b + seq![lo, hi]).subrange(2, (b + seq![lo, hi]).len() as int) =~= rest + seq![
            lo,
            hi,
        ]);
        assert(units_of_le(b + seq![lo, hi]) =~= seq![(b[0] + b[1] * 256) as u16] + units_of_le(
            rest + seq![lo, hi],
        ));
    }
}

proof fn lemma_le_bytes_even(units: Seq<u16>)
    ensures
        le_bytes_of(units).len() == 2 * units.len(),
    decreases units.len(),
{
    if units.len() > 0 {
        lemma_le_bytes_even(units.drop_last());
    }
}

proof fn lemma_until_nul_terminated(units: Seq<u16>)
    requires
        forall|k: int| 0 <= k < units.len() ==> units[k] != 0u16,
    ensures
        until_nul(units.push(0u16)) == units,
    decreases units.len(),
{
    if units.len() > 0 {
        let t = units.drop_first();
        lemma_until_nul_terminated(t);
        assert(units.push(0u16).drop_first() =~= t.push(0u16));
        assert(seq![units[0]] + t =~= units);
    } else {
        assert(units.push(0u16) =~= seq![0u16]);
    }
}

/// What the Run value written for a command without NUL characters reads
/// back as: exactly the command's code units.
pub proof fn lemma_run_value_roundtrip(cmd: Seq<char>)
    requires
        !cmd.contains('\0'),
    ensures
        run_value_units(reg_sz_bytes_spec(cmd)) == utf16_of(cmd),
{
    let units = utf16_of(cmd).push(0u16);
    lemma_le_roundtrip_units(units);
    crate::text::lemma_utf16_nonzero(cmd);
    lemma_until_nul_terminated(utf16_of(cmd));
}

} // verus!
