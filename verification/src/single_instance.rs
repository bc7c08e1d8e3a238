//! Single instance through a named mutex. A second process asks the first
//! to open the typing window and stops.

use vstd::prelude::*;

verus! {

/// `ERROR_ALREADY_EXISTS`: the named mutex was already there.
pub const ERROR_ALREADY_EXISTS: u32 = 183;

/// The mutex this process owns (its handle).
pub struct SingleInstance {
    handle: isize,
}

/// Another instance owns the mutex.
#[derive(Clone, Copy, Debug, PartialEq, Eq, Structural)]
pub struct AlreadyRunning;

/// What the mutex creation came to.
#[derive(Clone, Copy, Debug, PartialEq, Eq, Structural)]
pub enum MutexOutcome {
    /// This process owns the mutex.
    Owned,
    /// It existed: close the handle and signal the primary instance.
    Existed,
    /// The mutex could not be created.
    Failed,
}

pub open spec fn mutex_outcome_spec(created: bool, last_error: u32) -> MutexOutcome {
    if !created {
        MutexOutcome::Failed
    } else if last_error == ERROR_ALREADY_EXISTS {
        MutexOutcome::Existed
    } else {
        MutexOutcome::Owned
    }
}

/// Classify `CreateMutexW`'s result with the thread's last error after it.
pub fn mutex_outcome(created: bool, last_error: u32) -> (r: MutexOutcome)
    ensures
        r == mutex_outcome_spec(created, last_error),
{
    if !created {
        MutexOutcome::Failed
    } else if last_error == ERROR_ALREADY_EXISTS {
        MutexOutcome::Existed
    } else {
        MutexOutcome::Owned
    }
}

impl SingleInstance {
    pub closed spec fn spec_handle(&self) -> isize {
        self.handle
    }

    /// Acquire from the creation result (`handle` is `None` when creation
    /// failed): owned only when the mutex did not exist before.
    pub fn acquire(handle: Option<isize>, last_error: u32) -> (r: Result<SingleInstance, AlreadyRunning>)
        ensures
            r is Ok <==> mutex_outcome_spec(handle is Some, last_error) == MutexOutcome::Owned,
            r matches Ok(s) ==> s.spec_handle() == handle.unwrap(),
    {
        match handle {
            None => Err(AlreadyRunning),
            Some(h) => {
                if mutex_outcome(true, last_error) == MutexOutcome::Owned {
                    Ok(SingleInstance { handle: h })
                } else {
                    Err(AlreadyRunning)
                }
            },
        }
    }

    /// The handle to close when the instance ends.
    pub fn handle(&self) -> (r: isize)
        ensures
            r == self.spec_handle(),
    {
        self.handle
    }
}

/// The window to post the trigger to when signalling the primary instance:
/// the host window found by class, if any.
pub fn signal_target(found: Option<isize>) -> (r: Option<isize>)
    ensures
        r == (match found {
            Some(h) => if h != 0 {
                Some(h)
            } else {
                None::<isize>
            },
            None => None::<isize>,
        }),
{
    match found {
        Some(h) => if h != 0 {
            Some(h)
        } else {
            None
        },
        None => None,
    }
}

} // verus!
