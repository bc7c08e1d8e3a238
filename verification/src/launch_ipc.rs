//! `--launch <id>` hand-off to the resident host over `WM_COPYDATA`, and the
//! result codes both sides agree on.

use vstd::prelude::*;

use crate::launch_queue::{
    queue_launch, queued_one, table_find, LaunchJob, LaunchQueue, SlotTable,
};
use crate::text::{string_of, trim, trimmed};

verus! {

/// Result codes of `--launch` (also the second process's exit codes).
pub const LAUNCH_OK: isize = 1;
pub const LAUNCH_UNKNOWN: isize = 2;
pub const LAUNCH_FAILED: isize = 3;
pub const LAUNCH_BAD_REQUEST: isize = 0;

/// `COPYDATASTRUCT.dwData` of a `--launch` request (`'DKL\0'`).
pub const COPYDATA_LAUNCH: usize = 0x0044_4B4C;

/// Why a request to the resident host did not go through.
#[derive(Clone, Copy, Debug, PartialEq, Eq, Structural)]
pub enum SignalLaunchError {
    /// No resident host window: the caller should run one-shot.
    NotRunning,
    /// The host answered with this (non-OK) code.
    Host(isize),
}

/// Outcome of `--launch` as seen by the second process: `host_found` tells
/// whether the host window exists, `reply` is what `SendMessage` returned.
pub open spec fn signal_launch_spec(host_found: bool, reply: isize) -> Result<(), SignalLaunchError> {
    if !host_found {
        Err(SignalLaunchError::NotRunning)
    } else if reply == LAUNCH_OK {
        Ok(())
    } else {
        Err(SignalLaunchError::Host(reply))
    }
}

pub fn signal_launch_outcome(host_found: bool, reply: isize) -> (r: Result<(), SignalLaunchError>)
    ensures
        r == signal_launch_spec(host_found, reply),
{
    if !host_found {
        return Err(SignalLaunchError::NotRunning);
    }
    if reply == LAUNCH_OK {
        Ok(())
    } else {
        Err(SignalLaunchError::Host(reply))
    }
}

/// Outcome of asking the host to reload: `posted` tells whether posting the
/// reload message succeeded.
pub fn signal_reload_outcome(host_found: bool, posted: bool) -> (r: Result<(), SignalLaunchError>)
    ensures
        r == (if !host_found {
            Err(SignalLaunchError::NotRunning)
        } else if posted {
            Ok(())
        } else {
            Err(SignalLaunchError::Host(LAUNCH_FAILED))
        }),
{
    if !host_found {
        Err(SignalLaunchError::NotRunning)
    } else if posted {
        Ok(())
    } else {
        Err(SignalLaunchError::Host(LAUNCH_FAILED))
    }
}

/// Calls `std::str::from_utf8` and copies the text when the bytes are valid
/// UTF-8. Claimed: `Some` exactly for valid UTF-8, holding the decoded text.
#[verifier::external_body]
fn utf8_text(bytes: &[u8]) -> (r: Option<String>)
    ensures
        r is Some <==> vstd::utf8::valid_utf8(bytes@),
        r matches Some(s) ==> s@ == vstd::utf8::decode_utf8(bytes@),
{
    std::str::from_utf8(bytes).ok().map(|s| s.to_string())
}

/// The slot id carried by a `WM_COPYDATA` launch request: `None` when the
/// request is malformed (no data, wrong tag, empty, or not UTF-8); otherwise
/// the UTF-8 text, trimmed.
pub open spec fn request_id_spec(dw_data: usize, payload: Option<Seq<u8>>) -> Option<Seq<char>> {
    match payload {
        None => None,
        Some(b) => if dw_data != COPYDATA_LAUNCH || b.len() == 0 || !vstd::utf8::valid_utf8(b) {
            None
        } else {
            Some(trimmed(vstd::utf8::decode_utf8(b)))
        },
    }
}

pub open spec fn payload_view(p: Option<&[u8]>) -> Option<Seq<u8>> {
    match p {
        Some(b) => Some(b@),
        None => None,
    }
}

/// Read the slot id of a launch request (`payload`: the `COPYDATASTRUCT`
/// bytes, `None` when `lParam` or `lpData` is null).
pub fn request_id(dw_data: usize, payload: Option<&[u8]>) -> (r: Option<String>)
    ensures
        match r {
            Some(s) => request_id_spec(dw_data, payload_view(payload)) == Some(s@),
            None => request_id_spec(dw_data, payload_view(payload)) is None,
        },
{
    match payload {
        None => None,
        Some(b) => {
            if dw_data != COPYDATA_LAUNCH || b.len() == 0 {
                return None;
            }
            match utf8_text(b) {
                None => None,
                Some(s) => Some(string_of(trim(s.as_str()))),
            }
        },
    }
}

/// The host's reply to a launch request, step by step: a malformed request or
/// an invalid id is a bad request; without a launch context (host not ready)
/// it failed; an unknown id is unknown; otherwise it is OK exactly when the
/// launch was queued.
pub open spec fn launch_reply_spec(
    id_present: bool,
    id_valid: bool,
    ctx_ready: bool,
    slot_known: bool,
    queued: bool,
) -> isize {
    if !id_present || !id_valid {
        LAUNCH_BAD_REQUEST
    } else if !ctx_ready {
        LAUNCH_FAILED
    } else if !slot_known {
        LAUNCH_UNKNOWN
    } else if queued {
        LAUNCH_OK
    } else {
        LAUNCH_FAILED
    }
}

pub fn launch_reply(id_present: bool, id_valid: bool, ctx_ready: bool, slot_known: bool, queued: bool) -> (r: isize)
    ensures
        r == launch_reply_spec(id_present, id_valid, ctx_ready, slot_known, queued),
{
    if !id_present || !id_valid {
        LAUNCH_BAD_REQUEST
    } else if !ctx_ready {
        LAUNCH_FAILED
    } else if !slot_known {
        LAUNCH_UNKNOWN
    } else if queued {
        LAUNCH_OK
    } else {
        LAUNCH_FAILED
    }
}

/// The second process succeeds exactly when the host queued the launch.
pub proof fn lemma_launch_round_trip(
    id_present: bool,
    id_valid: bool,
    ctx_ready: bool,
    slot_known: bool,
    queued: bool,
)
    ensures
        signal_launch_spec(true, launch_reply_spec(id_present, id_valid, ctx_ready, slot_known, queued))
            is Ok <==> (id_present && id_valid && ctx_ready && slot_known && queued),
{
}

/// Snapshot the host uses while handling `--launch`: the exe directory and the
/// slot registry, refreshed after each load / reload / settings apply.
pub struct LaunchIpcCtx<R> {
    ctx: Option<(String, R)>,
}

impl<R> LaunchIpcCtx<R> {
    pub closed spec fn spec_ctx(&self) -> Option<(Seq<char>, R)> {
        match self.ctx {
            Some((d, r)) => Some((d@, r)),
            None => None,
        }
    }

    pub fn new() -> (r: LaunchIpcCtx<R>)
        ensures
            r.spec_ctx() is None,
    {
        LaunchIpcCtx { ctx: None }
    }

    /// The snapshot, when the host is ready.
    pub fn get(&self) -> (r: Option<(&String, &R)>)
        ensures
            match r {
                Some((d, reg)) => self.spec_ctx() == Some((d@, *reg)),
                None => self.spec_ctx() is None,
            },
    {
        match &self.ctx {
            Some((d, reg)) => Some((d, reg)),
            None => None,
        }
    }
}

pub fn set_ctx<R>(ipc: &mut LaunchIpcCtx<R>, exe_dir: String, slots: R)
    ensures
        final(ipc).spec_ctx() == Some((exe_dir@, slots)),
{
    ipc.ctx = Some((exe_dir, slots));
}

pub fn clear_ctx<R>(ipc: &mut LaunchIpcCtx<R>)
    ensures
        final(ipc).spec_ctx() is None,
{
    ipc.ctx = None;
}

pub open spec fn opt_str_view(id: Option<&str>) -> Option<Seq<char>> {
    match id {
        Some(s) => Some(s@),
        None => None,
    }
}

/// Whether the request names a slot of the context's registry.
pub open spec fn request_slot<S: Copy>(ctx: Option<(Seq<char>, SlotTable<S>)>, id: Option<Seq<char>>) -> Option<S> {
    match (ctx, id) {
        (Some(c), Some(i)) => table_find(c.1.spec_entries(), i),
        _ => None,
    }
}

/// The host's answer to a launch request: `id` is the request's slot id
/// (`None`: malformed), `id_valid` whether it is a well-formed slot id, `ctx`
/// the launch context, `started` whether the launch worker accepts jobs.
pub open spec fn launch_request_spec<S: Copy>(
    ctx: Option<(Seq<char>, SlotTable<S>)>,
    id: Option<Seq<char>>,
    id_valid: bool,
    started: bool,
) -> isize {
    launch_reply_spec(id is Some, id_valid, ctx is Some, request_slot(ctx, id) is Some, started)
}

/// Answer a `--launch` request (`WM_COPYDATA`): `id` is what `request_id`
/// read from it, `id_valid` whether that is a well-formed slot id. On
/// `LAUNCH_OK` exactly one job was queued: the slot found by id in the
/// context's registry, with the context's exe directory and registry, the
/// whole slot (not only its folder), and `host` to tell on failure. On every
/// other answer the queue is left as it was.
pub fn handle_copydata<S: Copy>(
    ipc: &LaunchIpcCtx<SlotTable<S>>,
    q: &mut LaunchQueue<LaunchJob<S>>,
    id: Option<&str>,
    id_valid: bool,
    host: isize,
) -> (r: isize)
    ensures
        r == launch_request_spec(ipc.spec_ctx(), opt_str_view(id), id_valid, old(q).spec_started()),
        final(q).spec_started() == old(q).spec_started(),
        r != LAUNCH_OK ==> final(q).spec_pending() == old(q).spec_pending(),
        r == LAUNCH_OK ==> ({
            let c = ipc.spec_ctx()->0;
            queued_one(
                old(q).spec_pending(),
                final(q).spec_pending(),
                request_slot(ipc.spec_ctx(), opt_str_view(id))->0,
                c.0,
                c.1.spec_entries(),
                false,
                host,
            )
        }),
{
    let id = match id {
        Some(i) => i,
        None => return LAUNCH_BAD_REQUEST,
    };
    if !id_valid {
        return LAUNCH_BAD_REQUEST;
    }
    let (exe_dir, slots) = match ipc.get() {
        Some(c) => c,
        None => return LAUNCH_FAILED,
    };
    let slot = match slots.get(id) {
        Some(s) => s,
        None => return LAUNCH_UNKNOWN,
    };
    match queue_launch(q, slot, exe_dir.as_str(), slots, false, host) {
        Ok(()) => LAUNCH_OK,
        Err(_) => LAUNCH_FAILED,
    }
}

/// With the launch context cleared, every well-formed request fails, and (by
/// `handle_copydata`) nothing is queued.
pub proof fn lemma_cleared_context_fails<S: Copy>(id: Seq<char>, started: bool)
    ensures
        launch_request_spec::<S>(None, Some(id), true, started) == LAUNCH_FAILED,
{
}

/// A request is answered from the context last set, and from it alone: its
/// registry decides whether the slot is known, and the missing-context
/// failure no longer occurs.
pub proof fn lemma_request_reads_latest_context<S: Copy>(
    exe_dir: Seq<char>,
    slots: SlotTable<S>,
    id: Seq<char>,
    started: bool,
)
    ensures
        launch_request_spec(Some((exe_dir, slots)), Some(id), true, started) == (if table_find(
            slots.spec_entries(),
            id,
        ) is None {
            LAUNCH_UNKNOWN
        } else if started {
            LAUNCH_OK
        } else {
            LAUNCH_FAILED
        }),
{
}

} // verus!
