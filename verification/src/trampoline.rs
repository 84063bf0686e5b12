//! The replacement function's decision logic.
//!
//! The trampoline is installed in place of the intercepted native method.
//! On every invocation it attempts to read the frame-info buffer, decodes
//! the vsync timestamp, and forwards the call to the saved original with
//! the identical arguments, returning the original's result unchanged. If
//! the buffer cannot be materialized, or no original was saved, the
//! invocation fails fast with the sentinel code instead of forwarding.
//!
//! The foreign shell drives one invocation as follows: it acquires a
//! readable view of the buffer, calls [`trampoline_step`], releases the
//! view exactly when the outcome demands it ([`must_release_view`]),
//! performs the forward the outcome names, and returns the value
//! [`finish_invocation`] computes.

use crate::cell::OriginalPointerCell;
use crate::decode::{decode_vsync_millis, millis_of_nanos, vsync_ns_of};
use vstd::prelude::*;

verus! {

/// Failure code returned when instrumentation cannot complete: the caller
/// sees an error value instead of a crash.
pub const SENTINEL: i32 = -1;

/// The intercepted method's arguments besides the frame-info buffer: a
/// native handle and a synchronization mode.
#[derive(Clone, Copy, Debug, PartialEq, Eq, Structural)]
pub struct HookArgs {
    pub native_ptr: i64,
    pub sync_mode: i32,
}

/// What one invocation of the trampoline must do after inspecting the
/// buffer view and the pointer cell.
#[derive(Clone, Copy, Debug, PartialEq, Eq, Structural)]
pub enum HookOutcome {
    /// No readable view of the buffer could be materialized: return the
    /// sentinel at once; nothing was acquired, so nothing is released,
    /// and no forwarding happens.
    BufferUnavailable,
    /// The timestamp was decoded but no original pointer is saved:
    /// release the view and return the sentinel without forwarding.
    NotInstalled { vsync_ms: i64 },
    /// The timestamp was decoded and an original is saved: release the
    /// view, then forward to `original` with the identical arguments
    /// `args` and return its result unchanged.
    Forward { vsync_ms: i64, original: u64, args: HookArgs },
}

/// The outcome of one trampoline invocation, as a function of the cell's
/// contents, the materialized buffer view (if any), and the arguments.
pub open spec fn trampoline_model(
    stored: Option<u64>,
    view: Option<Seq<u8>>,
    args: HookArgs,
) -> HookOutcome {
    match view {
        None => HookOutcome::BufferUnavailable,
        Some(bytes) => {
            let ms = millis_of_nanos(vsync_ns_of(bytes)) as i64;
            match stored {
                None => HookOutcome::NotInstalled { vsync_ms: ms },
                Some(original) => HookOutcome::Forward { vsync_ms: ms, original, args },
            }
        },
    }
}

/// The bytes behind an optional buffer view.
pub open spec fn view_bytes(view: Option<&Vec<u8>>) -> Option<Seq<u8>> {
    match view {
        None => None,
        Some(b) => Some(b@),
    }
}

/// Decides one invocation: `view` is the readable buffer view the host
/// materialized, or `None` when it reported failure.
pub fn trampoline_step(
    cell: &OriginalPointerCell,
    view: Option<&Vec<u8>>,
    args: HookArgs,
) -> (o: HookOutcome)
    requires
        view matches Some(b) ==> b@.len() >= 8,
    ensures
        o == trampoline_model(cell@, view_bytes(view), args),
{
    match view {
        None => HookOutcome::BufferUnavailable,
        Some(bytes) => {
            let vsync_ms = decode_vsync_millis(bytes);
            match cell.load() {
                None => HookOutcome::NotInstalled { vsync_ms },
                Some(original) => HookOutcome::Forward { vsync_ms, original, args },
            }
        },
    }
}

/// Whether the invocation acquired a buffer view that must be released
/// before returning.
pub open spec fn releases_view(o: HookOutcome) -> bool {
    !(o matches HookOutcome::BufferUnavailable)
}

/// Tells the shell whether to release the buffer view for this outcome.
pub fn must_release_view(o: &HookOutcome) -> (release: bool)
    ensures
        release == releases_view(*o),
{
    match o {
        HookOutcome::BufferUnavailable => false,
        _ => true,
    }
}

/// The trampoline's return value: the original's result when the outcome
/// forwarded and a result came back, the sentinel otherwise.
pub open spec fn trampoline_return(o: HookOutcome, forwarded: Option<i32>) -> i32 {
    if o matches HookOutcome::Forward { .. } && forwarded is Some {
        forwarded->0
    } else {
        SENTINEL
    }
}

/// Computes the invocation's return value; `forwarded` is the original's
/// result when the outcome told the shell to forward, `None` otherwise.
pub fn finish_invocation(o: &HookOutcome, forwarded: Option<i32>) -> (r: i32)
    ensures
        r == trampoline_return(*o, forwarded),
{
    match o {
        HookOutcome::Forward { .. } => match forwarded {
            Some(result) => result,
            None => SENTINEL,
        },
        _ => SENTINEL,
    }
}

/// Once installed, the trampoline is transparent: with a readable view it
/// forwards to the saved original, with the identical arguments, and
/// returns the original's result unchanged.
pub proof fn lemma_trampoline_transparent(
    original: u64,
    bytes: Seq<u8>,
    args: HookArgs,
    result: i32,
)
    ensures
        trampoline_model(Some(original), Some(bytes), args) matches HookOutcome::Forward {
            original: fwd,
            args: fwd_args,
            ..
        } && fwd == original && fwd_args == args,
        trampoline_return(trampoline_model(Some(original), Some(bytes), args), Some(result))
            == result,
{
}

/// With an empty cell the trampoline never forwards, and whatever came of
/// the buffer, the caller gets the sentinel.
pub proof fn lemma_fail_fast_when_unhooked(
    view: Option<Seq<u8>>,
    args: HookArgs,
    forwarded: Option<i32>,
)
    ensures
        !(trampoline_model(None, view, args) matches HookOutcome::Forward { .. }),
        trampoline_return(trampoline_model(None, view, args), forwarded) == SENTINEL,
{
}

/// Every acquired buffer view is released: an invocation releases a view
/// if and only if the host materialized one, on success and failure alike.
pub proof fn lemma_view_release_balanced(
    stored: Option<u64>,
    view: Option<Seq<u8>>,
    args: HookArgs,
)
    ensures
        releases_view(trampoline_model(stored, view, args)) <==> view is Some,
{
}

} // verus!
