//! The bridge between the native "for each" enumerations, which call a C
//! callback with a continue/abort code from inside one blocking call, and
//! caller closures that answer `Ok(true)` (go on), `Ok(false)` (stop) or
//! `Err(e)` (stop and report `e`).
//!
//! A closure that panics must not unwind through the native frame: the panic
//! is caught at the callback boundary, the enumeration is aborted, later
//! callbacks abort without running the closure, and the caught payload is
//! handed back to be resumed once the native call has returned.
use vstd::prelude::*;

use crate::error::{Error, Result};

verus! {

/// The callback code that lets the native enumeration go on.
pub const DWARF_CB_OK: u32 = 0;

/// The callback code that ends the native enumeration.
pub const DWARF_CB_ABORT: u32 = 1;

/// The callback code for a closure's answer.
pub open spec fn spec_cb_code(cont: Result<bool>) -> u32 {
    match cont {
        Ok(go_on) => if go_on {
            DWARF_CB_OK
        } else {
            DWARF_CB_ABORT
        },
        Err(_) => DWARF_CB_ABORT,
    }
}

/// The outcome to report after a closure's answer: its error if it gave one,
/// else what was to be reported before.
pub open spec fn spec_cb_result<T>(cont: Result<bool>, result: Result<T>) -> Result<T> {
    match cont {
        Err(e) => Err(e),
        Ok(_) => result,
    }
}

/// Translates a closure's answer into the native callback code, keeping an
/// error in `result` to be returned once the native call is over.
pub fn dwarf_cb_map<T>(cont: Result<bool>, result: &mut Result<T>) -> (r: u32)
    ensures
        r == spec_cb_code(cont),
        *final(result) == spec_cb_result(cont, *old(result)),
{
    match cont {
        Ok(go_on) => if go_on {
            DWARF_CB_OK
        } else {
            DWARF_CB_ABORT
        },
        Err(e) => {
            *result = Err(e);
            DWARF_CB_ABORT
        },
    }
}

/// What the outcome of a whole enumeration is when no panic is pending: the
/// native call's own error first, else what the callbacks left to report.
pub open spec fn spec_settle<T>(rc: Result<isize>, result: Result<T>) -> Result<T> {
    match rc {
        Err(e) => Err(e),
        Ok(_) => result,
    }
}

/// The outcome of an enumeration run without a panic guard.
pub fn settle<T>(rc: Result<isize>, result: Result<T>) -> (r: Result<T>)
    ensures
        r == spec_settle(rc, result),
{
    match rc {
        Err(e) => Err(e),
        Ok(_) => result,
    }
}

/// Holds the payload of a panic caught in a callback until the native call
/// that made the callback has returned.
pub struct CallbackGuard<P> {
    payload: Option<P>,
}

impl<P> CallbackGuard<P> {
    /// The caught panic payload, if any.
    pub closed spec fn spec_payload(&self) -> Option<P> {
        self.payload
    }

    /// A guard with no panic caught.
    pub fn new() -> (r: CallbackGuard<P>)
        ensures
            r.spec_payload() is None,
    {
        CallbackGuard { payload: None }
    }

    /// Whether a panic has been caught.
    pub fn pending(&self) -> (r: bool)
        ensures
            r == (self.spec_payload() is Some),
    {
        self.payload.is_some()
    }

    /// Runs one callback. Unless a payload is held, `run` runs the caller's
    /// closure with panics caught and gives its answer, or the payload of the
    /// panic it caught; the answer is mapped to the callback code with
    /// `dwarf_cb_map`, and a payload is kept and aborts the enumeration. Once
    /// a payload is held, `run` is not called again and every callback asks
    /// the enumeration to abort.
    pub fn call<T, F>(&mut self, result: &mut Result<T>, run: F) -> (r: u32) where
        F: FnOnce() -> core::result::Result<Result<bool>, P>,

        requires
            old(self).spec_payload() is None ==> run.requires(()),
        ensures
            old(self).spec_payload() is Some ==> (r, final(self).spec_payload(), *final(result))
                == bridge_step(old(self).spec_payload(), *old(result), Ok(Ok(true))),
            old(self).spec_payload() is None ==> exists|out: core::result::Result<Result<bool>, P>|
                #[trigger] run.ensures((), out) && (r, final(self).spec_payload(), *final(result))
                    == bridge_step(None, *old(result), out),
    {
        if self.payload.is_some() {
            return DWARF_CB_ABORT;
        }
        match run() {
            Ok(cont) => dwarf_cb_map(cont, result),
            Err(p) => {
                self.payload = Some(p);
                DWARF_CB_ABORT
            },
        }
    }

    /// The outcome of the enumeration once the native call has returned
    /// `rc`: `Err(payload)` when a panic was caught, which the caller must
    /// resume, else the enumeration's result.
    pub fn finish<T>(self, rc: Result<isize>, result: Result<T>) -> (r: core::result::Result<
        Result<T>,
        P,
    >)
        ensures
            self.spec_payload() matches Some(p) ==> r == Err::<Result<T>, P>(p),
            self.spec_payload() is None ==> r == Ok::<Result<T>, P>(spec_settle(rc, result)),
    {
        match self.payload {
            Some(p) => Err(p),
            None => Ok(settle(rc, result)),
        }
    }
}

/// One callback of a guarded enumeration, as `CallbackGuard::call` runs it:
/// the code it returns to the native library, and the payload and result
/// that it leaves. The closure's outcome `o` is its answer, or the payload of
/// its panic; while a payload is held the closure is not run at all.
pub open spec fn bridge_step<T, P>(
    payload: Option<P>,
    result: Result<T>,
    o: core::result::Result<Result<bool>, P>,
) -> (u32, Option<P>, Result<T>) {
    if payload is Some {
        (DWARF_CB_ABORT, payload, result)
    } else {
        match o {
            Ok(cont) => (spec_cb_code(cont), None, spec_cb_result(cont, result)),
            Err(p) => (DWARF_CB_ABORT, Some(p), result),
        }
    }
}

/// A guarded native enumeration over items whose closure outcomes are
/// `outs`: the native library makes callbacks in item order until one
/// returns a code other than `DWARF_CB_OK`. The number of callbacks made,
/// and the payload and result that they leave.
pub open spec fn bridge_run<P>(
    payload: Option<P>,
    result: Result<()>,
    outs: Seq<core::result::Result<Result<bool>, P>>,
) -> (
    nat,
    Option<P>,
    Result<()>,
)
    decreases outs.len(),
{
    if outs.len() == 0 {
        (0, payload, result)
    } else {
        let (code, p, r) = bridge_step(payload, result, outs[0]);
        if code != DWARF_CB_OK {
            (1, p, r)
        } else {
            let rest = bridge_run(p, r, outs.drop_first());
            (rest.0 + 1, rest.1, rest.2)
        }
    }
}

/// A closure that goes on for the first `n - 1` items and answers
/// `Ok(false)` on the `n`-th sees exactly `n` items, and the enumeration then
/// succeeds: no payload is held and nothing is reported but what the native
/// call itself reports.
pub proof fn lemma_stop_after_n<P>(outs: Seq<core::result::Result<Result<bool>, P>>, n: nat)
    requires
        1 <= n <= outs.len(),
        forall|i: int| 0 <= i < n - 1 ==> outs[i] == Ok::<Result<bool>, P>(Ok(true)),
        outs[n - 1] == Ok::<Result<bool>, P>(Ok(false)),
    ensures
        bridge_run(None, Ok(()), outs) == (n, None::<P>, Ok::<(), Error>(())),
        forall|count: isize|
            spec_settle(Ok(count), bridge_run(None, Ok(()), outs).2) == Ok::<(), Error>(()),
    decreases n,
{
    if n > 1 {
        let rest = outs.drop_first();
        assert forall|i: int| 0 <= i < n - 2 implies rest[i] == Ok::<Result<bool>, P>(Ok(true)) by {
            assert(rest[i] == outs[i + 1]);
        }
        assert(rest[n - 2] == outs[n - 1]);
        assert(outs[0] == Ok::<Result<bool>, P>(Ok(true)));
        lemma_stop_after_n(rest, (n - 1) as nat);
    }
}

/// A closure that panics on the `k + 1`-th item, after going on for the
/// first `k`, sees exactly `k + 1` items: its panic aborts the enumeration at
/// once, and the guard holds the payload to be resumed when the native call
/// has returned.
pub proof fn lemma_panic_aborts<P>(outs: Seq<core::result::Result<Result<bool>, P>>, k: nat, p: P)
    requires
        k < outs.len(),
        forall|i: int| 0 <= i < k ==> outs[i] == Ok::<Result<bool>, P>(Ok(true)),
        outs[k as int] == Err::<Result<bool>, P>(p),
    ensures
        bridge_run(None, Ok(()), outs) == (k + 1, Some(p), Ok::<(), Error>(())),
    decreases k,
{
    if k > 0 {
        let rest = outs.drop_first();
        assert forall|i: int| 0 <= i < k - 1 implies rest[i] == Ok::<Result<bool>, P>(Ok(true)) by {
            assert(rest[i] == outs[i + 1]);
        }
        assert(rest[k - 1] == outs[k as int]);
        assert(outs[0] == Ok::<Result<bool>, P>(Ok(true)));
        lemma_panic_aborts(rest, (k - 1) as nat, p);
    }
}

/// While a payload is held, a callback runs nothing: it asks for an abort
/// and keeps the first payload and the result as they were.
pub proof fn lemma_pending_payload_aborts<T, P>(
    p: P,
    result: Result<T>,
    o: core::result::Result<Result<bool>, P>,
)
    ensures
        bridge_step(Some(p), result, o) == (DWARF_CB_ABORT, Some(p), result),
{
}

} // verus!
