//! Decision rules that drive the ring: what a wait does with each drained
//! completion, when an implicit flush is owed, when giving up is allowed, and
//! how raw return codes of the ring collaborator's primitives are classified.
//!
//! The ring's own primitives (acquire a slot, flush, block for a completion)
//! live outside this crate; the loops around them feed every event through
//! these functions, so the engine's choices are all made here.

use vstd::prelude::*;

use crate::Error;
use crate::InternalReason;

verus! {

/// What to do after an attempt found nothing: flush the prepared slots and
/// try once more, or give up.
#[derive(Debug, Clone, Copy, PartialEq, Eq, Structural)]
pub enum RetryDecision {
    /// Flush all prepared slots to the kernel, then retry.
    FlushAndRetry,
    /// A flush was already tried; surface the failure.
    GiveUp,
}

/// The wait protocol for one target identity: drain completions, absorbing
/// those of other operations, until the target's own completion is observed.
///
/// If draining runs dry (nothing outstanding) before the target is found, the
/// target may still be sitting in a prepared-but-unsent slot: exactly one
/// implicit flush is owed, and draining resumes. Running dry a second time
/// means the target cannot complete, which no legal call sequence can bring
/// about: a handle exists only for a successfully prepared operation.
pub struct WaitFor {
    /// The identity this wait is for.
    pub target: u64,
    /// Whether the one implicit flush has been spent.
    pub flushed: bool,
}

impl WaitFor {
    /// Starts a wait for the given identity.
    pub fn new(target: u64) -> (w: WaitFor)
        ensures
            w.target == target,
            !w.flushed,
    {
        WaitFor { target, flushed: false }
    }

    /// Decides whether a drained completion ends this wait: it does exactly
    /// when it carries the target identity. A completion of any other
    /// operation never ends the wait (it has already been absorbed into the
    /// registry by then).
    pub fn on_drained(&self, drained: u64) -> (done: bool)
        ensures
            done == (drained == self.target),
    {
        drained == self.target
    }

    /// Decides what to do when nothing is outstanding and the target has not
    /// been observed: the first time, spend the one implicit flush and
    /// retry; after that, give up — the target's absence is an
    /// internal-consistency failure, reported by [`WaitFor::failure`].
    pub fn on_idle(&mut self) -> (d: RetryDecision)
        ensures
            final(self).target == old(self).target,
            final(self).flushed,
            !old(self).flushed ==> d == RetryDecision::FlushAndRetry,
            old(self).flushed ==> d == RetryDecision::GiveUp,
    {
        if self.flushed {
            RetryDecision::GiveUp
        } else {
            self.flushed = true;
            RetryDecision::FlushAndRetry
        }
    }

    /// The error a wait surfaces when it gives up: the target identity was
    /// not found among all completions the ring could yield.
    pub fn failure(&self) -> (e: Error)
        ensures
            e == Error::InternalError(InternalReason::NotFound(self.target)),
    {
        Error::InternalError(InternalReason::NotFound(self.target))
    }
}

/// The back-pressure rule for acquiring a submission slot: if no slot is
/// free, everything already prepared is flushed to the kernel first and the
/// acquisition is retried exactly once; only if the ring is still full does
/// the caller see a failure. The caller thus never observes "no slot" without
/// the prepared batch having been drained.
pub struct SlotRequest {
    /// Whether the one implicit flush has been spent.
    pub flushed: bool,
}

impl SlotRequest {
    /// Starts one slot acquisition.
    pub fn new() -> (r: SlotRequest)
        ensures
            !r.flushed,
    {
        SlotRequest { flushed: false }
    }

    /// Decides what to do when the ring has no free slot: the first time,
    /// flush and retry; after that, give up — the failure to surface is
    /// [`SlotRequest::failure`].
    pub fn on_full(&mut self) -> (d: RetryDecision)
        ensures
            final(self).flushed,
            !old(self).flushed ==> d == RetryDecision::FlushAndRetry,
            old(self).flushed ==> d == RetryDecision::GiveUp,
    {
        if self.flushed {
            RetryDecision::GiveUp
        } else {
            self.flushed = true;
            RetryDecision::FlushAndRetry
        }
    }

    /// The error surfaced when no slot is free even after the implicit
    /// flush.
    pub fn failure(&self) -> (e: Error)
        ensures
            e == Error::GetSqeError,
    {
        Error::GetSqeError
    }
}

/// What one flush attempt came to, given the collaborator's raw return code.
#[derive(Debug, Clone, Copy, PartialEq, Eq, Structural)]
pub enum SubmitStep {
    /// The kernel accepted this many slots.
    Accepted(usize),
    /// The kernel was transiently busy; the flush is retried invisibly.
    RetryBusy,
    /// The kernel rejected the flush for good; carries the error to surface.
    Rejected(Error),
}

/// Classifies the raw return code of the collaborator's flush primitive: a
/// non-negative code is the number of slots the kernel accepted, the negated
/// busy code asks for a retry, and any other negative code is fatal to the
/// flush. `busy` is the positive OS code for the transient busy condition.
pub fn classify_submit(ret: i32, busy: i32) -> (s: SubmitStep)
    requires
        ret > i32::MIN,
        busy > 0,
    ensures
        ret >= 0 ==> s == SubmitStep::Accepted(ret as usize),
        ret < 0 && ret == -busy ==> s == SubmitStep::RetryBusy,
        ret < 0 && ret != -busy ==> s == SubmitStep::Rejected(Error::SubmitError((-ret) as i32)),
{
    if ret >= 0 {
        SubmitStep::Accepted(ret as usize)
    } else if ret == -busy {
        SubmitStep::RetryBusy
    } else {
        SubmitStep::Rejected(Error::SubmitError((-ret) as i32))
    }
}

/// Classifies the raw return code of the collaborator's ring construction:
/// zero means the ring of the requested queue depth exists, a negative code
/// is the OS rejecting that depth, reported together with the depth asked
/// for.
pub fn classify_init(ret: i32, entries: usize) -> (r: Result<(), Error>)
    requires
        ret > i32::MIN,
    ensures
        ret >= 0 ==> r == Ok::<(), Error>(()),
        ret < 0 ==> r == Err::<(), Error>(Error::InitError((-ret) as i32, entries)),
{
    if ret >= 0 {
        Ok(())
    } else {
        Err(Error::InitError((-ret) as i32, entries))
    }
}

/// Classifies the raw return code of the collaborator's blocking wait for a
/// completion: zero means one completion is ready to be consumed, anything
/// else is fatal to this wait call.
pub fn classify_wait_cqe(ret: i32) -> (r: Result<(), Error>)
    requires
        ret > i32::MIN,
    ensures
        ret == 0 ==> r == Ok::<(), Error>(()),
        ret != 0 ==> r == Err::<(), Error>(Error::WaitCqeError((-ret) as i32)),
{
    if ret == 0 {
        Ok(())
    } else {
        Err(Error::WaitCqeError((-ret) as i32))
    }
}

} // verus!
