//! The operation registry: the exclusively-owned map from operation identity
//! to current status and original descriptor, together with the identity
//! generator and the count of slots submitted to the kernel but not yet
//! reaped.
//!
//! Every registry entry is created by [`UringState::prepare_op`], mutated only
//! by [`UringState::complete`] (when the ring reports a completion) and
//! [`UringState::abandon`] (when a caller drops its handle before waiting),
//! and destroyed either by [`UringState::take_completed`] (delivery to the
//! caller) or by [`UringState::complete`] observing a cancelled entry
//! (discard). No other mutation path exists.

use vstd::prelude::*;

use std::collections::HashMap;

use crate::sqe::UringOperationKind;
use crate::{Error, InternalReason};

verus! {

broadcast use vstd::std_specs::hash::group_hash_axioms;

/// Where an operation stands in its lifecycle.
#[derive(Debug, Clone, Copy, PartialEq, Eq, Structural)]
pub enum OperationStatus {
    /// Pending or submitted; not yet observed in the completion stream.
    Ongoing,
    /// Observed in the completion stream, with the raw signed result code
    /// (negative: an OS error code; non-negative: a kind-dependent success
    /// value).
    Completed(i32),
    /// The caller abandoned interest before completion; the entry is retained
    /// only until the kernel-side completion arrives, then discarded.
    Cancelled,
}

/// One registry entry: the status of an operation plus the canonical record
/// of what was requested.
#[derive(Debug)]
pub struct UringOperation {
    pub status: OperationStatus,
    pub kind: UringOperationKind,
}

/// Internal state of the ring engine: identity generator, registry map, and
/// count of slots submitted to the kernel but not yet completed.
pub struct UringState {
    /// Last identity handed out; identities count up from 1 and are never
    /// reused. Zero is reserved and invalid.
    pub id_gen: u64,
    /// Keeps track of ongoing, completed and cancelled operations.
    pub map: HashMap<u64, UringOperation>,
    /// Slots flushed to the kernel whose completions have not been reaped.
    pub submitted_count: usize,
}

/// The registry after an operation with the given identity and descriptor is
/// prepared.
pub open spec fn reg_prepare(
    m: Map<u64, UringOperation>,
    id: u64,
    kind: UringOperationKind,
) -> Map<u64, UringOperation> {
    m.insert(id, UringOperation { status: OperationStatus::Ongoing, kind })
}

/// The registry after the ring reports a completion with the given identity
/// and raw result code: an unknown identity changes nothing (and is an
/// internal error), a cancelled entry is discarded, and any other entry
/// transitions to `Completed`.
pub open spec fn reg_complete(
    m: Map<u64, UringOperation>,
    id: u64,
    res: i32,
) -> Map<u64, UringOperation> {
    if !m.contains_key(id) {
        m
    } else if m[id].status is Cancelled {
        m.remove(id)
    } else {
        m.insert(id, UringOperation { status: OperationStatus::Completed(res), kind: m[id].kind })
    }
}

/// The registry after a caller abandons the operation with the given
/// identity: an already-completed entry is discarded outright, any other
/// present entry is marked cancelled so its eventual completion will be
/// discarded, and an absent identity changes nothing.
pub open spec fn reg_abandon(m: Map<u64, UringOperation>, id: u64) -> Map<u64, UringOperation> {
    if !m.contains_key(id) {
        m
    } else if m[id].status is Completed {
        m.remove(id)
    } else {
        m.insert(id, UringOperation { status: OperationStatus::Cancelled, kind: m[id].kind })
    }
}

impl UringState {
    /// Every identity in the registry was handed out by the generator: it
    /// lies between 1 and `id_gen`. This is what makes the next identity
    /// fresh.
    pub open spec fn wf(&self) -> bool {
        forall|id: u64| #[trigger] self.map@.contains_key(id) ==> 1 <= id <= self.id_gen
    }

    /// Creates an empty registry sized for a ring of the given queue depth.
    pub fn new(entries: usize) -> (s: UringState)
        ensures
            s.map@ == Map::<u64, UringOperation>::empty(),
            s.id_gen == 0,
            s.submitted_count == 0,
            s.wf(),
    {
        UringState { id_gen: 0, map: HashMap::with_capacity(entries), submitted_count: 0 }
    }

    /// Assigns a fresh identity to a newly prepared operation and records it
    /// as `Ongoing` with its descriptor. The identity is never zero and was
    /// never handed out before.
    pub fn prepare_op(&mut self, kind: UringOperationKind) -> (id: u64)
        requires
            old(self).wf(),
            old(self).id_gen < u64::MAX,
        ensures
            final(self).wf(),
            id == old(self).id_gen + 1 && id != 0,
            !old(self).map@.contains_key(id),
            final(self).map@ == reg_prepare(old(self).map@, id, kind),
            final(self).id_gen == id,
            final(self).submitted_count == old(self).submitted_count,
    {
        self.id_gen = self.id_gen + 1;
        let id = self.id_gen;
        self.map.insert(id, UringOperation { status: OperationStatus::Ongoing, kind });
        id
    }

    /// Notes that the kernel accepted `n` more slots whose completions are
    /// now owed.
    pub fn note_submitted(&mut self, n: usize)
        requires
            old(self).submitted_count + n <= usize::MAX,
        ensures
            final(self).map@ == old(self).map@,
            final(self).id_gen == old(self).id_gen,
            final(self).submitted_count == old(self).submitted_count + n,
    {
        self.submitted_count = self.submitted_count + n;
    }

    /// Drives the registry's transition for one completion observed in the
    /// ring: the outstanding count drops by one; an identity absent from the
    /// registry is an internal-consistency failure (the registry is the
    /// source of truth for every identity the kernel could report); a
    /// cancelled entry is discarded without decoding; any other entry
    /// transitions to `Completed` with the raw result code.
    pub fn complete(&mut self, id: u64, res: i32) -> (r: Result<u64, Error>)
        requires
            old(self).wf(),
            old(self).submitted_count >= 1,
            id != 0,
        ensures
            final(self).wf(),
            final(self).submitted_count == old(self).submitted_count - 1,
            final(self).id_gen == old(self).id_gen,
            final(self).map@ == reg_complete(old(self).map@, id, res),
            old(self).map@.contains_key(id) ==> r == Ok::<u64, Error>(id),
            !old(self).map@.contains_key(id) ==> r == Err::<u64, Error>(
                Error::InternalError(InternalReason::UnknownCompletion(id)),
            ),
    {
        self.submitted_count = self.submitted_count - 1;
        let cancelled = match self.map.get(&id) {
            None => {
                return Err(Error::InternalError(InternalReason::UnknownCompletion(id)));
            },
            Some(op) => match op.status {
                OperationStatus::Cancelled => true,
                _ => false,
            },
        };
        if cancelled {
            self.map.remove(&id);
        } else {
            let op = self.map.remove(&id).unwrap();
            self.map.insert(id, UringOperation { status: OperationStatus::Completed(res), kind: op.kind });
            proof {
                assert(self.map@ =~= reg_complete(old(self).map@, id, res));
            }
        }
        Ok(id)
    }

    /// Reports whether the registry currently shows this identity as
    /// completed, without blocking and without consuming anything.
    pub fn observed(&self, id: u64) -> (b: bool)
        ensures
            b == (self.map@.contains_key(id) && self.map@[id].status is Completed),
    {
        match self.map.get(&id) {
            Some(op) => match op.status {
                OperationStatus::Completed(_) => true,
                _ => false,
            },
            None => false,
        }
    }

    /// Delivers a completed operation to its caller: removes the entry and
    /// hands back the raw result code with the original descriptor. If the
    /// entry is not present and completed — which no legal call sequence can
    /// bring about — nothing changes and an internal error is returned.
    pub fn take_completed(&mut self, id: u64) -> (r: Result<(i32, UringOperationKind), Error>)
        requires
            old(self).wf(),
        ensures
            final(self).wf(),
            final(self).id_gen == old(self).id_gen,
            final(self).submitted_count == old(self).submitted_count,
            (old(self).map@.contains_key(id) && old(self).map@[id].status is Completed) ==> {
                &&& r == Ok::<(i32, UringOperationKind), Error>(
                    (old(self).map@[id].status->0, old(self).map@[id].kind),
                )
                &&& final(self).map@ == old(self).map@.remove(id)
            },
            !(old(self).map@.contains_key(id) && old(self).map@[id].status is Completed) ==> {
                &&& r == Err::<(i32, UringOperationKind), Error>(
                    Error::InternalError(InternalReason::NotCompleted(id)),
                )
                &&& final(self).map@ == old(self).map@
            },
    {
        let completed = match self.map.get(&id) {
            Some(op) => match op.status {
                OperationStatus::Completed(_) => true,
                _ => false,
            },
            None => false,
        };
        if completed {
            let op = self.map.remove(&id).unwrap();
            match op.status {
                OperationStatus::Completed(res) => Ok((res, op.kind)),
                _ => Err(Error::InternalError(InternalReason::NotCompleted(id))),
            }
        } else {
            Err(Error::InternalError(InternalReason::NotCompleted(id)))
        }
    }

    /// Marks that the caller holding the handle for this identity abandoned
    /// interest: a completed entry is discarded, any other present entry is
    /// marked cancelled, an absent identity changes nothing.
    pub fn abandon(&mut self, id: u64)
        requires
            old(self).wf(),
        ensures
            final(self).wf(),
            final(self).id_gen == old(self).id_gen,
            final(self).submitted_count == old(self).submitted_count,
            final(self).map@ == reg_abandon(old(self).map@, id),
    {
        let completed = match self.map.get(&id) {
            Some(op) => match op.status {
                OperationStatus::Completed(_) => true,
                _ => false,
            },
            None => {
                return ;
            },
        };
        if completed {
            self.map.remove(&id);
        } else {
            let op = self.map.remove(&id).unwrap();
            self.map.insert(id, UringOperation { status: OperationStatus::Cancelled, kind: op.kind });
            proof {
                assert(self.map@ =~= reg_abandon(old(self).map@, id));
            }
        }
    }

    /// Whether nothing submitted is still awaiting its completion. While
    /// this holds a drain has nothing to reap and returns a no-op rather
    /// than blocking; and only once it holds may teardown release the ring,
    /// so teardown drains until it does.
    pub fn may_release(&self) -> (b: bool)
        ensures
            b == (self.submitted_count == 0),
    {
        self.submitted_count == 0
    }
}

} // verus!
