//! The engine-wide guarantees, stated over the registry's transition
//! functions and proved once and for all: a wait delivers its own
//! operation's result and nobody else's, completions absorbed on the way are
//! retained, and an abandoned operation's completion is discarded cleanly.

use vstd::prelude::*;

use crate::registry::{reg_abandon, reg_complete, OperationStatus, UringOperation};

verus! {

/// Whether every event in a completion sequence names a distinct identity.
/// The ring delivers at most one completion per submitted slot, and
/// identities are never reused, so every completion stream the engine can
/// observe has this shape.
pub open spec fn distinct_event_ids(events: Seq<(u64, i32)>) -> bool {
    forall|i: int, j: int|
        0 <= i < j < events.len() ==> #[trigger] events[i].0 != #[trigger] events[j].0
}

/// Whether every event's identity is registered as ongoing.
pub open spec fn all_ongoing(m: Map<u64, UringOperation>, events: Seq<(u64, i32)>) -> bool {
    forall|i: int|
        0 <= i < events.len() ==> m.contains_key(#[trigger] events[i].0)
            && m[events[i].0].status is Ongoing
}

/// The registry after the ring reports the given completions, in order.
pub open spec fn reg_complete_all(
    m: Map<u64, UringOperation>,
    events: Seq<(u64, i32)>,
) -> Map<u64, UringOperation>
    decreases events.len(),
{
    if events.len() == 0 {
        m
    } else {
        reg_complete_all(reg_complete(m, events[0].0, events[0].1), events.drop_first())
    }
}

/// A completion stream leaves every identity it does not name exactly as it
/// was: absorbing other operations' completions neither drops nor alters an
/// unrelated entry.
pub proof fn lemma_complete_all_frame(
    m: Map<u64, UringOperation>,
    events: Seq<(u64, i32)>,
    id: u64,
)
    requires
        forall|i: int| 0 <= i < events.len() ==> #[trigger] events[i].0 != id,
    ensures
        reg_complete_all(m, events).contains_key(id) == m.contains_key(id),
        m.contains_key(id) ==> reg_complete_all(m, events)[id] == m[id],
    decreases events.len(),
{
    if events.len() > 0 {
        let m1 = reg_complete(m, events[0].0, events[0].1);
        assert(m1.contains_key(id) == m.contains_key(id));
        assert(m.contains_key(id) ==> m1[id] == m[id]);
        lemma_complete_all_frame(m1, events.drop_first(), id);
    }
}

/// Correlation integrity: for any sequence of completions for distinct,
/// ongoing operations, arriving in any order, the registry afterwards shows
/// each operation completed with exactly its own result code and its own
/// original descriptor — never another's. A wait that then takes the entry
/// for its identity receives precisely that pair.
pub proof fn lemma_correlation_integrity(
    m: Map<u64, UringOperation>,
    events: Seq<(u64, i32)>,
    k: int,
)
    requires
        distinct_event_ids(events),
        all_ongoing(m, events),
        0 <= k < events.len(),
    ensures
        reg_complete_all(m, events).contains_key(events[k].0),
        reg_complete_all(m, events)[events[k].0] == (UringOperation {
            status: OperationStatus::Completed(events[k].1),
            kind: m[events[k].0].kind,
        }),
    decreases events.len(),
{
    let id0 = events[0].0;
    let m1 = reg_complete(m, id0, events[0].1);
    let rest = events.drop_first();
    if k == 0 {
        assert(m1[id0] == (UringOperation {
            status: OperationStatus::Completed(events[0].1),
            kind: m[id0].kind,
        }));
        assert(forall|i: int| 0 <= i < rest.len() ==> #[trigger] rest[i].0 != id0);
        lemma_complete_all_frame(m1, rest, id0);
    } else {
        assert(all_ongoing(m1, rest)) by {
            assert(forall|i: int|
                0 <= i < rest.len() ==> #[trigger] rest[i].0 != id0 && rest[i] == events[i + 1]);
        }
        lemma_correlation_integrity(m1, rest, k - 1);
        assert(rest[k - 1] == events[k]);
        assert(m1[events[k].0].kind == m[events[k].0].kind);
    }
}

/// Absorb and retain: while a wait on one operation drains the ring, the
/// completion of a different operation that arrives first is recorded in the
/// registry, and even after the first wait takes its own entry out, the
/// other operation's entry still shows its own result and descriptor, ready
/// for its own later wait.
pub proof fn lemma_absorb_and_retain(
    m: Map<u64, UringOperation>,
    waited: u64,
    other: u64,
    other_res: i32,
)
    requires
        waited != other,
        m.contains_key(other),
        m[other].status is Ongoing,
    ensures
        reg_complete(m, other, other_res).remove(waited).contains_key(other),
        reg_complete(m, other, other_res).remove(waited)[other] == (UringOperation {
            status: OperationStatus::Completed(other_res),
            kind: m[other].kind,
        }),
{
}

/// Cancellation discard: when a handle is abandoned before its operation
/// completes, the later arrival of that completion raises no error (the
/// identity is still registered), and discards the entry — descriptor, owned
/// buffer and all — leaving the registry exactly as if the operation had
/// been taken out, with every other entry untouched.
pub proof fn lemma_cancellation_discard(m: Map<u64, UringOperation>, id: u64, res: i32)
    requires
        m.contains_key(id),
        !(m[id].status is Completed),
    ensures
        reg_abandon(m, id).contains_key(id),
        reg_complete(reg_abandon(m, id), id, res) == m.remove(id),
{
    assert(reg_complete(reg_abandon(m, id), id, res) =~= m.remove(id));
}

} // verus!
