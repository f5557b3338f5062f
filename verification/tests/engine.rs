//! Exercises the operation registry and the wait/back-pressure protocol on
//! concrete sequences of events.

use aluring::protocol::{RetryDecision, SlotRequest, WaitFor};
use aluring::registry::{OperationStatus, UringState};
use aluring::sqe::{FsyncData, ReadData, UringOperationKind, WriteData};
use aluring::buf::UringBuf;
use aluring::{Error, InternalReason};

fn fsync_kind(fd: i32) -> UringOperationKind {
    UringOperationKind::Fsync(FsyncData { fd })
}

#[test]
fn identities_count_up_from_one() {
    let mut s = UringState::new(8);
    assert_eq!(s.prepare_op(fsync_kind(3)), 1);
    assert_eq!(s.prepare_op(fsync_kind(3)), 2);
    assert_eq!(s.prepare_op(fsync_kind(4)), 3);
    assert_eq!(s.map.len(), 3);
    assert_eq!(s.submitted_count, 0);
}

#[test]
fn correlation_in_arbitrary_order() {
    // Three operations completed in an order unlike submission order: each
    // wait still receives its own result and its own descriptor.
    let mut s = UringState::new(8);
    let a = s.prepare_op(fsync_kind(10));
    let b = s.prepare_op(fsync_kind(20));
    let c = s.prepare_op(fsync_kind(30));
    s.note_submitted(3);

    assert_eq!(s.complete(c, 33), Ok(c));
    assert_eq!(s.complete(a, 11), Ok(a));
    assert_eq!(s.complete(b, 22), Ok(b));

    let (res_b, kind_b) = s.take_completed(b).unwrap();
    assert_eq!(res_b, 22);
    assert!(matches!(kind_b, UringOperationKind::Fsync(FsyncData { fd: 20 })));

    let (res_a, kind_a) = s.take_completed(a).unwrap();
    assert_eq!(res_a, 11);
    assert!(matches!(kind_a, UringOperationKind::Fsync(FsyncData { fd: 10 })));

    let (res_c, kind_c) = s.take_completed(c).unwrap();
    assert_eq!(res_c, 33);
    assert!(matches!(kind_c, UringOperationKind::Fsync(FsyncData { fd: 30 })));

    assert_eq!(s.map.len(), 0);
}

#[test]
fn absorb_and_retain() {
    // Waiting on b while a's completion arrives first: a's result is
    // absorbed into the registry and b's wait ends on b's own identity;
    // a's later wait still succeeds with a's result.
    let mut s = UringState::new(8);
    let a = s.prepare_op(UringOperationKind::Write(WriteData {
        fd: 5,
        buf: UringBuf::Owned(vec![1, 2, 3]),
        offset: 0,
    }));
    let b = s.prepare_op(fsync_kind(5));
    s.note_submitted(2);

    let w = WaitFor::new(b);
    let first = s.complete(a, 3).unwrap();
    assert!(!w.on_drained(first));
    let second = s.complete(b, 0).unwrap();
    assert!(w.on_drained(second));

    let (res_b, _) = s.take_completed(b).unwrap();
    assert_eq!(res_b, 0);

    assert!(s.observed(a));
    let (res_a, kind_a) = s.take_completed(a).unwrap();
    assert_eq!(res_a, 3);
    match kind_a {
        UringOperationKind::Write(d) => assert_eq!(d.buf.as_slice(), &[1, 2, 3]),
        _ => panic!("descriptor of another operation delivered"),
    }
}

#[test]
fn cancellation_discard() {
    // Abandoning the handle before waiting: the completion that arrives
    // later raises no error and the entry (buffer and all) is discarded.
    let mut s = UringState::new(8);
    let a = s.prepare_op(UringOperationKind::Read(ReadData {
        fd: 7,
        buf: UringBuf::Owned(vec![0; 64]),
        offset: 0,
    }));
    s.note_submitted(1);

    s.abandon(a);
    assert_eq!(s.map.len(), 1);
    assert!(!s.observed(a));

    assert_eq!(s.complete(a, 64), Ok(a));
    assert_eq!(s.map.len(), 0);
    assert_eq!(s.submitted_count, 0);
}

#[test]
fn abandon_after_completion_discards() {
    let mut s = UringState::new(8);
    let a = s.prepare_op(fsync_kind(1));
    s.note_submitted(1);
    assert_eq!(s.complete(a, 0), Ok(a));
    assert!(s.observed(a));
    s.abandon(a);
    assert_eq!(s.map.len(), 0);
}

#[test]
fn unknown_completion_is_internal_error() {
    let mut s = UringState::new(8);
    let a = s.prepare_op(fsync_kind(1));
    s.note_submitted(1);
    let other = a + 1;
    assert_eq!(
        s.complete(other, 0),
        Err(Error::InternalError(InternalReason::UnknownCompletion(other)))
    );
    // The bad report still consumed one outstanding completion.
    assert_eq!(s.submitted_count, 0);
    assert_eq!(s.map.len(), 1);
}

#[test]
fn take_before_completion_is_internal_error() {
    let mut s = UringState::new(8);
    let a = s.prepare_op(fsync_kind(1));
    assert_eq!(
        s.take_completed(a),
        Err(Error::InternalError(InternalReason::NotCompleted(a)))
    );
    assert_eq!(s.map.len(), 1);
}

#[test]
fn observed_flips_only_on_completion() {
    let mut s = UringState::new(8);
    let a = s.prepare_op(fsync_kind(1));
    assert!(!s.observed(a));
    assert!(!s.observed(a + 1));
    s.note_submitted(1);
    s.complete(a, 0).unwrap();
    assert!(s.observed(a));
}

#[test]
fn teardown_waits_for_outstanding() {
    // The ring may be released only once every outstanding completion has
    // been drained.
    let mut s = UringState::new(8);
    let a = s.prepare_op(fsync_kind(1));
    let b = s.prepare_op(fsync_kind(2));
    s.note_submitted(2);
    assert!(!s.may_release());
    s.complete(a, 0).unwrap();
    assert!(!s.may_release());
    s.complete(b, 0).unwrap();
    assert!(s.may_release());
}

#[test]
fn barrier_batch_tracks_every_submission() {
    // A batch of four writes and one drain-flagged fdatasync: all five are
    // registered and counted, and each delivers its own result.
    let mut s = UringState::new(8);
    let mut writes = Vec::new();
    for i in 0..4u64 {
        let id = s.prepare_op(UringOperationKind::Write(WriteData {
            fd: 3,
            buf: UringBuf::Owned(vec![0; 4096]),
            offset: i * 4096,
        }));
        writes.push(id);
    }
    let sync = s.prepare_op(UringOperationKind::Fdatasync(
        aluring::sqe::FdatasyncData { fd: 3 },
    ));
    s.note_submitted(5);
    assert_eq!(s.submitted_count, 5);

    for &id in &writes {
        s.complete(id, 4096).unwrap();
    }
    s.complete(sync, 0).unwrap();
    assert!(s.may_release());

    let (res, kind) = s.take_completed(sync).unwrap();
    assert_eq!(res, 0);
    assert!(matches!(kind, UringOperationKind::Fdatasync(_)));
    for &id in &writes {
        assert!(s.observed(id));
        let (res, kind) = s.take_completed(id).unwrap();
        assert_eq!(res, 4096);
        assert!(matches!(kind, UringOperationKind::Write(_)));
    }
}

#[test]
fn backpressure_flushes_before_failing() {
    // A full submission queue first triggers an implicit flush; only a
    // second failure surfaces an error.
    let mut req = SlotRequest::new();
    assert_eq!(req.on_full(), RetryDecision::FlushAndRetry);
    assert_eq!(req.on_full(), RetryDecision::GiveUp);
    assert_eq!(req.failure(), Error::GetSqeError);
}

#[test]
fn wait_spends_one_implicit_flush() {
    let mut w = WaitFor::new(9);
    assert!(!w.on_drained(7));
    assert!(w.on_drained(9));
    assert_eq!(w.on_idle(), RetryDecision::FlushAndRetry);
    assert_eq!(w.on_idle(), RetryDecision::GiveUp);
    assert_eq!(
        w.failure(),
        Error::InternalError(InternalReason::NotFound(9))
    );
}

#[test]
fn completed_status_carries_the_code() {
    let mut s = UringState::new(4);
    let a = s.prepare_op(fsync_kind(1));
    s.note_submitted(1);
    s.complete(a, -11).unwrap();
    let entry = s.map.get(&a).unwrap();
    assert_eq!(entry.status, OperationStatus::Completed(-11));
}
