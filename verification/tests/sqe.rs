//! Exercises the submission descriptors, their constructors and flags.

use aluring::buf::UringBuf;
use aluring::sqe::{
    FdatasyncData, FsyncData, Madvise, MadviseData, ReadData, Sqe, SqeFlags, UringOperationKind,
    WriteData,
};

#[test]
fn test_sqe() {
    let _sqe = Sqe::read(0, UringBuf::Owned(vec![]), 0);
    let _sqe = Sqe::write(0, UringBuf::Owned(vec![]), 0);
    let _sqe = Sqe::madvise(UringBuf::Owned(vec![]), Madvise::DontNeed);
    let _sqe = Sqe::fsync(0);
    let _sqe = Sqe::fdatasync(0);
}

#[test]
fn constructors_start_with_no_flags() {
    let s = Sqe::read(3, UringBuf::Owned(vec![0; 4]), 16);
    assert_eq!(s.flags, SqeFlags::empty());
    assert_eq!(s.data.fd, 3);
    assert_eq!(s.data.offset, 16);
    assert_eq!(s.data.buf.len(), 4);

    let s = Sqe::new(FsyncData { fd: 9 });
    assert_eq!(s.flags, SqeFlags::empty());
    assert_eq!(s.data.fd, 9);
}

#[test]
fn drain_sets_only_the_barrier_flag() {
    let s = Sqe::new(FdatasyncData { fd: 1 }).drain();
    assert!(s.flags.drain);
    assert!(!s.flags.link);
    assert!(!s.flags.hard_link);
    assert!(!s.flags.skip_cqe_on_success);
    assert_eq!(s.data.fd, 1);
}

#[test]
fn flags_combine_independently() {
    let s = Sqe::new(WriteData { fd: 2, buf: UringBuf::Owned(vec![1]), offset: 0 })
        .link()
        .skip_cqe_on_success();
    assert!(s.flags.link);
    assert!(s.flags.skip_cqe_on_success);
    assert!(!s.flags.drain);
    assert!(!s.flags.hard_link);

    let s = Sqe::new(FsyncData { fd: 2 }).hard_link().drain();
    assert!(s.flags.hard_link);
    assert!(s.flags.drain);
    assert!(!s.flags.link);
}

#[test]
fn into_kind_carries_the_descriptor() {
    let k = Sqe::read(5, UringBuf::Owned(vec![0; 8]), 32).into_kind();
    match k {
        UringOperationKind::Read(d) => {
            assert_eq!(d.fd, 5);
            assert_eq!(d.offset, 32);
            assert_eq!(d.buf.len(), 8);
        },
        _ => panic!("read descriptor recorded under another kind"),
    }

    let k = Sqe::madvise(
        UringBuf::Raw { addr: 0x2000, len: 64 },
        Madvise::Normal,
    )
    .into_kind();
    match k {
        UringOperationKind::Madvise(MadviseData { buf, advise }) => {
            assert_eq!(buf.len(), 64);
            assert_eq!(advise, Madvise::Normal);
        },
        _ => panic!("madvise descriptor recorded under another kind"),
    }

    let k = Sqe::fdatasync(11).into_kind();
    assert!(matches!(
        k,
        UringOperationKind::Fdatasync(FdatasyncData { fd: 11 })
    ));

    let k = Sqe::write(1, UringBuf::Owned(vec![2, 3]), 0).into_kind();
    assert!(matches!(k, UringOperationKind::Write(_)));

    let k = Sqe::fsync(1).into_kind();
    assert!(matches!(k, UringOperationKind::Fsync(_)));
}
