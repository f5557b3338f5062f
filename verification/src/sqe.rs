//! Operation descriptors: the per-kind payload of a submission, plus the
//! per-submission flags.

use vstd::prelude::*;

use crate::buf::UringBuf;

verus! {

/// Per-submission flags, an independent combinable set. Each maps to one
/// submission-queue flag of the kernel ring; the mapping to the kernel's bit
/// encoding happens where the slot is encoded, outside this crate.
#[derive(Debug, Clone, Copy, PartialEq, Eq, Structural)]
pub struct SqeFlags {
    /// Ordering barrier: the operation starts only after all previously
    /// submitted operations complete.
    pub drain: bool,
    /// Link to the next submission.
    pub link: bool,
    /// Hard link to the next submission.
    pub hard_link: bool,
    /// Suppress the completion record when the operation succeeds.
    pub skip_cqe_on_success: bool,
}

impl SqeFlags {
    /// No flag set.
    pub open spec fn spec_empty() -> SqeFlags {
        SqeFlags { drain: false, link: false, hard_link: false, skip_cqe_on_success: false }
    }

    /// No flag set.
    #[verifier::when_used_as_spec(spec_empty)]
    pub fn empty() -> (f: SqeFlags)
        ensures
            f == SqeFlags::spec_empty(),
    {
        SqeFlags { drain: false, link: false, hard_link: false, skip_cqe_on_success: false }
    }
}

/// One submission: an operation payload plus its flags.
pub struct Sqe<T> {
    pub flags: SqeFlags,
    pub data: T,
}

/// Marker for the payload types a submission can carry.
pub trait UringData {

}

/// Input for an asynchronous positional read.
#[derive(Debug, PartialEq, Eq)]
pub struct ReadData {
    pub fd: i32,
    pub buf: UringBuf,
    pub offset: u64,
}

impl UringData for ReadData {

}

/// Input for an asynchronous positional write.
#[derive(Debug, PartialEq, Eq)]
pub struct WriteData {
    pub fd: i32,
    pub buf: UringBuf,
    pub offset: u64,
}

impl UringData for WriteData {

}

/// Input for an asynchronous file sync.
#[derive(Debug, PartialEq, Eq)]
pub struct FsyncData {
    pub fd: i32,
}

impl UringData for FsyncData {

}

/// Input for an asynchronous file data sync.
#[derive(Debug, PartialEq, Eq)]
pub struct FdatasyncData {
    pub fd: i32,
}

impl UringData for FdatasyncData {

}

/// Input for asynchronous memory advice on a buffer.
#[derive(Debug, PartialEq, Eq)]
pub struct MadviseData {
    pub buf: UringBuf,
    pub advise: Madvise,
}

impl UringData for MadviseData {

}

/// The advice given for a memory region. The mapping to the OS advice code
/// happens where the slot is encoded, outside this crate.
#[derive(Debug, Clone, Copy, PartialEq, Eq, Structural)]
pub enum Madvise {
    /// No special treatment.
    Normal,
    /// The region is not expected to be accessed soon.
    DontNeed,
}

/// The canonical record of what one operation requested. It is consumed
/// exactly once: decoded into a typed result on the success path, or
/// discarded on the cancellation path.
#[derive(Debug, PartialEq, Eq)]
pub enum UringOperationKind {
    /// Asynchronous positional read.
    Read(ReadData),
    /// Asynchronous positional write.
    Write(WriteData),
    /// Asynchronous file sync.
    Fsync(FsyncData),
    /// Asynchronous file data sync.
    Fdatasync(FdatasyncData),
    /// Asynchronous memory advice.
    Madvise(MadviseData),
}

impl Sqe<ReadData> {
    /// Creates a submission for an asynchronous read, with no flag set.
    pub fn read(fd: i32, buf: UringBuf, offset: u64) -> (s: Sqe<ReadData>)
        ensures
            s.flags == SqeFlags::empty(),
            s.data == (ReadData { fd, buf, offset }),
    {
        Sqe { flags: SqeFlags::empty(), data: ReadData { fd, buf, offset } }
    }

    /// The descriptor recorded in the registry for a read submission.
    pub fn into_kind(self) -> (k: UringOperationKind)
        ensures
            k == UringOperationKind::Read(self.data),
    {
        UringOperationKind::Read(self.data)
    }
}

impl Sqe<WriteData> {
    /// Creates a submission for an asynchronous write, with no flag set.
    pub fn write(fd: i32, buf: UringBuf, offset: u64) -> (s: Sqe<WriteData>)
        ensures
            s.flags == SqeFlags::empty(),
            s.data == (WriteData { fd, buf, offset }),
    {
        Sqe { flags: SqeFlags::empty(), data: WriteData { fd, buf, offset } }
    }

    /// The descriptor recorded in the registry for a write submission.
    pub fn into_kind(self) -> (k: UringOperationKind)
        ensures
            k == UringOperationKind::Write(self.data),
    {
        UringOperationKind::Write(self.data)
    }
}

impl Sqe<MadviseData> {
    /// Creates a submission for asynchronous memory advice, with no flag set.
    pub fn madvise(buf: UringBuf, advise: Madvise) -> (s: Sqe<MadviseData>)
        ensures
            s.flags == SqeFlags::empty(),
            s.data == (MadviseData { buf, advise }),
    {
        Sqe { flags: SqeFlags::empty(), data: MadviseData { buf, advise } }
    }

    /// The descriptor recorded in the registry for a madvise submission.
    pub fn into_kind(self) -> (k: UringOperationKind)
        ensures
            k == UringOperationKind::Madvise(self.data),
    {
        UringOperationKind::Madvise(self.data)
    }
}

impl Sqe<FsyncData> {
    /// Creates a submission for an asynchronous file sync, with no flag set.
    pub fn fsync(fd: i32) -> (s: Sqe<FsyncData>)
        ensures
            s.flags == SqeFlags::empty(),
            s.data == (FsyncData { fd }),
    {
        Sqe { flags: SqeFlags::empty(), data: FsyncData { fd } }
    }

    /// The descriptor recorded in the registry for a file-sync submission.
    pub fn into_kind(self) -> (k: UringOperationKind)
        ensures
            k == UringOperationKind::Fsync(self.data),
    {
        UringOperationKind::Fsync(self.data)
    }
}

impl Sqe<FdatasyncData> {
    /// Creates a submission for an asynchronous file data sync, with no flag
    /// set.
    pub fn fdatasync(fd: i32) -> (s: Sqe<FdatasyncData>)
        ensures
            s.flags == SqeFlags::empty(),
            s.data == (FdatasyncData { fd }),
    {
        Sqe { flags: SqeFlags::empty(), data: FdatasyncData { fd } }
    }

    /// The descriptor recorded in the registry for a file-data-sync
    /// submission.
    pub fn into_kind(self) -> (k: UringOperationKind)
        ensures
            k == UringOperationKind::Fdatasync(self.data),
    {
        UringOperationKind::Fdatasync(self.data)
    }
}

impl<T: UringData> Sqe<T> {
    /// Creates a submission with the given payload and no flag set.
    pub fn new(data: T) -> (s: Sqe<T>)
        ensures
            s.flags == SqeFlags::empty(),
            s.data == data,
    {
        Sqe { flags: SqeFlags::empty(), data }
    }

    /// Sets the ordering-barrier flag; payload and other flags are kept.
    pub fn drain(self) -> (s: Sqe<T>)
        ensures
            s.data == self.data,
            s.flags == (SqeFlags { drain: true, ..self.flags }),
    {
        Sqe { flags: SqeFlags { drain: true, ..self.flags }, data: self.data }
    }

    /// Sets the link flag; payload and other flags are kept.
    pub fn link(self) -> (s: Sqe<T>)
        ensures
            s.data == self.data,
            s.flags == (SqeFlags { link: true, ..self.flags }),
    {
        Sqe { flags: SqeFlags { link: true, ..self.flags }, data: self.data }
    }

    /// Sets the hard-link flag; payload and other flags are kept.
    pub fn hard_link(self) -> (s: Sqe<T>)
        ensures
            s.data == self.data,
            s.flags == (SqeFlags { hard_link: true, ..self.flags }),
    {
        Sqe { flags: SqeFlags { hard_link: true, ..self.flags }, data: self.data }
    }

    /// Sets the flag that suppresses the completion record on success;
    /// payload and other flags are kept.
    pub fn skip_cqe_on_success(self) -> (s: Sqe<T>)
        ensures
            s.data == self.data,
            s.flags == (SqeFlags { skip_cqe_on_success: true, ..self.flags }),
    {
        Sqe { flags: SqeFlags { skip_cqe_on_success: true, ..self.flags }, data: self.data }
    }
}

} // verus!
