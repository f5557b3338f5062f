//! Typed results of ring operations: the decoder that converts a raw
//! completion code plus the original descriptor back into a kind-specific
//! outcome.

use vstd::prelude::*;

use crate::buf::UringBuf;
use crate::sqe::UringOperationKind;
use crate::{Error, InternalReason};

verus! {

/// An OS-style error outcome, carrying the raw result code the ring
/// reported: always negative, and its absolute value is the OS error number.
#[derive(Debug, Clone, Copy, PartialEq, Eq, Structural)]
pub struct OsError {
    /// The raw negative result code.
    pub code: i32,
}

/// A value that represents the result of one ring operation.
pub trait IoResult: Sized {
    /// What the operation yields on success.
    type Output;

    /// The typed outcome this result decodes to.
    spec fn spec_io_result(&self) -> Result<Self::Output, OsError>;

    /// The general, kind-tagged form of this result.
    spec fn spec_uring_result(self) -> UringResult;

    /// Converts the raw completion code into the typed outcome: a negative
    /// code is an OS-style error, a non-negative code is the kind-specific
    /// success value.
    fn as_io_result(&self) -> (r: Result<Self::Output, OsError>)
        ensures
            r == self.spec_io_result(),
    ;

    /// Wraps this result into the kind-tagged union of all results.
    fn into_uring_result(self) -> (r: UringResult)
        ensures
            r == self.spec_uring_result(),
    ;
}

/// A result of an operation that owned its [`UringBuf`]: the buffer comes
/// back to the caller whether the operation succeeded or failed, so owned
/// memory is never leaked.
pub trait BufIoResult: IoResult {
    /// The buffer the operation held.
    spec fn spec_buf(self) -> UringBuf;

    /// Hands the operation's buffer back to the caller.
    fn into_buf(self) -> (b: UringBuf)
        ensures
            b == self.spec_buf(),
    ;
}

/// Result of one ring operation, tagged by kind.
#[derive(Debug)]
pub enum UringResult {
    /// Result of an asynchronous read.
    Read(ReadResult),
    /// Result of an asynchronous write.
    Write(WriteResult),
    /// Result of an asynchronous file sync.
    Fsync(FsyncResult),
    /// Result of an asynchronous file data sync.
    Fdatasync(FdatasyncResult),
    /// Result of asynchronous memory advice.
    Madvise(MadviseResult),
}

/// Result of an asynchronous read: the raw code (bytes read, or negative
/// error) and the buffer that was read into.
#[derive(Debug)]
pub struct ReadResult {
    pub buf: UringBuf,
    pub res: i32,
}

/// Result of an asynchronous write: the raw code (bytes written, or negative
/// error) and the buffer that was written from.
#[derive(Debug)]
pub struct WriteResult {
    pub buf: UringBuf,
    pub res: i32,
}

/// Result of an asynchronous file sync: the raw code alone.
#[derive(Debug)]
pub struct FsyncResult {
    pub res: i32,
}

/// Result of an asynchronous file data sync: the raw code alone.
#[derive(Debug)]
pub struct FdatasyncResult {
    pub res: i32,
}

/// Result of asynchronous memory advice: the raw code and the buffer the
/// advice was about.
#[derive(Debug)]
pub struct MadviseResult {
    pub buf: UringBuf,
    pub res: i32,
}

impl ReadResult {
    /// Decodes a completion against a read descriptor: any other descriptor
    /// kind is an internal-consistency failure, since identities tie each
    /// completion to the descriptor it was submitted with.
    pub fn decode(res: i32, kind: UringOperationKind) -> (r: Result<ReadResult, Error>)
        ensures
            kind matches UringOperationKind::Read(d) ==> r == Ok::<ReadResult, Error>(
                (ReadResult { buf: d.buf, res }),
            ),
            !(kind is Read) ==> r == Err::<ReadResult, Error>(
                Error::InternalError(InternalReason::KindMismatch),
            ),
    {
        match kind {
            UringOperationKind::Read(d) => Ok(ReadResult { buf: d.buf, res }),
            _ => Err(Error::InternalError(InternalReason::KindMismatch)),
        }
    }
}

impl IoResult for ReadResult {
    type Output = usize;

    open spec fn spec_io_result(&self) -> Result<usize, OsError> {
        if self.res < 0 {
            Err(OsError { code: self.res })
        } else {
            Ok(self.res as usize)
        }
    }

    open spec fn spec_uring_result(self) -> UringResult {
        UringResult::Read(self)
    }

    fn as_io_result(&self) -> (r: Result<usize, OsError>) {
        if self.res < 0 {
            Err(OsError { code: self.res })
        } else {
            Ok(self.res as usize)
        }
    }

    fn into_uring_result(self) -> (r: UringResult) {
        UringResult::Read(self)
    }
}

impl BufIoResult for ReadResult {
    open spec fn spec_buf(self) -> UringBuf {
        self.buf
    }

    fn into_buf(self) -> (b: UringBuf) {
        self.buf
    }
}

impl WriteResult {
    /// Decodes a completion against a write descriptor; any other descriptor
    /// kind is an internal-consistency failure.
    pub fn decode(res: i32, kind: UringOperationKind) -> (r: Result<WriteResult, Error>)
        ensures
            kind matches UringOperationKind::Write(d) ==> r == Ok::<WriteResult, Error>(
                (WriteResult { buf: d.buf, res }),
            ),
            !(kind is Write) ==> r == Err::<WriteResult, Error>(
                Error::InternalError(InternalReason::KindMismatch),
            ),
    {
        match kind {
            UringOperationKind::Write(d) => Ok(WriteResult { buf: d.buf, res }),
            _ => Err(Error::InternalError(InternalReason::KindMismatch)),
        }
    }
}

impl IoResult for WriteResult {
    type Output = usize;

    open spec fn spec_io_result(&self) -> Result<usize, OsError> {
        if self.res < 0 {
            Err(OsError { code: self.res })
        } else {
            Ok(self.res as usize)
        }
    }

    open spec fn spec_uring_result(self) -> UringResult {
        UringResult::Write(self)
    }

    fn as_io_result(&self) -> (r: Result<usize, OsError>) {
        if self.res < 0 {
            Err(OsError { code: self.res })
        } else {
            Ok(self.res as usize)
        }
    }

    fn into_uring_result(self) -> (r: UringResult) {
        UringResult::Write(self)
    }
}

impl BufIoResult for WriteResult {
    open spec fn spec_buf(self) -> UringBuf {
        self.buf
    }

    fn into_buf(self) -> (b: UringBuf) {
        self.buf
    }
}

impl MadviseResult {
    /// Decodes a completion against a madvise descriptor; any other
    /// descriptor kind is an internal-consistency failure.
    pub fn decode(res: i32, kind: UringOperationKind) -> (r: Result<MadviseResult, Error>)
        ensures
            kind matches UringOperationKind::Madvise(d) ==> r == Ok::<MadviseResult, Error>(
                (MadviseResult { buf: d.buf, res }),
            ),
            !(kind is Madvise) ==> r == Err::<MadviseResult, Error>(
                Error::InternalError(InternalReason::KindMismatch),
            ),
    {
        match kind {
            UringOperationKind::Madvise(d) => Ok(MadviseResult { buf: d.buf, res }),
            _ => Err(Error::InternalError(InternalReason::KindMismatch)),
        }
    }
}

impl IoResult for MadviseResult {
    type Output = usize;

    open spec fn spec_io_result(&self) -> Result<usize, OsError> {
        if self.res < 0 {
            Err(OsError { code: self.res })
        } else {
            Ok(self.res as usize)
        }
    }

    open spec fn spec_uring_result(self) -> UringResult {
        UringResult::Madvise(self)
    }

    fn as_io_result(&self) -> (r: Result<usize, OsError>) {
        if self.res < 0 {
            Err(OsError { code: self.res })
        } else {
            Ok(self.res as usize)
        }
    }

    fn into_uring_result(self) -> (r: UringResult) {
        UringResult::Madvise(self)
    }
}

impl BufIoResult for MadviseResult {
    open spec fn spec_buf(self) -> UringBuf {
        self.buf
    }

    fn into_buf(self) -> (b: UringBuf) {
        self.buf
    }
}

impl FsyncResult {
    /// Decodes a completion against a file-sync descriptor; any other
    /// descriptor kind is an internal-consistency failure.
    pub fn decode(res: i32, kind: UringOperationKind) -> (r: Result<FsyncResult, Error>)
        ensures
            kind is Fsync ==> r == Ok::<FsyncResult, Error>((FsyncResult { res })),
            !(kind is Fsync) ==> r == Err::<FsyncResult, Error>(
                Error::InternalError(InternalReason::KindMismatch),
            ),
    {
        match kind {
            UringOperationKind::Fsync(_) => Ok(FsyncResult { res }),
            _ => Err(Error::InternalError(InternalReason::KindMismatch)),
        }
    }
}

impl IoResult for FsyncResult {
    type Output = ();

    open spec fn spec_io_result(&self) -> Result<(), OsError> {
        if self.res < 0 {
            Err(OsError { code: self.res })
        } else {
            Ok(())
        }
    }

    open spec fn spec_uring_result(self) -> UringResult {
        UringResult::Fsync(self)
    }

    fn as_io_result(&self) -> (r: Result<(), OsError>) {
        if self.res < 0 {
            Err(OsError { code: self.res })
        } else {
            Ok(())
        }
    }

    fn into_uring_result(self) -> (r: UringResult) {
        UringResult::Fsync(self)
    }
}

impl FdatasyncResult {
    /// Decodes a completion against a file-data-sync descriptor; any other
    /// descriptor kind is an internal-consistency failure.
    pub fn decode(res: i32, kind: UringOperationKind) -> (r: Result<FdatasyncResult, Error>)
        ensures
            kind is Fdatasync ==> r == Ok::<FdatasyncResult, Error>((FdatasyncResult { res })),
            !(kind is Fdatasync) ==> r == Err::<FdatasyncResult, Error>(
                Error::InternalError(InternalReason::KindMismatch),
            ),
    {
        match kind {
            UringOperationKind::Fdatasync(_) => Ok(FdatasyncResult { res }),
            _ => Err(Error::InternalError(InternalReason::KindMismatch)),
        }
    }
}

impl IoResult for FdatasyncResult {
    type Output = ();

    open spec fn spec_io_result(&self) -> Result<(), OsError> {
        if self.res < 0 {
            Err(OsError { code: self.res })
        } else {
            Ok(())
        }
    }

    open spec fn spec_uring_result(self) -> UringResult {
        UringResult::Fdatasync(self)
    }

    fn as_io_result(&self) -> (r: Result<(), OsError>) {
        if self.res < 0 {
            Err(OsError { code: self.res })
        } else {
            Ok(())
        }
    }

    fn into_uring_result(self) -> (r: UringResult) {
        UringResult::Fdatasync(self)
    }
}

} // verus!
