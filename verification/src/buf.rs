//! Buffer handed to the ring for one operation.

use vstd::prelude::*;

verus! {

/// Buffer for a ring operation: either owned bytes, or a caller-supplied raw
/// region.
#[derive(Debug, PartialEq, Eq)]
pub enum UringBuf {
    /// Owned, growable byte buffer.
    Owned(Vec<u8>),
    /// Unmanaged memory region, given by the address of its first byte and
    /// its length in bytes.
    ///
    /// The user of this library must ensure that the region stays live and
    /// unmoved for the whole time the operation is outstanding, including
    /// after abandoning the handle; the engine cannot check this.
    Raw { addr: usize, len: usize },
}

/// Relies on `Vec::as_mut_ptr`: returns the address of the vector's first
/// byte and leaves the contents untouched.
#[verifier::external_body]
fn vec_addr(v: &mut Vec<u8>) -> (r: usize)
    ensures
        final(v)@ == old(v)@,
{
    v.as_mut_ptr() as usize
}

impl UringBuf {
    /// Address of the first byte of the region the kernel will read or
    /// write. For the raw variant this is exactly the caller-supplied
    /// address; for the owned variant it is wherever the allocator put the
    /// bytes, and the contents are unchanged.
    pub fn as_mut_ptr(&mut self) -> (r: usize)
        ensures
            *old(self) is Owned ==> *final(self) is Owned && (*final(self))->0@ == (*old(self))->0@,
            *old(self) is Raw ==> *final(self) == *old(self) && r == (*old(self))->Raw_addr,
    {
        match self {
            UringBuf::Owned(v) => vec_addr(v),
            UringBuf::Raw { addr, .. } => *addr,
        }
    }

    /// Read-only view of the buffer's bytes.
    ///
    /// Only the owned variant can be read safely: dereferencing the raw
    /// region is the caller's documented unsafe capability and stands outside
    /// this crate.
    pub fn as_slice(&self) -> (r: &[u8])
        requires
            self is Owned,
        ensures
            r@ == self->0@,
    {
        match self {
            UringBuf::Owned(v) => v.as_slice(),
            UringBuf::Raw { .. } => unreached(),
        }
    }

    /// Length in bytes of the region the kernel will read or write.
    pub fn len(&self) -> (n: usize)
        ensures
            self is Owned ==> n == self->0@.len(),
            self is Raw ==> n == self->Raw_len,
    {
        match self {
            UringBuf::Owned(v) => v.len(),
            UringBuf::Raw { len, .. } => *len,
        }
    }
}

} // verus!
