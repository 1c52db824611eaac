//! The destination buffer the record encoder appends into.
//!
//! The buffer is an append-only byte sequence that also supports
//! reserve-and-backpatch: a caller may remember an offset, append a 4-byte
//! placeholder there, and later overwrite exactly those four bytes.  A type
//! whose OID is not yet known writes a placeholder too, and the buffer keeps
//! an out-of-band list of (offset, name) pairs for the rewrite pass that runs
//! once the statement is prepared; that pass is outside this codec.

use vstd::prelude::*;

use crate::bytes_be::{patch_be_u32, push_be_u32, spec_be32};

verus! {

/// A deferred type identifier: the placeholder at `offset` must be rewritten
/// with the OID that `name` resolves to at statement preparation.
pub struct TypeHole {
    pub offset: usize,
    pub name: String,
}

/// A growable byte buffer with an out-of-band list of type holes.
pub struct PgArgumentBuffer {
    pub bytes: Vec<u8>,
    pub type_holes: Vec<TypeHole>,
}

impl PgArgumentBuffer {
    pub fn new() -> (r: PgArgumentBuffer)
        ensures
            r.bytes@ == Seq::<u8>::empty(),
            r.type_holes@ == Seq::<TypeHole>::empty(),
    {
        PgArgumentBuffer { bytes: Vec::new(), type_holes: Vec::new() }
    }

    pub fn len(&self) -> (r: usize)
        ensures
            r == self.bytes@.len(),
    {
        self.bytes.len()
    }

    /// Appends one byte.
    pub fn push(&mut self, b: u8)
        ensures
            final(self).bytes@ == old(self).bytes@.push(b),
            final(self).type_holes@ == old(self).type_holes@,
    {
        self.bytes.push(b);
    }

    /// Appends a 32-bit value, big-endian.
    pub fn extend_u32_be(&mut self, x: u32)
        ensures
            final(self).bytes@ == old(self).bytes@ + spec_be32(x),
            final(self).type_holes@ == old(self).type_holes@,
    {
        push_be_u32(&mut self.bytes, x);
    }

    /// Appends a copy of the given bytes.
    pub fn extend_bytes(&mut self, other: &Vec<u8>)
        ensures
            final(self).bytes@ == old(self).bytes@ + other@,
            final(self).type_holes@ == old(self).type_holes@,
    {
        let n = other.len();
        let mut k: usize = 0;
        while k < n
            invariant
                k <= n == other@.len(),
                self.bytes@ == old(self).bytes@ + other@.subrange(0, k as int),
                self.type_holes@ == old(self).type_holes@,
            decreases n - k,
        {
            self.bytes.push(other[k]);
            k = k + 1;
            assert(self.bytes@ =~= old(self).bytes@ + other@.subrange(0, k as int));
        }
        assert(self.bytes@ =~= old(self).bytes@ + other@);
    }

    /// Overwrites exactly the four bytes at `offset` with `x`, big-endian;
    /// every other byte stays.
    pub fn patch_u32_be(&mut self, offset: usize, x: u32)
        requires
            offset + 4 <= old(self).bytes@.len(),
        ensures
            final(self).bytes@ == old(self).bytes@.subrange(0, offset as int) + spec_be32(x)
                + old(self).bytes@.subrange(offset + 4, old(self).bytes@.len() as int),
            final(self).bytes@.len() == old(self).bytes@.len(),
            final(self).type_holes@ == old(self).type_holes@,
    {
        patch_be_u32(&mut self.bytes, offset, x);
    }

    /// Appends a 4-byte placeholder for a type whose OID is not yet known and
    /// records the hole for the later rewrite pass.
    pub fn push_type_hole(&mut self, name: String)
        ensures
            final(self).bytes@ == old(self).bytes@ + spec_be32(0),
            final(self).type_holes@.len() == old(self).type_holes@.len() + 1,
            final(self).type_holes@.subrange(0, old(self).type_holes@.len() as int) == old(
                self,
            ).type_holes@,
            final(self).type_holes@.last().offset == old(self).bytes@.len(),
            final(self).type_holes@.last().name@ == name@,
    {
        let offset = self.bytes.len();
        self.type_holes.push(TypeHole { offset, name });
        push_be_u32(&mut self.bytes, 0);
        assert(self.type_holes@.subrange(0, old(self).type_holes@.len() as int) =~= old(
            self,
        ).type_holes@);
    }
}

} // verus!
