//! The guest's linear memory, as the host sees it across the boundary.
//!
//! Linear memory is a flat byte region. The guest hands the host
//! guest-relative offsets into it; the host must treat every such offset as
//! untrusted and bounds-check it before each read or write. A write copies
//! host bytes into the region; a read copies guest bytes out. Either fails
//! with `OutOfBounds` when the region `offset..offset + length` does not lie
//! within the memory's current size.
use vstd::prelude::*;
use vstd::utf8::{decode_utf8, valid_utf8};

use crate::encoding::{utf8_to_string, validate_utf8};
use crate::errors::BoundaryError;

verus! {

/// A guest's linear memory: a flat, byte-addressable region of fixed
/// current size, owned by one instance.
pub struct GuestMemory {
    data: Vec<u8>,
}

impl View for GuestMemory {
    type V = Seq<u8>;

    closed spec fn view(&self) -> Seq<u8> {
        self.data@
    }
}

/// The bytes a region holds after `src` is copied in at `offset`: the
/// prefix and the suffix keep their bytes, the region becomes `src`.
pub open spec fn bytes_after_write(mem: Seq<u8>, offset: int, src: Seq<u8>) -> Seq<u8>
    recommends
        0 <= offset,
        offset + src.len() <= mem.len(),
{
    mem.subrange(0, offset) + src + mem.subrange(offset + src.len(), mem.len() as int)
}

impl GuestMemory {
    /// A fresh linear memory of `size` zeroed bytes.
    pub fn new(size: usize) -> (mem: GuestMemory)
        ensures
            mem@ == Seq::new(size as nat, |i: int| 0u8),
    {
        GuestMemory { data: vec![0u8; size] }
    }

    /// A linear memory holding exactly the given bytes.
    pub fn from_bytes(bytes: Vec<u8>) -> (mem: GuestMemory)
        ensures
            mem@ == bytes@,
    {
        GuestMemory { data: bytes }
    }

    /// Linear memory lives in one address space: its size fits a `usize`.
    pub proof fn size_bound(&self)
        ensures
            self@.len() <= usize::MAX,
    {
        let n = vstd::std_specs::vec::spec_vec_len(&self.data);
        assert(n == self.data@.len());
    }

    /// The memory's current size in bytes.
    pub fn size(&self) -> (n: usize)
        ensures
            n == self@.len(),
    {
        self.data.len()
    }

    /// Copies `src` into the region starting at the untrusted offset,
    /// after checking that the whole region lies within the current size.
    /// On failure the memory is unchanged.
    pub fn write_bytes(&mut self, offset: usize, src: &[u8]) -> (r: Result<(), BoundaryError>)
        ensures
            r is Ok <==> offset + src@.len() <= old(self)@.len(),
            r is Ok ==> final(self)@ == bytes_after_write(old(self)@, offset as int, src@),
            r matches Err(e) ==> e is OutOfBounds && *final(self) == *old(self),
    {
        let size = self.data.len();
        if offset > size || src.len() > size - offset {
            return Err(BoundaryError::OutOfBounds);
        }
        let n = src.len();
        let ghost orig = self.data@;
        let mut j: usize = 0;
        while j < n
            invariant
                j <= n,
                n == src@.len(),
                offset + n <= orig.len(),
                orig.len() <= usize::MAX,
                self.data@.len() == orig.len(),
                forall|k: int| 0 <= k < offset ==> self.data@[k] == orig[k],
                forall|k: int| offset <= k < offset + j ==> self.data@[k] == src@[k - offset],
                forall|k: int| offset + j <= k < orig.len() ==> self.data@[k] == orig[k],
            decreases n - j,
        {
            self.data[offset + j] = src[j];
            j = j + 1;
        }
        proof {
            assert(self.data@ =~= bytes_after_write(orig, offset as int, src@));
        }
        Ok(())
    }

    /// Copies `length` bytes out of the region starting at the untrusted
    /// offset, after checking that the whole region lies within the
    /// current size.
    pub fn read_bytes(&self, offset: usize, length: usize) -> (r: Result<Vec<u8>, BoundaryError>)
        ensures
            r is Ok <==> offset + length <= self@.len(),
            r matches Ok(v) ==> v@ == self@.subrange(offset as int, offset + length),
            r matches Err(e) ==> e is OutOfBounds,
    {
        let size = self.data.len();
        if offset > size || length > size - offset {
            return Err(BoundaryError::OutOfBounds);
        }
        let mut out: Vec<u8> = Vec::new();
        let mut j: usize = 0;
        while j < length
            invariant
                j <= length,
                offset + length <= self.data@.len(),
                self.data@.len() <= usize::MAX,
                out@ == self@.subrange(offset as int, offset + j),
            decreases length - j,
        {
            out.push(self.data[offset + j]);
            proof {
                assert(out@ =~= self@.subrange(offset as int, offset + j + 1));
            }
            j = j + 1;
        }
        Ok(out)
    }

    /// Copies `length` bytes out of the region at the untrusted offset and
    /// interprets them as UTF-8 text: `OutOfBounds` when the region does
    /// not lie within the current size, `InvalidEncoding` when the bytes
    /// are not valid UTF-8, otherwise the string those bytes encode.
    pub fn read_string(&self, offset: usize, length: usize) -> (r: Result<String, BoundaryError>)
        ensures
            r is Ok <==> (offset + length <= self@.len() && valid_utf8(
                self@.subrange(offset as int, offset + length),
            )),
            r matches Ok(s) ==> s@ == decode_utf8(self@.subrange(offset as int, offset + length)),
            offset + length > self@.len() ==> (r matches Err(e) && e is OutOfBounds),
            offset + length <= self@.len() && !valid_utf8(
                self@.subrange(offset as int, offset + length),
            ) ==> (r matches Err(e) && e is InvalidEncoding),
    {
        let bytes = match self.read_bytes(offset, length) {
            Ok(v) => v,
            Err(e) => {
                return Err(e);
            },
        };
        if !validate_utf8(bytes.as_slice()) {
            return Err(BoundaryError::InvalidEncoding);
        }
        Ok(utf8_to_string(bytes))
    }
}

/// Writing a region and reading the same region back yields exactly the
/// bytes written, and no byte outside the region moves: the law behind
/// every buffer round trip across the boundary.
pub proof fn lemma_write_read_round_trip(mem: Seq<u8>, offset: int, src: Seq<u8>)
    requires
        0 <= offset,
        offset + src.len() <= mem.len(),
    ensures
        bytes_after_write(mem, offset, src).subrange(offset, offset + src.len()) == src,
        bytes_after_write(mem, offset, src).len() == mem.len(),
        forall|k: int|
            0 <= k < mem.len() && !(offset <= k < offset + src.len())
                ==> bytes_after_write(mem, offset, src)[k] == mem[k],
{
    assert(bytes_after_write(mem, offset, src).subrange(offset, offset + src.len()) =~= src);
}

} // verus!
