//! The byte-addressed storage model.
//!
//! Aggregates live in a `Mem` value and are named by their starting address.
//! All access to stored bytes goes through the explicit read and write
//! operations here; the projection stages themselves only compute addresses.

use vstd::prelude::*;

verus! {

/// What a write leaves in storage: the bytes before `addr` and after the
/// written range unchanged, `data` in between.
pub open spec fn spec_write(m: Seq<u8>, addr: int, data: Seq<u8>) -> Seq<u8> {
    m.subrange(0, addr) + data + m.subrange(addr + data.len(), m.len() as int)
}

/// A flat, byte-addressed storage region.
pub struct Mem {
    bytes: Vec<u8>,
}

impl View for Mem {
    type V = Seq<u8>;

    closed spec fn view(&self) -> Seq<u8> {
        self.bytes@
    }
}

impl Mem {
    /// Fresh storage of `len` zeroed bytes.
    pub fn new(len: usize) -> (r: Mem)
        ensures
            r@.len() == len,
            forall|i: int| 0 <= i < len ==> r@[i] == 0u8,
    {
        Mem { bytes: vec![0u8; len] }
    }

    /// Storage holding exactly the given bytes.
    pub fn from_bytes(bytes: Vec<u8>) -> (r: Mem)
        ensures
            r@ == bytes@,
    {
        Mem { bytes }
    }

    /// Storage always fits the address space.
    pub proof fn lemma_len_bound(&self)
        ensures
            self@.len() <= usize::MAX,
    {
        assert(vstd::std_specs::vec::spec_vec_len(&self.bytes) == self.bytes@.len());
    }

    /// The size of the storage in bytes.
    pub fn len(&self) -> (r: usize)
        ensures
            r == self@.len(),
    {
        self.bytes.len()
    }

    /// Read one byte.
    pub fn read_byte(&self, addr: usize) -> (r: u8)
        requires
            addr < self@.len(),
        ensures
            r == self@[addr as int],
    {
        self.bytes[addr]
    }

    /// Read `len` bytes starting at `addr`.
    pub fn read(&self, addr: usize, len: usize) -> (r: Vec<u8>)
        requires
            addr + len <= self@.len(),
        ensures
            r@ == self@.subrange(addr as int, addr + len),
    {
        let total = self.bytes.len();
        let mut out: Vec<u8> = Vec::new();
        let mut i: usize = 0;
        while i < len
            invariant
                total == self@.len(),
                addr + len <= self@.len(),
                i <= len,
                out@ == self@.subrange(addr as int, addr + i),
            decreases len - i,
        {
            out.push(self.bytes[addr + i]);
            proof {
                assert(self@.subrange(addr as int, addr + i + 1)
                    =~= self@.subrange(addr as int, addr + i).push(self@[addr + i]));
            }
            i += 1;
        }
        out
    }

    /// Write all of `data` starting at `addr`, leaving every other byte
    /// unchanged.
    pub fn write(&mut self, addr: usize, data: &Vec<u8>)
        requires
            addr + data@.len() <= old(self)@.len(),
        ensures
            final(self)@ == spec_write(old(self)@, addr as int, data@),
    {
        let total = self.bytes.len();
        let n = data.len();
        let mut i: usize = 0;
        while i < n
            invariant
                n == data@.len(),
                addr + n <= self@.len(),
                self@.len() <= total,
                self@.len() == old(self)@.len(),
                i <= n,
                forall|k: int| 0 <= k < addr ==> self@[k] == old(self)@[k],
                forall|k: int| addr <= k < addr + i ==> self@[k] == data@[k - addr],
                forall|k: int| addr + i <= k < self@.len() ==> self@[k] == old(self)@[k],
            decreases n - i,
        {
            self.bytes[addr + i] = data[i];
            i += 1;
        }
        proof {
            assert(self@ =~= spec_write(old(self)@, addr as int, data@));
        }
    }
}

} // verus!
