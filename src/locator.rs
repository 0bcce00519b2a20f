use vstd::prelude::*;

verus! {

/// The word that packs an address and a length: the address in the low 32 bits,
/// the length in the high 32 bits.
pub open spec fn pack(ptr: u32, len: u32) -> u64 {
    (ptr as u64) | ((len as u64) << 32u64)
}

/// A byte range of guest linear memory, packed into one 64-bit word so that it
/// crosses the call boundary as a single value. A length of zero means "no payload".
#[derive(Debug, Clone, Copy, PartialEq, Eq, Structural)]
pub struct FatPointer(pub u64);

impl FatPointer {
    /// The address of the range.
    pub open spec fn spec_ptr(self) -> u32 {
        self.0 as u32
    }

    /// The length of the range, in bytes.
    pub open spec fn spec_len(self) -> u32 {
        (self.0 >> 32u64) as u32
    }

    /// The range of `len` bytes starting at `ptr`.
    pub fn new(ptr: u32, len: u32) -> (r: FatPointer)
        ensures
            r.0 == pack(ptr, len),
            r.spec_ptr() == ptr,
            r.spec_len() == len,
    {
        let r = FatPointer((ptr as u64) | ((len as u64) << 32u64));
        proof {
            lemma_unpack(ptr, len);
        }
        r
    }

    /// The zero locator: no payload.
    pub fn empty() -> (r: FatPointer)
        ensures
            r.0 == 0,
            r.spec_ptr() == 0,
            r.spec_len() == 0,
    {
        assert(((0u64 >> 32u64) as u32) == 0) by (bit_vector);
        FatPointer(0)
    }

    /// The address of the range.
    pub fn ptr(&self) -> (r: u32)
        ensures
            r == self.spec_ptr(),
    {
        self.0 as u32
    }

    /// The length of the range, in bytes.
    pub fn len(&self) -> (r: u32)
        ensures
            r == self.spec_len(),
    {
        (self.0 >> 32u64) as u32
    }

    /// Whether the range holds no bytes: the "no payload" locator.
    pub fn is_empty(&self) -> (r: bool)
        ensures
            r == (self.spec_len() == 0),
    {
        self.len() == 0
    }

    /// Replaces the address and keeps the length.
    pub fn set_ptr(&mut self, ptr: u32)
        ensures
            final(self).spec_ptr() == ptr,
            final(self).spec_len() == old(self).spec_len(),
    {
        *self = FatPointer::new(ptr, self.len());
    }

    /// Replaces the length and keeps the address.
    pub fn set_len(&mut self, len: u32)
        ensures
            final(self).spec_ptr() == old(self).spec_ptr(),
            final(self).spec_len() == len,
    {
        *self = FatPointer::new(self.ptr(), len);
    }
}

/// Unpacking a packed address and length gives them back.
pub proof fn lemma_unpack(ptr: u32, len: u32)
    ensures
        FatPointer(pack(ptr, len)).spec_ptr() == ptr,
        FatPointer(pack(ptr, len)).spec_len() == len,
{
    assert((((ptr as u64) | ((len as u64) << 32u64)) as u32) == ptr) by (bit_vector);
    assert(((((ptr as u64) | ((len as u64) << 32u64)) >> 32u64) as u32) == len) by (bit_vector);
}

/// Packing the address and length of a locator gives back the same word:
/// every 64-bit word is the locator of exactly one address and length.
pub proof fn lemma_pack(f: FatPointer)
    ensures
        pack(f.spec_ptr(), f.spec_len()) == f.0,
{
    let w = f.0;
    assert((((w as u32) as u64) | ((((w >> 32u64) as u32) as u64) << 32u64)) == w) by (bit_vector);
}

} // verus!
