use vstd::prelude::*;
use crate::error::WasmPluginError;
use crate::locator::FatPointer;

verus! {

/// Whether `len` bytes from `ptr` lie inside a memory of `size` bytes.
pub open spec fn in_bounds(size: nat, ptr: nat, len: nat) -> bool {
    ptr + len <= size
}

/// `mem` with the bytes from `at` on replaced by `data`.
pub open spec fn splice(mem: Seq<u8>, at: int, data: Seq<u8>) -> Seq<u8> {
    Seq::new(mem.len(), |i: int| if at <= i < at + data.len() { data[i - at] } else { mem[i] })
}

/// Whether `len` bytes from `ptr` lie inside a memory of `size` bytes, computed without overflow.
pub fn range_in_bounds(size: usize, ptr: u32, len: u32) -> (r: bool)
    ensures
        r == in_bounds(size as nat, ptr as nat, len as nat),
{
    (ptr as u64) + (len as u64) <= size as u64
}

/// A guest's linear memory as a byte array. Every read and write names an
/// address and a length and is checked against the current size before any
/// byte is touched.
pub struct LinearMemory {
    bytes: Vec<u8>,
}

impl View for LinearMemory {
    type V = Seq<u8>;

    closed spec fn view(&self) -> Seq<u8> {
        self.bytes@
    }
}

impl LinearMemory {
    /// A memory of `size` zero bytes.
    pub fn new(size: usize) -> (r: LinearMemory)
        ensures
            r@ == Seq::new(size as nat, |i: int| 0u8),
    {
        let mut bytes: Vec<u8> = Vec::new();
        let mut i: usize = 0;
        while i < size
            invariant
                i <= size,
                bytes@ == Seq::new(i as nat, |j: int| 0u8),
            decreases size - i,
        {
            bytes.push(0u8);
            i += 1;
            assert(bytes@ =~= Seq::new(i as nat, |j: int| 0u8));
        }
        LinearMemory { bytes }
    }

    /// A memory that holds `bytes`.
    pub fn from_bytes(bytes: Vec<u8>) -> (r: LinearMemory)
        ensures
            r@ == bytes@,
    {
        LinearMemory { bytes }
    }

    /// The current size, in bytes.
    pub fn size(&self) -> (r: usize)
        ensures
            r == self@.len(),
    {
        self.bytes.len()
    }

    /// The whole memory, byte by byte.
    pub fn as_slice(&self) -> (r: &[u8])
        ensures
            r@ == self@,
    {
        self.bytes.as_slice()
    }

    /// Grows the memory by `extra` zero bytes at its end.
    pub fn grow(&mut self, extra: usize)
        requires
            old(self)@.len() + extra <= usize::MAX,
        ensures
            final(self)@ == old(self)@ + Seq::new(extra as nat, |i: int| 0u8),
    {
        let mut i: usize = 0;
        while i < extra
            invariant
                i <= extra,
                old(self)@.len() + extra <= usize::MAX,
                self@ == old(self)@ + Seq::new(i as nat, |j: int| 0u8),
            decreases extra - i,
        {
            self.bytes.push(0u8);
            i += 1;
            assert(self@ =~= old(self)@ + Seq::new(i as nat, |j: int| 0u8));
        }
    }

    /// Copies `len` bytes from `ptr` out of the memory, or `OutOfBounds` when
    /// the range reaches past its end.
    pub fn read(&self, ptr: u32, len: u32) -> (r: Result<Vec<u8>, WasmPluginError>)
        ensures
            in_bounds(self@.len(), ptr as nat, len as nat) ==> r is Ok && r->Ok_0@
                == self@.subrange(ptr as int, ptr + len),
            !in_bounds(self@.len(), ptr as nat, len as nat) ==> r == Err::<Vec<u8>, WasmPluginError>(
                WasmPluginError::OutOfBounds,
            ),
    {
        if !range_in_bounds(self.bytes.len(), ptr, len) {
            return Err(WasmPluginError::OutOfBounds);
        }
        let start = ptr as usize;
        let end = start + len as usize;
        let mut out: Vec<u8> = Vec::new();
        let mut i: usize = start;
        while i < end
            invariant
                start <= i <= end <= self@.len(),
                out@ == self@.subrange(start as int, i as int),
            decreases end - i,
        {
            out.push(self.bytes[i]);
            i += 1;
            assert(out@ =~= self@.subrange(start as int, i as int));
        }
        Ok(out)
    }

    /// Copies `data` into the memory from `ptr` on, or leaves the memory as it
    /// is and gives `OutOfBounds` when the range reaches past its end.
    pub fn write(&mut self, ptr: u32, data: &[u8]) -> (r: Result<(), WasmPluginError>)
        ensures
            in_bounds(old(self)@.len(), ptr as nat, data@.len()) ==> r is Ok && final(self)@ == splice(
                old(self)@,
                ptr as int,
                data@,
            ),
            !in_bounds(old(self)@.len(), ptr as nat, data@.len()) ==> r == Err::<(), WasmPluginError>(
                WasmPluginError::OutOfBounds,
            ) && final(self)@ == old(self)@,
    {
        if data.len() > self.bytes.len() || (ptr as usize) > self.bytes.len() - data.len() {
            return Err(WasmPluginError::OutOfBounds);
        }
        let start = ptr as usize;
        let mut j: usize = 0;
        while j < data.len()
            invariant
                start + data@.len() <= self@.len(),
                start == ptr,
                j <= data@.len(),
                self@.len() == old(self)@.len(),
                forall|i: int|
                    0 <= i < self@.len() ==> #[trigger] self@[i] == (if start <= i < start + j {
                        data@[i - start]
                    } else {
                        old(self)@[i]
                    }),
            decreases data@.len() - j,
        {
            assert(start + j < self.bytes.len());
            self.bytes[start + j] = data[j];
            j += 1;
        }
        assert(self@ =~= splice(old(self)@, ptr as int, data@));
        Ok(())
    }

    /// The bytes a locator names. A zero-length locator reads nothing and
    /// always succeeds.
    pub fn fetch(&self, loc: FatPointer) -> (r: Result<Vec<u8>, WasmPluginError>)
        ensures
            loc.spec_len() == 0 ==> r is Ok && r->Ok_0@.len() == 0,
            in_bounds(self@.len(), loc.spec_ptr() as nat, loc.spec_len() as nat) ==> r is Ok
                && r->Ok_0@ == self@.subrange(loc.spec_ptr() as int, loc.spec_ptr() + loc.spec_len()),
            loc.spec_len() != 0 && !in_bounds(self@.len(), loc.spec_ptr() as nat, loc.spec_len() as nat)
                ==> r == Err::<Vec<u8>, WasmPluginError>(WasmPluginError::OutOfBounds),
    {
        if loc.is_empty() {
            let out: Vec<u8> = Vec::new();
            proof {
                if in_bounds(self@.len(), loc.spec_ptr() as nat, 0) {
                    assert(out@ =~= self@.subrange(loc.spec_ptr() as int, loc.spec_ptr() + 0));
                }
            }
            return Ok(out);
        }
        self.read(loc.ptr(), loc.len())
    }
}

} // verus!
