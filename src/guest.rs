use vstd::prelude::*;
use crate::codec::{Deserializable, Serializable};
use crate::error::WasmPluginError;
use crate::locator::{pack, FatPointer};
use crate::memory::{in_bounds, splice, LinearMemory};

verus! {

/// The guest's end of the protocol: its linear memory, with message buffers
/// handed out from the bottom up and every live one tracked until it is freed.
pub struct GuestHeap {
    memory: LinearMemory,
    top: u32,
    live: Vec<FatPointer>,
}

impl GuestHeap {
    pub closed spec fn wf(&self) -> bool {
        self.top <= self.memory@.len() <= u32::MAX
    }

    /// The guest's memory.
    pub closed spec fn mem(&self) -> Seq<u8> {
        self.memory@
    }

    /// The address the next buffer is handed out at: everything from it on is free.
    pub closed spec fn spec_top(&self) -> u32 {
        self.top
    }

    /// The buffers handed out and not yet freed, oldest first.
    pub closed spec fn live(&self) -> Seq<FatPointer> {
        self.live@
    }

    /// A guest with `size` bytes of zeroed memory and no buffers.
    pub fn new(size: u32) -> (r: GuestHeap)
        ensures
            r.wf(),
            r.mem() == Seq::new(size as nat, |i: int| 0u8),
            r.spec_top() == 0,
            r.live() == Seq::<FatPointer>::empty(),
    {
        GuestHeap { memory: LinearMemory::new(size as usize), top: 0, live: Vec::new() }
    }

    /// The guest's memory.
    pub fn memory(&self) -> (r: &LinearMemory)
        ensures
            r@ == self.mem(),
    {
        &self.memory
    }

    /// Copies `data` into the guest's memory from `ptr` on, with the bounds
    /// checks of `LinearMemory::write`.
    pub fn write_memory(&mut self, ptr: u32, data: &[u8]) -> (r: Result<(), WasmPluginError>)
        requires
            old(self).wf(),
        ensures
            final(self).wf(),
            final(self).spec_top() == old(self).spec_top(),
            final(self).live() == old(self).live(),
            in_bounds(old(self).mem().len(), ptr as nat, data@.len()) ==> r is Ok && final(self).mem()
                == splice(old(self).mem(), ptr as int, data@),
            !in_bounds(old(self).mem().len(), ptr as nat, data@.len()) ==> r
                == Err::<(), WasmPluginError>(WasmPluginError::OutOfBounds) && final(self).mem() == old(self).mem(),
    {
        self.memory.write(ptr, data)
    }

    /// How many buffers are live.
    pub fn live_count(&self) -> (r: usize)
        ensures
            r == self.live().len(),
    {
        self.live.len()
    }

    /// Writes `bytes` into a fresh buffer for the host and gives its address
    /// and length. The buffer stays live until the host frees it. Fails with
    /// `BufferOverflow` when the memory has no room for it.
    pub fn write_bytes(&mut self, bytes: &[u8]) -> (r: Result<(usize, usize), WasmPluginError>)
        requires
            old(self).wf(),
        ensures
            final(self).wf(),
            final(self).mem().len() == old(self).mem().len(),
            r matches Ok((p, l)) ==> l == bytes@.len() && p == old(self).spec_top()
                && final(self).spec_top() == p + l
                && final(self).mem().subrange(p as int, p + l) == bytes@
                && final(self).live() == old(self).live().push(FatPointer(pack(p as u32, l as u32))),
            r is Err <==> bytes@.len() > u32::MAX || old(self).spec_top() + bytes@.len() > old(self).mem().len(),
            r is Err ==> r == Err::<(usize, usize), WasmPluginError>(WasmPluginError::BufferOverflow)
                && final(self).live() == old(self).live() && final(self).mem() == old(self).mem()
                && final(self).spec_top() == old(self).spec_top(),
    {
        if bytes.len() as u64 > u32::MAX as u64 {
            return Err(WasmPluginError::BufferOverflow);
        }
        let len = bytes.len() as u32;
        let ptr = match allocate_message_buffer(self, len) {
            Some(p) => p,
            None => return Err(WasmPluginError::BufferOverflow),
        };
        let w = self.memory.write(ptr, bytes);
        assert(w is Ok);
        assert(self.memory@.subrange(ptr as int, ptr + len) =~= bytes@);
        Ok((ptr as usize, len as usize))
    }
}

/// Hands out a buffer of `len` bytes and gives its address, or `None`
/// when the memory has no room left for it.
pub fn allocate_message_buffer(heap: &mut GuestHeap, len: u32) -> (r: Option<u32>)
    requires
        old(heap).wf(),
    ensures
        final(heap).wf(),
        final(heap).mem() == old(heap).mem(),
        old(heap).spec_top() + len <= old(heap).mem().len() ==> r == Some(old(heap).spec_top())
            && final(heap).spec_top() == old(heap).spec_top() + len && final(heap).live() == old(heap).live().push(FatPointer(pack(old(heap).spec_top(), len))),
        old(heap).spec_top() + len > old(heap).mem().len() ==> r is None && final(heap).spec_top()
            == old(heap).spec_top() && final(heap).live() == old(heap).live(),
{
    let size = heap.memory.size();
    if (len as usize) > size - (heap.top as usize) {
        return None;
    }
    let ptr = heap.top;
    heap.top = heap.top + len;
    heap.live.push(FatPointer::new(ptr, len));
    Some(ptr)
}

/// Frees the buffer of `len` bytes at `ptr`: gives `true` and forgets the
/// oldest live buffer with that address and length, or `false` when none is
/// live. Freeing the buffer that ends at the top hands its room out again.
pub fn free_message_buffer(heap: &mut GuestHeap, ptr: u32, len: u32) -> (r: bool)
    requires
        old(heap).wf(),
    ensures
        final(heap).wf(),
        final(heap).mem() == old(heap).mem(),
        final(heap).spec_top() == (if r && ptr + len == old(heap).spec_top() {
            ptr
        } else {
            old(heap).spec_top()
        }),
        r == old(heap).live().contains(FatPointer(pack(ptr, len))),
        r ==> exists|i: int|
            0 <= i < old(heap).live().len() && old(heap).live()[i] == FatPointer(pack(ptr, len))
                && (forall|j: int| 0 <= j < i ==> old(heap).live()[j] != FatPointer(pack(ptr, len)))
                && final(heap).live() == old(heap).live().remove(i),
        !r ==> final(heap).live() == old(heap).live(),
{
    let loc = FatPointer::new(ptr, len);
    let mut i: usize = 0;
    while i < heap.live.len()
        invariant
            i <= heap.live@.len(),
            heap.live@ == old(heap).live@,
            heap.memory@ == old(heap).memory@,
            heap.top == old(heap).top,
            heap.wf(),
            loc == FatPointer(pack(ptr, len)),
            forall|j: int| 0 <= j < i ==> heap.live@[j] != loc,
        decreases heap.live@.len() - i,
    {
        if heap.live[i] == loc {
            heap.live.remove(i);
            if ptr as u64 + len as u64 == heap.top as u64 {
                heap.top = ptr;
            }
            return true;
        }
        i += 1;
    }
    proof {
        if old(heap).live().contains(loc) {
            let j = choose|j: int| 0 <= j < old(heap).live().len() && old(heap).live()[j] == loc;
            assert(heap.live@[j] == loc);
        }
    }
    false
}

/// Writes `message` into a fresh buffer for the host and gives its address
/// and length. The buffer stays live until the host frees it. Fails with
/// `BufferOverflow` when the memory has no room for it.
pub fn write_message<U: Serializable>(heap: &mut GuestHeap, message: &U) -> (r: Result<
    (usize, usize),
    WasmPluginError,
>)
    requires
        old(heap).wf(),
    ensures
        final(heap).wf(),
        final(heap).mem().len() == old(heap).mem().len(),
        U::encodable(message.deep_view()),
        r matches Ok((p, l)) ==> l == U::wire(message.deep_view()).len() && p == old(heap).spec_top()
            && final(heap).spec_top() == p + l
            && final(heap).mem().subrange(p as int, p + l) == U::wire(message.deep_view())
            && final(heap).live() == old(heap).live().push(FatPointer(pack(p as u32, l as u32))),
        r is Err <==> U::wire(message.deep_view()).len() > u32::MAX || old(heap).spec_top()
            + U::wire(message.deep_view()).len() > old(heap).mem().len(),
        r is Err ==> r == Err::<(usize, usize), WasmPluginError>(WasmPluginError::BufferOverflow)
            && final(heap).live() == old(heap).live() && final(heap).mem() == old(heap).mem()
            && final(heap).spec_top() == old(heap).spec_top(),
{
    let bytes = match message.serialize() {
        Ok(b) => b,
        Err(e) => return Err(e),
    };
    heap.write_bytes(bytes.as_slice())
}

/// Reads the message of `len` bytes at `ptr` as a `T`: `OutOfBounds` when
/// the range reaches past the memory, `DeserializationError` when the
/// bytes hold no `T`.
pub fn read_message<T: Deserializable>(heap: &GuestHeap, ptr: usize, len: usize) -> (r: Result<
    T,
    WasmPluginError,
>)
    requires
        heap.wf(),
    ensures
        ptr + len > heap.mem().len() ==> r == Err::<T, WasmPluginError>(WasmPluginError::OutOfBounds),
        ptr + len <= heap.mem().len() ==> match T::parse(
            heap.mem().subrange(ptr as int, ptr + len),
        ) {
            Some((m, k)) => if k == len {
                r is Ok && r->Ok_0.deep_view() == m
            } else {
                r == Err::<T, WasmPluginError>(WasmPluginError::DeserializationError)
            },
            None => r == Err::<T, WasmPluginError>(WasmPluginError::DeserializationError),
        },
{
    let size = heap.memory.size();
    if ptr > size || len > size - ptr {
        return Err(WasmPluginError::OutOfBounds);
    }
    let bytes = match heap.memory.read(ptr as u32, len as u32) {
        Ok(b) => b,
        Err(e) => return Err(e),
    };
    T::deserialize(bytes.as_slice())
}

/// The packed locator of a message written by `write_message`.
pub fn locator_of(written: (usize, usize)) -> (r: u64)
    requires
        written.0 <= u32::MAX,
        written.1 <= u32::MAX,
    ensures
        r == pack(written.0 as u32, written.1 as u32),
{
    FatPointer::new(written.0 as u32, written.1 as u32).0
}

/// The guest's half of calling a host import that takes an argument: the
/// argument (several ones tupled into one value) is written into a fresh
/// buffer, whose address and length go to the import. The buffer stays live
/// until the guest frees it. Fails with `BufferOverflow` when it does not fit.
pub fn import_argument<A: Serializable>(heap: &mut GuestHeap, arg: &A) -> (r: Result<(u32, u32), WasmPluginError>)
    requires
        old(heap).wf(),
    ensures
        final(heap).wf(),
        final(heap).mem().len() == old(heap).mem().len(),
        A::encodable(arg.deep_view()),
        r matches Ok((p, l)) ==> l == A::wire(arg.deep_view()).len() && p == old(heap).spec_top()
            && final(heap).spec_top() == p + l
            && final(heap).mem().subrange(p as int, p + l) == A::wire(arg.deep_view())
            && final(heap).live() == old(heap).live().push(FatPointer(pack(p, l))),
        r is Err <==> A::wire(arg.deep_view()).len() > u32::MAX || old(heap).spec_top()
            + A::wire(arg.deep_view()).len() > old(heap).mem().len(),
        r is Err ==> r == Err::<(u32, u32), WasmPluginError>(WasmPluginError::BufferOverflow)
            && unchanged(*old(heap), *final(heap)),
{
    match write_message(heap, arg) {
        Ok((p, l)) => Ok((p as u32, l as u32)),
        Err(e) => Err(e),
    }
}

/// Reads the value behind a packed locator that the host returned from an
/// import: the zero locator stands for a value that encodes to no bytes.
pub fn read_returned<T: Deserializable>(heap: &GuestHeap, w: u64) -> (r: Result<T, WasmPluginError>)
    requires
        heap.wf(),
    ensures
        ({
            let f = FatPointer(w);
            let (p, l) = (f.spec_ptr() as int, f.spec_len() as int);
            if p + l > heap.mem().len() {
                r == Err::<T, WasmPluginError>(WasmPluginError::OutOfBounds)
            } else {
                match T::parse(heap.mem().subrange(p, p + l)) {
                    Some((m, k)) => if k == l {
                        r is Ok && r->Ok_0.deep_view() == m
                    } else {
                        r == Err::<T, WasmPluginError>(WasmPluginError::DeserializationError)
                    },
                    None => r == Err::<T, WasmPluginError>(WasmPluginError::DeserializationError),
                }
            }
        }),
{
    let f = FatPointer(w);
    read_message(heap, f.ptr() as usize, f.len() as usize)
}

/// What an export adapter returns once the function gave a value whose bytes
/// are `w`: the zero locator, with nothing written, when `w` is empty; else
/// the locator of a fresh buffer at the heap's top that holds `w`, or
/// `BufferOverflow` when it does not fit.
pub open spec fn returned(before: GuestHeap, after: GuestHeap, w: Seq<u8>, r: Result<u64, WasmPluginError>) -> bool {
    &&& after.mem().len() == before.mem().len()
    &&& if w.len() == 0 {
        r == Ok::<u64, WasmPluginError>(0) && unchanged(before, after)
    } else if w.len() > u32::MAX || before.spec_top() + w.len() > before.mem().len() {
        r == Err::<u64, WasmPluginError>(WasmPluginError::BufferOverflow) && unchanged(before, after)
    } else {
        r == Ok::<u64, WasmPluginError>(pack(before.spec_top(), w.len() as u32))
            && after.mem().subrange(before.spec_top() as int, before.spec_top() + w.len()) == w
            && after.spec_top() == before.spec_top() + w.len()
            && after.live() == before.live().push(FatPointer(pack(before.spec_top(), w.len() as u32)))
    }
}

/// Whether a heap's memory, top and live buffers are as they were.
pub open spec fn unchanged(before: GuestHeap, after: GuestHeap) -> bool {
    after.mem() == before.mem() && after.spec_top() == before.spec_top() && after.live() == before.live()
}

fn return_value<R: Serializable>(heap: &mut GuestHeap, v: &R) -> (r: Result<u64, WasmPluginError>)
    requires
        old(heap).wf(),
    ensures
        final(heap).wf(),
        R::encodable(v.deep_view()),
        returned(*old(heap), *final(heap), R::wire(v.deep_view()), r),
{
    let bytes = match v.serialize() {
        Ok(b) => b,
        Err(e) => return Err(e),
    };
    if bytes.len() == 0 {
        return Ok(0);
    }
    match heap.write_bytes(bytes.as_slice()) {
        Ok(written) => Ok(locator_of(written)),
        Err(e) => Err(e),
    }
}

/// The adapter a guest exports for a function `f` that takes no argument:
/// calls it and returns the locator of its encoded result (the zero locator
/// when the result encodes to no bytes).
pub fn export_without_argument<R: Serializable, F: Fn() -> R>(heap: &mut GuestHeap, f: &F) -> (r:
    Result<u64, WasmPluginError>)
    requires
        old(heap).wf(),
        f.requires(()),
    ensures
        final(heap).wf(),
        exists|v: R| #[trigger] f.ensures((), v) && R::encodable(v.deep_view()) && returned(*old(heap), *final(heap), R::wire(v.deep_view()), r),
{
    let v = f();
    return_value(heap, &v)
}

/// The adapter a guest exports for a function `f` of one argument: reads
/// and decodes the argument message at `ptr` (`OutOfBounds` when it reaches
/// past the memory, `DeserializationError` when it holds no `A`), calls `f`,
/// and returns the locator of its encoded result.
pub fn export_with_argument<A: Deserializable, R: Serializable, F: Fn(A) -> R>(
    heap: &mut GuestHeap,
    f: &F,
    ptr: u32,
    len: u32,
) -> (r: Result<u64, WasmPluginError>)
    requires
        old(heap).wf(),
        forall|a: A| #[trigger] f.requires((a,)),
    ensures
        final(heap).wf(),
        ptr + len > old(heap).mem().len() ==> r == Err::<u64, WasmPluginError>(WasmPluginError::OutOfBounds)
            && unchanged(*old(heap), *final(heap)),
        ptr + len <= old(heap).mem().len() ==> match A::parse(old(heap).mem().subrange(ptr as int, ptr + len)) {
            Some((m, k)) => if k == len {
                exists|a: A, v: R| a.deep_view() == m && #[trigger] f.ensures((a,), v) && R::encodable(v.deep_view())
                    && returned(*old(heap), *final(heap), R::wire(v.deep_view()), r)
            } else {
                r == Err::<u64, WasmPluginError>(WasmPluginError::DeserializationError)
                    && unchanged(*old(heap), *final(heap))
            },
            None => r == Err::<u64, WasmPluginError>(WasmPluginError::DeserializationError)
                && unchanged(*old(heap), *final(heap)),
        },
{
    let arg: A = match read_message(heap, ptr as usize, len as usize) {
        Ok(a) => a,
        Err(e) => return Err(e),
    };
    let v = f(arg);
    return_value(heap, &v)
}

} // verus!
