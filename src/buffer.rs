use vstd::prelude::*;
use crate::error::WasmPluginError;
use crate::locator::{pack, FatPointer};
use crate::memory::{in_bounds, range_in_bounds, splice, LinearMemory};

verus! {

/// How a guest provides room for messages. A module uses exactly one scheme.
#[derive(Debug, Clone, Copy, PartialEq, Eq, Structural)]
pub enum BufferScheme {
    /// One region of `capacity` bytes at the fixed address `addr`.
    Static { addr: u32, capacity: u32 },
    /// A fresh region from the guest's allocator export for each message,
    /// each freed once through its deallocator export.
    Dynamic,
}

/// Where a message of a given length is to be written.
#[derive(Debug, Clone, Copy, PartialEq, Eq, Structural)]
pub enum Placement {
    /// At this address, with no allocation.
    At(u32),
    /// At the address that the guest's allocator returns for this many bytes.
    Allocate(u32),
}

/// Where a message of `len` bytes goes under `scheme`.
pub open spec fn placement_of(scheme: BufferScheme, len: nat) -> Result<Placement, WasmPluginError> {
    match scheme {
        BufferScheme::Static { addr, capacity } => if len <= capacity {
            Ok(Placement::At(addr))
        } else {
            Err(WasmPluginError::BufferOverflow)
        },
        BufferScheme::Dynamic => if len <= u32::MAX {
            Ok(Placement::Allocate(len as u32))
        } else {
            Err(WasmPluginError::BufferOverflow)
        },
    }
}

/// The locator of a message of `len` bytes staged at `addr` in a memory of
/// `size` bytes, or why it cannot be staged there. An empty message is never
/// staged: it gets the zero locator.
pub open spec fn stage_outcome(scheme: BufferScheme, size: nat, addr: u32, len: nat) -> Result<
    FatPointer,
    WasmPluginError,
> {
    if len == 0 {
        Ok(FatPointer(0))
    } else if placement_of(scheme, len) is Err {
        Err(WasmPluginError::BufferOverflow)
    } else if !in_bounds(size, staging_addr(scheme, addr) as nat, len) {
        Err(WasmPluginError::OutOfBounds)
    } else {
        Ok(FatPointer(pack(staging_addr(scheme, addr), len as u32)))
    }
}

/// Where a message is staged: always at the fixed address in the static
/// scheme, at the allocated address `addr` in the dynamic one.
pub open spec fn staging_addr(scheme: BufferScheme, addr: u32) -> u32 {
    match scheme {
        BufferScheme::Static { addr: fixed, .. } => fixed,
        BufferScheme::Dynamic => addr,
    }
}

/// The garbage log after a message with locator `loc` was staged: dynamic
/// allocations are logged for release, static ones and empty messages are not.
pub open spec fn logged(scheme: BufferScheme, log: Seq<FatPointer>, loc: FatPointer) -> Seq<FatPointer> {
    if scheme is Dynamic && loc.spec_len() > 0 {
        log.push(loc)
    } else {
        log
    }
}

/// What must be freed once a top-level call is over: every logged allocation,
/// then the result's own buffer when it is a non-empty dynamic one.
pub open spec fn release_list(scheme: BufferScheme, log: Seq<FatPointer>, result: FatPointer) -> Seq<
    FatPointer,
> {
    logged(scheme, log, result)
}

/// The garbage log after messages with locators `locs` were staged one after another.
pub open spec fn logged_all(scheme: BufferScheme, log: Seq<FatPointer>, locs: Seq<FatPointer>) -> Seq<
    FatPointer,
>
    decreases locs.len(),
{
    if locs.len() == 0 {
        log
    } else {
        logged(scheme, logged_all(scheme, log, locs.drop_last()), locs.last())
    }
}

/// The staging side of the calling convention for one plugin instance: its
/// buffer scheme and its garbage log, the dynamic allocations not yet freed.
/// The log is filled by every staging, nested calls included, and drained
/// only when the outermost call is over.
pub struct MessageBuffer {
    scheme: BufferScheme,
    garbage: Vec<FatPointer>,
}

impl MessageBuffer {
    /// The buffer scheme.
    pub closed spec fn spec_scheme(&self) -> BufferScheme {
        self.scheme
    }

    /// The garbage log, oldest allocation first.
    pub closed spec fn log(&self) -> Seq<FatPointer> {
        self.garbage@
    }

    /// A buffer with the given scheme and an empty garbage log.
    pub fn new(scheme: BufferScheme) -> (r: MessageBuffer)
        ensures
            r.spec_scheme() == scheme,
            r.log() == Seq::<FatPointer>::empty(),
    {
        MessageBuffer { scheme, garbage: Vec::new() }
    }

    /// The buffer scheme.
    pub fn scheme(&self) -> (r: BufferScheme)
        ensures
            r == self.spec_scheme(),
    {
        self.scheme
    }

    /// How many allocations wait in the garbage log.
    pub fn pending(&self) -> (r: usize)
        ensures
            r == self.log().len(),
    {
        self.garbage.len()
    }

    /// Where a message of `len` bytes is to be written: at the static
    /// buffer's address when it fits its capacity, else `BufferOverflow`; in
    /// the dynamic scheme, in a fresh allocation of `len` bytes.
    pub fn placement(&self, len: usize) -> (r: Result<Placement, WasmPluginError>)
        ensures
            r == placement_of(self.spec_scheme(), len as nat),
    {
        match self.scheme {
            BufferScheme::Static { addr, capacity } => {
                if len as u64 <= capacity as u64 {
                    Ok(Placement::At(addr))
                } else {
                    Err(WasmPluginError::BufferOverflow)
                }
            },
            BufferScheme::Dynamic => {
                if len as u64 <= u32::MAX as u64 {
                    Ok(Placement::Allocate(len as u32))
                } else {
                    Err(WasmPluginError::BufferOverflow)
                }
            },
        }
    }

    /// Stages a message of `len` bytes in a memory of `memory_size` bytes: at
    /// the static buffer's fixed address, or in the dynamic scheme at `addr`,
    /// the address the guest's allocator returned. Checks capacity and bounds
    /// before any byte is written, and logs a dynamic allocation for release. The caller copies
    /// the bytes to the returned locator.
    pub fn stage(&mut self, memory_size: usize, addr: u32, len: usize) -> (r: Result<
        FatPointer,
        WasmPluginError,
    >)
        ensures
            r == stage_outcome(old(self).spec_scheme(), memory_size as nat, addr, len as nat),
            r matches Ok(loc) ==> loc.spec_len() == len && (len > 0 ==> loc.spec_ptr() == staging_addr(
                old(self).spec_scheme(),
                addr,
            )),
            final(self).spec_scheme() == old(self).spec_scheme(),
            final(self).log() == (match r {
                Ok(loc) => logged(old(self).spec_scheme(), old(self).log(), loc),
                Err(_) => old(self).log(),
            }),
    {
        if len == 0 {
            return Ok(FatPointer::empty());
        }
        if self.placement(len).is_err() {
            return Err(WasmPluginError::BufferOverflow);
        }
        let n = len as u32;
        let at = match self.scheme {
            BufferScheme::Static { addr: fixed, .. } => fixed,
            BufferScheme::Dynamic => addr,
        };
        if !range_in_bounds(memory_size, at, n) {
            return Err(WasmPluginError::OutOfBounds);
        }
        let loc = FatPointer::new(at, n);
        match self.scheme {
            BufferScheme::Dynamic => {
                self.garbage.push(loc);
            },
            BufferScheme::Static { .. } => {},
        }
        Ok(loc)
    }

    /// Stages `message` as `stage` does, in `memory`, and copies it there.
    /// Capacity and bounds are checked before any byte is written: a refused
    /// message (a static buffer too small for it gives `BufferOverflow`)
    /// leaves the memory and the log as they were.
    pub fn write_message(&mut self, memory: &mut LinearMemory, addr: u32, message: &[u8]) -> (r: Result<
        FatPointer,
        WasmPluginError,
    >)
        ensures
            r == stage_outcome(old(self).spec_scheme(), old(memory)@.len(), addr, message@.len()),
            r matches Ok(loc) ==> loc.spec_len() == message@.len() && final(memory)@ == splice(
                old(memory)@,
                loc.spec_ptr() as int,
                message@,
            ),
            r is Err ==> final(memory)@ == old(memory)@,
            final(self).spec_scheme() == old(self).spec_scheme(),
            final(self).log() == (match r {
                Ok(loc) => logged(old(self).spec_scheme(), old(self).log(), loc),
                Err(_) => old(self).log(),
            }),
    {
        let loc = match self.stage(memory.size(), addr, message.len()) {
            Ok(l) => l,
            Err(e) => return Err(e),
        };
        if message.len() == 0 {
            assert(memory@ =~= splice(memory@, loc.spec_ptr() as int, message@));
            return Ok(loc);
        }
        let w = memory.write(loc.ptr(), message);
        assert(w is Ok);
        Ok(loc)
    }

    /// The bytes of the message at `loc` in `memory`, as `LinearMemory::fetch`
    /// gives them: a zero-length locator reads nothing.
    pub fn read_message(&self, memory: &LinearMemory, loc: FatPointer) -> (r: Result<Vec<u8>, WasmPluginError>)
        ensures
            loc.spec_len() == 0 ==> r is Ok && r->Ok_0@.len() == 0,
            in_bounds(memory@.len(), loc.spec_ptr() as nat, loc.spec_len() as nat) ==> r is Ok
                && r->Ok_0@ == memory@.subrange(loc.spec_ptr() as int, loc.spec_ptr() + loc.spec_len()),
            loc.spec_len() != 0 && !in_bounds(memory@.len(), loc.spec_ptr() as nat, loc.spec_len() as nat)
                ==> r == Err::<Vec<u8>, WasmPluginError>(WasmPluginError::OutOfBounds),
    {
        memory.fetch(loc)
    }

    /// Ends the outermost call whose result has locator `result`: empties the
    /// garbage log and gives every locator that must now be freed, in order.
    pub fn drain_for_release(&mut self, result: FatPointer) -> (r: Vec<FatPointer>)
        ensures
            r@ == release_list(old(self).spec_scheme(), old(self).log(), result),
            final(self).spec_scheme() == old(self).spec_scheme(),
            final(self).log() == Seq::<FatPointer>::empty(),
    {
        let mut r: Vec<FatPointer> = Vec::new();
        std::mem::swap(&mut r, &mut self.garbage);
        if self.scheme == BufferScheme::Dynamic && !result.is_empty() {
            r.push(result);
        }
        r
    }
}

/// Staging messages one after another in the dynamic scheme logs each
/// non-empty one in order.
pub proof fn lemma_logged_all_dynamic(log: Seq<FatPointer>, locs: Seq<FatPointer>)
    requires
        forall|i: int| 0 <= i < locs.len() ==> (#[trigger] locs[i]).spec_len() > 0,
    ensures
        logged_all(BufferScheme::Dynamic, log, locs) == log + locs,
    decreases locs.len(),
{
    if locs.len() == 0 {
        assert(log + locs =~= log);
    } else {
        lemma_logged_all_dynamic(log, locs.drop_last());
        assert(log + locs =~= (log + locs.drop_last()).push(locs.last()));
    }
}

/// Garbage accounting: when a top-level call starts with an empty log and `n`
/// nested calls each stage one non-empty dynamic message, exactly those `n`
/// locators are released, in order, then the result's own buffer if it is
/// non-empty: `n` or `n + 1` releases. `drain_for_release` leaves the log empty.
pub proof fn lemma_garbage_accounting(nested: Seq<FatPointer>, result: FatPointer)
    requires
        forall|i: int| 0 <= i < nested.len() ==> (#[trigger] nested[i]).spec_len() > 0,
    ensures
        release_list(BufferScheme::Dynamic, logged_all(BufferScheme::Dynamic, Seq::empty(), nested), result)
            == (if result.spec_len() > 0 {
            nested.push(result)
        } else {
            nested
        }),
        release_list(BufferScheme::Dynamic, logged_all(BufferScheme::Dynamic, Seq::empty(), nested), result).len()
            == nested.len() + (if result.spec_len() > 0 {
            1int
        } else {
            0int
        }),
{
    lemma_logged_all_dynamic(Seq::empty(), nested);
    assert(Seq::<FatPointer>::empty() + nested =~= nested);
}

/// Overflow guard: a message longer than a static buffer's capacity is
/// refused with `BufferOverflow`, both when it is placed and when it is
/// staged, so no byte of it is ever written; a non-empty one that fits is
/// staged at the buffer's fixed address.
pub proof fn lemma_static_overflow(addr: u32, capacity: u32, size: nat, at: u32, len: nat)
    ensures
        len > capacity ==> placement_of(BufferScheme::Static { addr, capacity }, len)
            == Err::<Placement, WasmPluginError>(WasmPluginError::BufferOverflow),
        len > capacity ==> stage_outcome(BufferScheme::Static { addr, capacity }, size, at, len)
            == Err::<FatPointer, WasmPluginError>(WasmPluginError::BufferOverflow),
        0 < len <= capacity && addr + len <= size ==> stage_outcome(
            BufferScheme::Static { addr, capacity },
            size,
            at,
            len,
        ) == Ok::<FatPointer, WasmPluginError>(FatPointer(pack(addr, len as u32))),
{
}

} // verus!
