use vstd::prelude::*;
use crate::buffer::{logged, placement_of, release_list, stage_outcome, MessageBuffer, Placement};
use crate::codec::{push_bytes, Serializable};
use crate::error::WasmPluginError;
use crate::locator::FatPointer;
use crate::memory::{in_bounds, range_in_bounds};

verus! {

/// The name under which a guest exports the adapter of its function `name`.
pub open spec fn exported_name_of(name: Seq<char>) -> Seq<char> {
    "wasm_plugin_exported__"@ + name
}

/// The name under which a guest imports the host function `name`.
pub open spec fn imported_name_of(name: Seq<char>) -> Seq<char> {
    "wasm_plugin_imported__"@ + name
}

/// The name under which a guest exports the adapter of its function `name`.
pub fn exported_name(name: &str) -> (r: String)
    ensures
        r@ == exported_name_of(name@),
{
    let mut r = String::from_str("wasm_plugin_exported__");
    r.append(name);
    r
}

/// The name under which a guest imports the host function `name`.
pub fn imported_name(name: &str) -> (r: String)
    ensures
        r@ == imported_name_of(name@),
{
    let mut r = String::from_str("wasm_plugin_imported__");
    r.append(name);
    r
}

/// The version of the calling convention this library speaks: dynamic
/// buffers from the guest's allocator, and results returned as packed locators.
pub const PROTOCOL_VERSION: u32 = 1;

/// Checks the version of the calling convention a guest declares: any other
/// than `PROTOCOL_VERSION` is a `ProtocolMismatch`, refused before any call.
pub fn check_protocol_version(declared: u32) -> (r: Result<(), WasmPluginError>)
    ensures
        declared == PROTOCOL_VERSION ==> r is Ok,
        declared != PROTOCOL_VERSION ==> r == Err::<(), WasmPluginError>(WasmPluginError::ProtocolMismatch),
{
    if declared == PROTOCOL_VERSION {
        Ok(())
    } else {
        Err(WasmPluginError::ProtocolMismatch)
    }
}

/// Where a host-initiated call stands.
#[derive(Debug, Clone, Copy, PartialEq, Eq, Structural)]
pub enum CallPhase {
    /// Not begun.
    Start,
    /// Waiting for the guest's allocator to give room for the argument.
    Allocating,
    /// Waiting for the argument's bytes to be written.
    Staging,
    /// Waiting for the export to return.
    Calling,
    /// Waiting for the result's bytes.
    Reading,
    /// Freeing the call's allocations one by one.
    Releasing,
    /// Finished or failed; nothing more happens.
    Over,
}

/// What the engine reports back to a call after carrying out its last action.
pub enum Event {
    /// Start the call.
    Begin,
    /// The guest's allocator returned this address.
    Allocated(u32),
    /// The last write or free was carried out.
    Completed,
    /// The export returned this packed locator.
    Returned(u64),
    /// The bytes that the last read copied out of guest memory.
    Bytes(Vec<u8>),
    /// The guest trapped.
    Trapped,
    /// The engine could not carry out the last action, for this reason.
    Failed(WasmPluginError),
}

/// What a call asks of the engine next.
pub enum Action {
    /// Call the guest's allocator export for this many bytes.
    Allocate(u32),
    /// Copy these bytes into guest memory at the locator's address.
    Write(FatPointer, Vec<u8>),
    /// Call the named export, with the argument's locator when it takes one.
    Invoke(String, Option<FatPointer>),
    /// Copy the bytes that the locator names out of guest memory.
    Read(FatPointer),
    /// Call the guest's deallocator export on the locator.
    Free(FatPointer),
    /// The call is over; these are the bytes of its result.
    Finish(Vec<u8>),
    /// The call failed.
    Fail(WasmPluginError),
}

/// Whether `event` is the answer a call in `phase` waits for.
pub open spec fn awaited(phase: CallPhase, event: Event) -> bool {
    ||| phase == CallPhase::Start && event is Begin
    ||| phase == CallPhase::Allocating && event is Allocated
    ||| phase == CallPhase::Staging && event is Completed
    ||| phase == CallPhase::Calling && event is Returned
    ||| phase == CallPhase::Reading && event is Bytes
    ||| phase == CallPhase::Releasing && event is Completed
}

/// Whether `a`, issued with release queue `q` of which `i` entries were
/// already freed, frees the next one or, when none is left, finishes with `result`.
pub open spec fn release_action(
    q: Seq<FatPointer>,
    i: nat,
    result: Seq<u8>,
    a: Action,
    phase: CallPhase,
    next: nat,
) -> bool {
    if i < q.len() {
        a == Action::Free(q[i as int]) && phase == CallPhase::Releasing && next == i + 1
    } else {
        (a matches Action::Finish(b) && b@ == result) && phase == CallPhase::Over && next == i
    }
}

/// One host-initiated call of a guest export, from staging its argument to
/// freeing the buffers it left behind. The host drives it: it hands each
/// event to `step` and carries out the action it gets back.
pub struct HostCall {
    export: String,
    has_arg: bool,
    arg: Vec<u8>,
    arg_loc: FatPointer,
    result_loc: FatPointer,
    result: Vec<u8>,
    release: Vec<FatPointer>,
    next: usize,
    phase: CallPhase,
}

impl HostCall {
    pub closed spec fn wf(&self) -> bool {
        &&& self.next <= self.release@.len()
        &&& (self.phase == CallPhase::Allocating || self.phase == CallPhase::Staging) ==> self.has_arg
    }

    pub closed spec fn spec_phase(&self) -> CallPhase {
        self.phase
    }

    /// The mangled name of the export.
    pub closed spec fn export_view(&self) -> Seq<char> {
        self.export@
    }

    /// The argument's bytes, if the call takes one.
    pub closed spec fn argument(&self) -> Option<Seq<u8>> {
        if self.has_arg {
            Some(self.arg@)
        } else {
            None
        }
    }

    /// Where the argument was staged.
    pub closed spec fn arg_loc(&self) -> FatPointer {
        self.arg_loc
    }

    /// The locator the export returned.
    pub closed spec fn result_loc(&self) -> FatPointer {
        self.result_loc
    }

    /// The result's bytes, once read.
    pub closed spec fn result_bytes(&self) -> Seq<u8> {
        self.result@
    }

    /// The allocations to free now that the call is over.
    pub closed spec fn release_queue(&self) -> Seq<FatPointer> {
        self.release@
    }

    /// How many of them were freed.
    pub closed spec fn released(&self) -> nat {
        self.next as nat
    }

    /// A call of the export `fn_name` with no argument.
    pub fn new(fn_name: &str) -> (r: HostCall)
        ensures
            r.wf(),
            r.spec_phase() == CallPhase::Start,
            r.export_view() == exported_name_of(fn_name@),
            r.argument() is None,
    {
        HostCall {
            export: exported_name(fn_name),
            has_arg: false,
            arg: Vec::new(),
            arg_loc: FatPointer::empty(),
            result_loc: FatPointer::empty(),
            result: Vec::new(),
            release: Vec::new(),
            next: 0,
            phase: CallPhase::Start,
        }
    }

    /// A call of the export `fn_name` with an argument already encoded as `message`.
    pub fn with_message(fn_name: &str, message: Vec<u8>) -> (r: HostCall)
        ensures
            r.wf(),
            r.spec_phase() == CallPhase::Start,
            r.export_view() == exported_name_of(fn_name@),
            r.argument() == Some(message@),
    {
        HostCall {
            export: exported_name(fn_name),
            has_arg: true,
            arg: message,
            arg_loc: FatPointer::empty(),
            result_loc: FatPointer::empty(),
            result: Vec::new(),
            release: Vec::new(),
            next: 0,
            phase: CallPhase::Start,
        }
    }

    /// A call of the export `fn_name` with the argument `args`, which is encoded here.
    pub fn with_argument<A: Serializable>(fn_name: &str, args: &A) -> (r: Result<
        HostCall,
        WasmPluginError,
    >)
        ensures
            r is Ok,
            r->Ok_0.wf(),
            r->Ok_0.spec_phase() == CallPhase::Start,
            r->Ok_0.export_view() == exported_name_of(fn_name@),
            r->Ok_0.argument() == Some(A::wire(args.deep_view())),
    {
        match args.serialize() {
            Ok(message) => Ok(HostCall::with_message(fn_name, message)),
            Err(e) => Err(e),
        }
    }

    /// Where the call stands.
    pub fn phase(&self) -> (r: CallPhase)
        ensures
            r == self.spec_phase(),
    {
        self.phase
    }

    fn fail(&mut self, e: WasmPluginError) -> (a: Action)
        requires
            old(self).wf(),
        ensures
            a == Action::Fail(e),
            final(self).wf(),
            final(self).spec_phase() == CallPhase::Over,
            final(self).release_queue() == old(self).release_queue(),
            final(self).export_view() == old(self).export_view(),
            final(self).argument() == old(self).argument(),
            final(self).result_bytes() == old(self).result_bytes(),
            final(self).result_loc() == old(self).result_loc(),
            final(self).arg_loc() == old(self).arg_loc(),
    {
        self.phase = CallPhase::Over;
        Action::Fail(e)
    }

    fn release_next(&mut self) -> (a: Action)
        requires
            old(self).wf(),
        ensures
            final(self).wf(),
            release_action(
                old(self).release_queue(),
                old(self).released(),
                old(self).result_bytes(),
                a,
                final(self).spec_phase(),
                final(self).released(),
            ),
            final(self).release_queue() == old(self).release_queue(),
            final(self).export_view() == old(self).export_view(),
            final(self).argument() == old(self).argument(),
            final(self).result_bytes() == old(self).result_bytes(),
            final(self).result_loc() == old(self).result_loc(),
            final(self).arg_loc() == old(self).arg_loc(),
    {
        if self.next < self.release.len() {
            let loc = self.release[self.next];
            self.next = self.next + 1;
            self.phase = CallPhase::Releasing;
            Action::Free(loc)
        } else {
            self.phase = CallPhase::Over;
            let mut out: Vec<u8> = Vec::new();
            push_bytes(&mut out, self.result.as_slice());
            assert(out@ =~= self.result@);
            Action::Finish(out)
        }
    }

    fn start_release(&mut self, buffer: &mut MessageBuffer) -> (a: Action)
        requires
            old(self).wf(),
        ensures
            final(self).wf(),
            final(self).release_queue() == release_list(
                old(buffer).spec_scheme(),
                old(buffer).log(),
                old(self).result_loc(),
            ),
            final(buffer).spec_scheme() == old(buffer).spec_scheme(),
            final(buffer).log() == Seq::<FatPointer>::empty(),
            release_action(
                final(self).release_queue(),
                0,
                old(self).result_bytes(),
                a,
                final(self).spec_phase(),
                final(self).released(),
            ),
            final(self).export_view() == old(self).export_view(),
            final(self).argument() == old(self).argument(),
            final(self).result_bytes() == old(self).result_bytes(),
            final(self).result_loc() == old(self).result_loc(),
            final(self).arg_loc() == old(self).arg_loc(),
    {
        self.release = buffer.drain_for_release(self.result_loc);
        self.next = 0;
        self.release_next()
    }

    fn stage_argument(&mut self, memory_size: usize, addr: u32, buffer: &mut MessageBuffer) -> (a:
        Action)
        requires
            old(self).wf(),
            old(self).argument() is Some,
        ensures
            final(self).wf(),
            final(buffer).spec_scheme() == old(buffer).spec_scheme(),
            final(self).export_view() == old(self).export_view(),
            final(self).argument() == old(self).argument(),
            final(self).result_bytes() == old(self).result_bytes(),
            final(self).result_loc() == old(self).result_loc(),
            match stage_outcome(
                old(buffer).spec_scheme(),
                memory_size as nat,
                addr,
                old(self).arg@.len(),
            ) {
                Err(e) => a == Action::Fail(e) && final(self).spec_phase() == CallPhase::Over
                    && final(buffer).log() == old(buffer).log(),
                Ok(loc) => (a matches Action::Write(l, b) && l == loc && b@ == old(self).arg@)
                    && final(self).spec_phase() == CallPhase::Staging && final(self).arg_loc() == loc
                    && final(buffer).log() == logged(old(buffer).spec_scheme(), old(buffer).log(), loc),
            },
    {
        match buffer.stage(memory_size, addr, self.arg.len()) {
            Err(e) => self.fail(e),
            Ok(loc) => {
                self.arg_loc = loc;
                self.phase = CallPhase::Staging;
                let mut bytes: Vec<u8> = Vec::new();
                push_bytes(&mut bytes, self.arg.as_slice());
                assert(bytes@ =~= self.arg@);
                Action::Write(loc, bytes)
            },
        }
    }

    /// Hands the call the engine's answer to its last action, in a guest
    /// memory of `memory_size` bytes, and gives the next action.
    ///
    /// - Begin: a call with no argument, or an empty one, invokes the export at
    ///   once (an empty argument gets the zero locator and is never staged).
    ///   Otherwise the argument is placed as the buffer scheme says: a static
    ///   buffer too small for it fails with `BufferOverflow`; a static one
    ///   takes the write at once; a dynamic one first asks for an allocation.
    /// - Allocated: the argument is staged at the returned address and written.
    /// - Completed, after a write: the export is invoked with the argument's locator.
    /// - Returned: a zero-length result is never read; a result outside the
    ///   memory fails with `OutOfBounds`; any other is read.
    /// - Bytes: the result is kept, then every pending allocation is freed in
    ///   turn (the garbage log, then the result's own buffer), then the call
    ///   finishes with the result.
    /// - Failed: the call fails with the reason given.
    /// - Trapped, or an event the call does not wait for: `WasmerRuntimeError`.
    pub fn step(&mut self, event: Event, memory_size: usize, buffer: &mut MessageBuffer) -> (a:
        Action)
        requires
            old(self).wf(),
        ensures
            final(self).wf(),
            final(buffer).spec_scheme() == old(buffer).spec_scheme(),
            final(self).export_view() == old(self).export_view(),
            final(self).argument() == old(self).argument(),
            old(self).spec_phase() == CallPhase::Over ==> a == Action::Fail(WasmPluginError::WasmerRuntimeError)
                && final(self).spec_phase() == CallPhase::Over && final(buffer).log() == old(buffer).log(),
            old(self).spec_phase() != CallPhase::Over && event is Trapped ==> a == Action::Fail(WasmPluginError::WasmerRuntimeError)
                && final(self).spec_phase() == CallPhase::Over && final(buffer).log() == old(buffer).log(),
            old(self).spec_phase() != CallPhase::Over && event is Failed ==> a == Action::Fail(event->Failed_0)
                && final(self).spec_phase() == CallPhase::Over && final(buffer).log() == old(buffer).log(),
            old(self).spec_phase() != CallPhase::Over && !(event is Trapped) && !(event is Failed)
                && !awaited(old(self).spec_phase(), event) ==> a == Action::Fail(WasmPluginError::WasmerRuntimeError)
                && final(self).spec_phase() == CallPhase::Over && final(buffer).log() == old(buffer).log(),
            old(self).spec_phase() == CallPhase::Start && event is Begin ==> match old(self).argument() {
                None => (a matches Action::Invoke(n, l) && n@ == old(self).export_view() && l is None)
                    && final(self).spec_phase() == CallPhase::Calling && final(buffer).log() == old(buffer).log(),
                Some(m) => if m.len() == 0 {
                    (a matches Action::Invoke(n, l) && n@ == old(self).export_view() && l == Some(FatPointer(0)))
                        && final(self).spec_phase() == CallPhase::Calling && final(self).arg_loc() == FatPointer(0)
                        && final(buffer).log() == old(buffer).log()
                } else {
                    match placement_of(old(buffer).spec_scheme(), m.len()) {
                        Err(e) => a == Action::Fail(e) && final(self).spec_phase() == CallPhase::Over
                            && final(buffer).log() == old(buffer).log(),
                        Ok(Placement::Allocate(n)) => a == Action::Allocate(n)
                            && final(self).spec_phase() == CallPhase::Allocating
                            && final(buffer).log() == old(buffer).log(),
                        Ok(Placement::At(addr)) => match stage_outcome(old(buffer).spec_scheme(), memory_size as nat, addr, m.len()) {
                            Err(e) => a == Action::Fail(e) && final(self).spec_phase() == CallPhase::Over
                                && final(buffer).log() == old(buffer).log(),
                            Ok(loc) => (a matches Action::Write(l, b) && l == loc && b@ == m)
                                && final(self).spec_phase() == CallPhase::Staging && final(self).arg_loc() == loc
                                && final(buffer).log() == logged(old(buffer).spec_scheme(), old(buffer).log(), loc),
                        },
                    }
                }
            },
            old(self).spec_phase() == CallPhase::Allocating && event is Allocated ==> match stage_outcome(
                old(buffer).spec_scheme(),
                memory_size as nat,
                event->Allocated_0,
                old(self).argument().unwrap().len(),
            ) {
                Err(e) => a == Action::Fail(e) && final(self).spec_phase() == CallPhase::Over
                    && final(buffer).log() == old(buffer).log(),
                Ok(loc) => (a matches Action::Write(l, b) && l == loc && b@ == old(self).argument().unwrap())
                    && final(self).spec_phase() == CallPhase::Staging && final(self).arg_loc() == loc
                    && final(buffer).log() == logged(old(buffer).spec_scheme(), old(buffer).log(), loc),
            },
            old(self).spec_phase() == CallPhase::Staging && event is Completed ==> (a matches Action::Invoke(n, l)
                && n@ == old(self).export_view() && l == Some(old(self).arg_loc()))
                && final(self).spec_phase() == CallPhase::Calling && final(buffer).log() == old(buffer).log(),
            old(self).spec_phase() == CallPhase::Calling && event is Returned ==> {
                let loc = FatPointer(event->Returned_0);
                if loc.spec_len() == 0 {
                    final(self).release_queue() == release_list(old(buffer).spec_scheme(), old(buffer).log(), loc)
                        && final(buffer).log() == Seq::<FatPointer>::empty()
                        && final(self).result_bytes() == Seq::<u8>::empty()
                        && final(self).result_loc() == loc
                        && release_action(final(self).release_queue(), 0, Seq::empty(), a,
                            final(self).spec_phase(), final(self).released())
                } else if !in_bounds(memory_size as nat, loc.spec_ptr() as nat, loc.spec_len() as nat) {
                    a == Action::Fail(WasmPluginError::OutOfBounds) && final(self).spec_phase() == CallPhase::Over
                        && final(buffer).log() == old(buffer).log()
                } else {
                    a == Action::Read(loc) && final(self).spec_phase() == CallPhase::Reading
                        && final(self).result_loc() == loc && final(buffer).log() == old(buffer).log()
                }
            },
            old(self).spec_phase() == CallPhase::Reading && event is Bytes ==> if event->Bytes_0@.len()
                == old(self).result_loc().spec_len() {
                final(self).release_queue() == release_list(old(buffer).spec_scheme(), old(buffer).log(), old(self).result_loc())
                    && final(buffer).log() == Seq::<FatPointer>::empty()
                    && final(self).result_bytes() == event->Bytes_0@
                    && final(self).result_loc() == old(self).result_loc()
                    && release_action(final(self).release_queue(), 0, event->Bytes_0@, a,
                        final(self).spec_phase(), final(self).released())
            } else {
                a == Action::Fail(WasmPluginError::OutOfBounds) && final(self).spec_phase() == CallPhase::Over
                    && final(buffer).log() == old(buffer).log()
            },
            old(self).spec_phase() == CallPhase::Releasing && event is Completed ==> final(self).release_queue()
                == old(self).release_queue() && final(buffer).log() == old(buffer).log()
                && final(self).result_bytes() == old(self).result_bytes()
                && final(self).result_loc() == old(self).result_loc()
                && release_action(old(self).release_queue(), old(self).released(), old(self).result_bytes(), a,
                    final(self).spec_phase(), final(self).released()),
    {
        if self.phase == CallPhase::Over {
            return Action::Fail(WasmPluginError::WasmerRuntimeError);
        }
        match event {
            Event::Trapped => self.fail(WasmPluginError::WasmerRuntimeError),
            Event::Failed(e) => self.fail(e),
            Event::Begin => {
                if self.phase != CallPhase::Start {
                    return self.fail(WasmPluginError::WasmerRuntimeError);
                }
                if !self.has_arg {
                    self.phase = CallPhase::Calling;
                    return Action::Invoke(self.export.clone(), None);
                }
                let len = self.arg.len();
                if len == 0 {
                    self.arg_loc = FatPointer::empty();
                    self.phase = CallPhase::Calling;
                    return Action::Invoke(self.export.clone(), Some(self.arg_loc));
                }
                match buffer.placement(len) {
                    Err(e) => self.fail(e),
                    Ok(Placement::Allocate(n)) => {
                        self.phase = CallPhase::Allocating;
                        Action::Allocate(n)
                    },
                    Ok(Placement::At(addr)) => self.stage_argument(memory_size, addr, buffer),
                }
            },
            Event::Allocated(addr) => {
                if self.phase != CallPhase::Allocating {
                    return self.fail(WasmPluginError::WasmerRuntimeError);
                }
                self.stage_argument(memory_size, addr, buffer)
            },
            Event::Completed => {
                if self.phase == CallPhase::Staging {
                    self.phase = CallPhase::Calling;
                    Action::Invoke(self.export.clone(), Some(self.arg_loc))
                } else if self.phase == CallPhase::Releasing {
                    self.release_next()
                } else {
                    self.fail(WasmPluginError::WasmerRuntimeError)
                }
            },
            Event::Returned(w) => {
                if self.phase != CallPhase::Calling {
                    return self.fail(WasmPluginError::WasmerRuntimeError);
                }
                let loc = FatPointer(w);
                self.result_loc = loc;
                if loc.is_empty() {
                    self.result = Vec::new();
                    self.start_release(buffer)
                } else if !range_in_bounds(memory_size, loc.ptr(), loc.len()) {
                    self.fail(WasmPluginError::OutOfBounds)
                } else {
                    self.phase = CallPhase::Reading;
                    Action::Read(loc)
                }
            },
            Event::Bytes(bytes) => {
                if self.phase != CallPhase::Reading {
                    return self.fail(WasmPluginError::WasmerRuntimeError);
                }
                if bytes.len() as u64 != self.result_loc.len() as u64 {
                    return self.fail(WasmPluginError::OutOfBounds);
                }
                self.result = bytes;
                self.start_release(buffer)
            },
        }
    }
}

} // verus!
