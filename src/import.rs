use vstd::prelude::*;
use crate::buffer::{logged, placement_of, stage_outcome, MessageBuffer, Placement};
use crate::codec::{push_bytes, Deserializable, Serializable};
use crate::error::WasmPluginError;
use crate::locator::FatPointer;
use crate::memory::{in_bounds, range_in_bounds};

verus! {

/// The calling shape of a function that crosses the boundary: whether it
/// takes one (possibly tupled) argument and whether it returns a value.
/// It is fixed when the function is registered and never varies per call.
#[derive(Debug, Clone, Copy, PartialEq, Eq, Structural)]
pub struct FnShape {
    pub has_arg: bool,
    pub has_return: bool,
}

/// Where a guest's call of a host-registered import stands.
#[derive(Debug, Clone, Copy, PartialEq, Eq, Structural)]
pub enum ImportPhase {
    /// Not begun.
    Start,
    /// Waiting for the argument's bytes.
    Reading,
    /// Waiting for the handler's encoded result.
    Handling,
    /// Waiting for the guest's allocator to give room for the result.
    Allocating,
    /// Waiting for the result's bytes to be written.
    Staging,
    /// Returned or failed; nothing more happens.
    Over,
}

/// What the engine reports back to an import call.
pub enum ImportEvent {
    /// Start the call.
    Begin,
    /// The bytes that the last read copied out of guest memory.
    Bytes(Vec<u8>),
    /// The handler ran; these are its encoded result.
    Handled(Vec<u8>),
    /// The guest's allocator returned this address.
    Allocated(u32),
    /// The last write was carried out.
    Completed,
    /// The engine or the handler could not carry out the last action, for this reason.
    Failed(WasmPluginError),
}

/// What an import call asks of the engine next.
pub enum ImportAction {
    /// Copy the bytes that the locator names out of guest memory.
    Read(FatPointer),
    /// Run the handler on these encoded argument bytes.
    Handle(Vec<u8>),
    /// Call the guest's allocator export for this many bytes.
    Allocate(u32),
    /// Copy these bytes into guest memory at the locator's address.
    Write(FatPointer, Vec<u8>),
    /// Return this packed locator to the guest.
    Return(u64),
    /// The call failed.
    Fail(WasmPluginError),
}

/// A guest's call of a host-registered import: reading its argument, running
/// the handler, staging the result and returning its locator. Allocations
/// made here go to the instance's garbage log and are freed when the
/// outermost host call is over.
pub struct ImportCall {
    shape: FnShape,
    arg_loc: FatPointer,
    result: Vec<u8>,
    result_loc: FatPointer,
    phase: ImportPhase,
}

impl ImportCall {
    pub closed spec fn spec_phase(&self) -> ImportPhase {
        self.phase
    }

    pub closed spec fn spec_shape(&self) -> FnShape {
        self.shape
    }

    /// The locator of the argument the guest passed.
    pub closed spec fn arg_loc(&self) -> FatPointer {
        self.arg_loc
    }

    /// The handler's encoded result, once it ran.
    pub closed spec fn result_bytes(&self) -> Seq<u8> {
        self.result@
    }

    /// Where the result was staged.
    pub closed spec fn result_loc(&self) -> FatPointer {
        self.result_loc
    }

    /// A call of an import of the given shape, with the argument range the
    /// guest passed (ignored when the import takes no argument).
    pub fn new(shape: FnShape, ptr: u32, len: u32) -> (r: ImportCall)
        ensures
            r.spec_phase() == ImportPhase::Start,
            r.spec_shape() == shape,
            r.arg_loc() == FatPointer(crate::locator::pack(ptr, len)),
    {
        ImportCall {
            shape,
            arg_loc: FatPointer::new(ptr, len),
            result: Vec::new(),
            result_loc: FatPointer::empty(),
            phase: ImportPhase::Start,
        }
    }

    /// Where the call stands.
    pub fn phase(&self) -> (r: ImportPhase)
        ensures
            r == self.spec_phase(),
    {
        self.phase
    }

    fn fail(&mut self, e: WasmPluginError) -> (a: ImportAction)
        ensures
            a == ImportAction::Fail(e),
            final(self).spec_phase() == ImportPhase::Over,
            final(self).spec_shape() == old(self).spec_shape(),
            final(self).result_bytes() == old(self).result_bytes(),
            final(self).arg_loc() == old(self).arg_loc(),
    {
        self.phase = ImportPhase::Over;
        ImportAction::Fail(e)
    }

    fn stage_result(&mut self, memory_size: usize, addr: u32, buffer: &mut MessageBuffer) -> (a:
        ImportAction)
        ensures
            final(self).result_bytes() == old(self).result_bytes(),
            final(self).spec_shape() == old(self).spec_shape(),
            final(buffer).spec_scheme() == old(buffer).spec_scheme(),
            final(self).arg_loc() == old(self).arg_loc(),
            match stage_outcome(
                old(buffer).spec_scheme(),
                memory_size as nat,
                addr,
                old(self).result_bytes().len(),
            ) {
                Err(e) => a == ImportAction::Fail(e) && final(self).spec_phase() == ImportPhase::Over
                    && final(buffer).log() == old(buffer).log(),
                Ok(loc) => (a matches ImportAction::Write(l, b) && l == loc && b@ == old(self).result_bytes()) && final(self).spec_phase() == ImportPhase::Staging
                    && final(self).result_loc() == loc && final(buffer).log() == logged(
                    old(buffer).spec_scheme(),
                    old(buffer).log(),
                    loc,
                ),
            },
    {
        match buffer.stage(memory_size, addr, self.result.len()) {
            Err(e) => self.fail(e),
            Ok(loc) => {
                self.result_loc = loc;
                self.phase = ImportPhase::Staging;
                let mut bytes: Vec<u8> = Vec::new();
                push_bytes(&mut bytes, self.result.as_slice());
                assert(bytes@ =~= self.result@);
                ImportAction::Write(loc, bytes)
            },
        }
    }

    /// Hands the call the engine's answer to its last action, in a guest
    /// memory of `memory_size` bytes, and gives the next action.
    ///
    /// - Begin: an import that takes an argument has its bytes read, unless
    ///   the range is empty or reaches past the memory (`OutOfBounds`); the
    ///   handler then runs on them.
    /// - Handled: an import with no return value, or an empty result, returns
    ///   the zero locator and stages nothing. Otherwise the result is placed as
    ///   the buffer scheme says and written, and its locator returned.
    /// - Failed: the call fails with the reason given.
    /// - Any other event the call does not wait for: `WasmerRuntimeError`.
    pub fn step(&mut self, event: ImportEvent, memory_size: usize, buffer: &mut MessageBuffer) -> (a:
        ImportAction)
        ensures
            final(buffer).spec_scheme() == old(buffer).spec_scheme(),
            final(self).spec_shape() == old(self).spec_shape(),
            final(self).arg_loc() == old(self).arg_loc(),
            event is Failed ==> a == ImportAction::Fail(event->Failed_0) && final(self).spec_phase()
                == ImportPhase::Over && final(buffer).log() == old(buffer).log(),
            old(self).spec_phase() == ImportPhase::Start && event is Begin ==> {
                let loc = old(self).arg_loc();
                if old(self).spec_shape().has_arg && loc.spec_len() > 0 {
                    if in_bounds(memory_size as nat, loc.spec_ptr() as nat, loc.spec_len() as nat) {
                        a == ImportAction::Read(loc) && final(self).spec_phase()
                            == ImportPhase::Reading
                    } else {
                        a == ImportAction::Fail(WasmPluginError::OutOfBounds)
                            && final(self).spec_phase() == ImportPhase::Over
                    }
                } else {
                    (a matches ImportAction::Handle(b) && b@.len() == 0) && final(self).spec_phase()
                        == ImportPhase::Handling
                }
            } && final(buffer).log() == old(buffer).log(),
            old(self).spec_phase() == ImportPhase::Reading && event is Bytes ==> if event->Bytes_0@.len()
                == old(self).arg_loc().spec_len() {
                (a matches ImportAction::Handle(b) && b@ == event->Bytes_0@) && final(self).spec_phase() == ImportPhase::Handling
            } else {
                a == ImportAction::Fail(WasmPluginError::OutOfBounds) && final(self).spec_phase()
                    == ImportPhase::Over
            } && final(buffer).log() == old(buffer).log(),
            old(self).spec_phase() == ImportPhase::Handling && event is Handled ==> {
                let m = event->Handled_0@;
                if !old(self).spec_shape().has_return || m.len() == 0 {
                    a == ImportAction::Return(0) && final(self).spec_phase() == ImportPhase::Over
                        && final(buffer).log() == old(buffer).log()
                } else {
                    match placement_of(old(buffer).spec_scheme(), m.len()) {
                        Err(e) => a == ImportAction::Fail(e) && final(self).spec_phase()
                            == ImportPhase::Over && final(buffer).log() == old(buffer).log(),
                        Ok(Placement::Allocate(n)) => a == ImportAction::Allocate(n) && final(self).spec_phase() == ImportPhase::Allocating && final(self).result_bytes()
                            == m && final(buffer).log() == old(buffer).log(),
                        Ok(Placement::At(addr)) => match stage_outcome(
                            old(buffer).spec_scheme(),
                            memory_size as nat,
                            addr,
                            m.len(),
                        ) {
                            Err(e) => a == ImportAction::Fail(e) && final(self).spec_phase()
                                == ImportPhase::Over && final(buffer).log() == old(buffer).log(),
                            Ok(loc) => (a matches ImportAction::Write(l, b) && l == loc && b@ == m)
                                && final(self).spec_phase() == ImportPhase::Staging && final(self).result_loc() == loc && final(buffer).log() == logged(
                                old(buffer).spec_scheme(),
                                old(buffer).log(),
                                loc,
                            ),
                        },
                    }
                }
            },
            old(self).spec_phase() == ImportPhase::Allocating && event is Allocated ==> match stage_outcome(
                old(buffer).spec_scheme(),
                memory_size as nat,
                event->Allocated_0,
                old(self).result_bytes().len(),
            ) {
                Err(e) => a == ImportAction::Fail(e) && final(self).spec_phase()
                    == ImportPhase::Over && final(buffer).log() == old(buffer).log(),
                Ok(loc) => (a matches ImportAction::Write(l, b) && l == loc && b@ == old(self).result_bytes()) && final(self).spec_phase() == ImportPhase::Staging && final(self).result_loc() == loc && final(buffer).log() == logged(
                    old(buffer).spec_scheme(),
                    old(buffer).log(),
                    loc,
                ),
            },
            old(self).spec_phase() == ImportPhase::Staging && event is Completed ==> a
                == ImportAction::Return(old(self).result_loc().0) && final(self).spec_phase()
                == ImportPhase::Over && final(buffer).log() == old(buffer).log(),
            !(old(self).spec_phase() == ImportPhase::Start && event is Begin) && !(old(self).spec_phase() == ImportPhase::Reading && event is Bytes) && !(old(self).spec_phase()
                == ImportPhase::Handling && event is Handled) && !(old(self).spec_phase()
                == ImportPhase::Allocating && event is Allocated) && !(old(self).spec_phase()
                == ImportPhase::Staging && event is Completed) && !(event is Failed) ==> a == ImportAction::Fail(
                WasmPluginError::WasmerRuntimeError,
            ) && final(self).spec_phase() == ImportPhase::Over && final(buffer).log() == old(buffer).log(),
    {
        match event {
            ImportEvent::Failed(e) => self.fail(e),
            ImportEvent::Begin => {
                if self.phase != ImportPhase::Start {
                    return self.fail(WasmPluginError::WasmerRuntimeError);
                }
                let loc = self.arg_loc;
                if self.shape.has_arg && !loc.is_empty() {
                    if range_in_bounds(memory_size, loc.ptr(), loc.len()) {
                        self.phase = ImportPhase::Reading;
                        ImportAction::Read(loc)
                    } else {
                        self.fail(WasmPluginError::OutOfBounds)
                    }
                } else {
                    self.phase = ImportPhase::Handling;
                    ImportAction::Handle(Vec::new())
                }
            },
            ImportEvent::Bytes(bytes) => {
                if self.phase != ImportPhase::Reading {
                    return self.fail(WasmPluginError::WasmerRuntimeError);
                }
                if bytes.len() as u64 != self.arg_loc.len() as u64 {
                    return self.fail(WasmPluginError::OutOfBounds);
                }
                self.phase = ImportPhase::Handling;
                ImportAction::Handle(bytes)
            },
            ImportEvent::Handled(message) => {
                if self.phase != ImportPhase::Handling {
                    return self.fail(WasmPluginError::WasmerRuntimeError);
                }
                if !self.shape.has_return || message.len() == 0 {
                    self.phase = ImportPhase::Over;
                    return ImportAction::Return(0);
                }
                let len = message.len();
                self.result = message;
                match buffer.placement(len) {
                    Err(e) => self.fail(e),
                    Ok(Placement::Allocate(n)) => {
                        self.phase = ImportPhase::Allocating;
                        ImportAction::Allocate(n)
                    },
                    Ok(Placement::At(addr)) => self.stage_result(memory_size, addr, buffer),
                }
            },
            ImportEvent::Allocated(addr) => {
                if self.phase != ImportPhase::Allocating {
                    return self.fail(WasmPluginError::WasmerRuntimeError);
                }
                self.stage_result(memory_size, addr, buffer)
            },
            ImportEvent::Completed => {
                if self.phase != ImportPhase::Staging {
                    return self.fail(WasmPluginError::WasmerRuntimeError);
                }
                self.phase = ImportPhase::Over;
                ImportAction::Return(self.result_loc.0)
            },
        }
    }
}

/// Runs a handler on an encoded argument: decodes it as an `A`, calls `f`,
/// and encodes what it returns. Bytes that hold no `A` give
/// `DeserializationError` and the handler is not called.
pub fn handle_encoded<A: Deserializable, R: Serializable, F: Fn(A) -> R>(f: &F, message: &[u8]) -> (r:
    Result<Vec<u8>, WasmPluginError>)
    requires
        forall|a: A| #[trigger] f.requires((a,)),
    ensures
        match A::parse(message@) {
            Some((m, k)) => if k == message@.len() {
                r is Ok && exists|a: A, v: R|
                    a.deep_view() == m && #[trigger] f.ensures((a,), v) && R::encodable(v.deep_view())
                        && r->Ok_0@ == R::wire(
                        v.deep_view(),
                    )
            } else {
                r == Err::<Vec<u8>, WasmPluginError>(WasmPluginError::DeserializationError)
            },
            None => r == Err::<Vec<u8>, WasmPluginError>(WasmPluginError::DeserializationError),
        },
{
    let arg = match A::deserialize(message) {
        Ok(a) => a,
        Err(e) => return Err(e),
    };
    let v = f(arg);
    match v.serialize() {
        Ok(b) => Ok(b),
        Err(e) => Err(e),
    }
}

} // verus!
