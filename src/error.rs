use vstd::prelude::*;

verus! {

/// Errors returned when loading plugins or calling their functions.
#[derive(Debug, Clone, Copy, PartialEq, Eq, Structural)]
pub enum WasmPluginError {
    /// The module bytes could not be compiled by the execution engine.
    WasmerCompileError,
    /// The module could not be instantiated (a missing import, memory limits).
    WasmerInstantiationError,
    /// A trap happened while the guest was running.
    WasmerRuntimeError,
    /// The module bytes could not be loaded.
    IoError,
    /// An argument could not be encoded.
    SerializationError,
    /// A value could not be decoded: the bytes do not hold a value of the expected shape.
    DeserializationError,
    /// A message does not fit in the fixed capacity of a static buffer.
    BufferOverflow,
    /// A byte range reaches past the end of the guest's linear memory.
    OutOfBounds,
    /// The guest exports no function under the requested name.
    FunctionNotFound,
    /// The guest was built for another version of the calling convention.
    ProtocolMismatch,
}

impl WasmPluginError {
    /// A sentence that describes the error.
    pub fn message(&self) -> &'static str {
        match self {
            WasmPluginError::WasmerCompileError => "The plugin's module could not be compiled",
            WasmPluginError::WasmerInstantiationError => "The plugin's module could not be instantiated",
            WasmPluginError::WasmerRuntimeError => "The plugin trapped while running",
            WasmPluginError::IoError => "The plugin's module could not be loaded",
            WasmPluginError::SerializationError => "There was a problem serializing the argument to the function call",
            WasmPluginError::DeserializationError => "There was a problem deserializing the value returned by the plugin function. This almost certainly means that the type at the call site does not match the type in the plugin's function signature.",
            WasmPluginError::BufferOverflow => "The message does not fit in the plugin's message buffer",
            WasmPluginError::OutOfBounds => "The message reaches past the end of the plugin's memory",
            WasmPluginError::FunctionNotFound => "The plugin exports no function of that name",
            WasmPluginError::ProtocolMismatch => "The plugin was built for another version of the calling convention",
        }
    }
}

} // verus!
