use vstd::prelude::*;

verus! {

/// The ways in which a request to the engine can fail.
#[derive(Debug, Clone, Copy, PartialEq, Eq, Structural)]
pub enum EngineError {
    /// No GPU adapter could be found.
    AdapterUnavailable,
    /// The platform rejected the request for a logical device.
    DeviceCreationFailed,
    /// The shader directory could not be read.
    ShaderLoadFailed,
    /// No shader is registered for the requested operation.
    OperationNotSupported,
    /// No buffer set is registered under the given identifier.
    BufferNotFound,
    /// The work for a dispatch could not be built.
    DispatchFailed,
    /// The results could not be mapped back to the host.
    ReadbackFailed,
    /// Buffers were requested before a device context was installed.
    DeviceContextUnavailable,
    /// A freshly drawn identifier is already registered.
    IdentifierInUse,
}

impl EngineError {
    /// A short human-readable description of the error.
    pub fn message(&self) -> (r: &'static str) {
        match self {
            EngineError::AdapterUnavailable => "found no adapters",
            EngineError::DeviceCreationFailed => "error requesting device",
            EngineError::ShaderLoadFailed => "could not read the shader directory",
            EngineError::OperationNotSupported => "operation not loaded",
            EngineError::BufferNotFound => "no buffers under this identifier",
            EngineError::DispatchFailed => "could not build the dispatch",
            EngineError::ReadbackFailed => "failed to run compute on gpu",
            EngineError::DeviceContextUnavailable => "no device context",
            EngineError::IdentifierInUse => "identifier already in use",
        }
    }
}

} // verus!
