//! A small GPU execution engine: a table of the GPU buffers of live arrays, a
//! registry of compute shaders keyed by operation name, the planning of a
//! dispatch, and the read-back protocol that brings results to the host.
//!
//! The engine is generic over the handles of the GPU API that drives it: the
//! device context `D`, the compiled shader module `M` and the buffer `B`.
//! Whatever talks to the device itself is left to the caller, who reports back
//! to the read-back state machine.

pub mod array;
pub mod bytes;
pub mod error;
pub mod executor;
pub mod ident;
pub mod operation;
pub mod readback;
pub mod shaders;

pub use array::Array;
pub use bytes::{decode_elements, element_bytes, shape_bytes};
pub use error::EngineError;
pub use executor::{BufferContents, Buffers, Dispatch, Executor, ELEMENT_SIZE};
pub use operation::{decode_operation, Operation};
pub use readback::{ReadbackAction, ReadbackEvent, ReadbackPhase};
pub use shaders::{shader_key, ShaderRegistry};
