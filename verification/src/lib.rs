//! Safe, verified building blocks for driving the MNN inference engine through its
//! thin C interface: settings, argument checks, status handling and result assembly.
//!
//! Every operation on a native engine is split at the native call: a `prepare_*` or
//! checking step decides whether the call is made and with what, and a `finish_*`
//! step turns what the native side reported into the result.

pub mod config;
pub mod engine;
pub mod error;
pub mod laws;
pub mod module;
pub mod status;
pub mod tensor;

pub use config::{Backend, DataFormat, InferenceConfig, MemoryMode, NativeConfig, PrecisionMode};
pub use engine::{InferenceEngine, SessionPool, ShapeReport, SharedRuntime};
pub use error::{MnnError, Result};
pub use module::{ModuleEngine, NamedInput, NamedOutput, NativeOutput};
pub use status::{get_version, ErrorCode};
pub use tensor::{TensorData, TensorType, MAX_DIMS};
