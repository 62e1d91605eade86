//! Synchronous ONNX inference over installed ONNX Runtime execution providers.
//!
//! This crate holds the rules of such a library, verified: which providers are tried
//! and how they are configured, which tensors are accepted and what is returned for
//! them, when a session falls back to another provider, what a compilation may
//! publish, and how tensors travel to a device and back. Native calls, files and the
//! environment are the caller's: a function that needs native work says what is to be
//! done, and another is told what came of it.
//!
//! * [`api`]: loading, inference, fallback and compilation.
//! * [`session`]: provider registration, session metadata and an open session.
//! * [`buffers`]: reusable tensors for fixed shapes.
//! * [`cuda_transfer`]: batched copies between pinned host memory and a device.
//! * [`engine`]: model files, compiled engines and their export.
//! * [`options`]: backends and their settings.
//! * [`tensor`]: element types, shapes and elements.
//! * [`element`]: the native runtime's element types.
//! * [`diagnostics`]: advice on failures of native libraries.
//! * [`error`]: faults and how they read.
//! * [`text`]: strings as sequences of characters.
//! * [`wire`]: how deeply the messages of a model file are nested.
//! * [`laws`]: what holds of the library as a whole.
//! * [`runtime_laws`]: what holds of loading, inference and fallback.
//! * [`session_laws`]: what holds of providers, metadata and outputs.
//! * [`model_laws`]: what holds of declarations, profiles and exports.
//! * [`tensor_laws`]: what holds of counts, elements, copies and messages.
//! * [`transfer_laws`]: what holds of copies and the order of driver calls.
pub mod api;
pub mod buffers;
pub mod cuda_transfer;
pub mod diagnostics;
pub mod element;
pub mod engine;
pub mod error;
pub mod laws;
pub mod model_laws;
pub mod options;
pub mod runtime_laws;
pub mod session;
pub mod session_laws;
pub mod tensor;
pub mod tensor_laws;
pub mod text;
pub mod transfer_laws;
pub mod wire;

pub use crate::api::{Compilation, CompiledFormat, FallbackEvent, ModelInfo, OnnxRuntime};
pub use crate::error::Error;
pub use crate::options::{
    Backend, BackendSelection, CompileOptions, CompileTarget, CudaOptions, OnnxOptions,
    TensorRtOptions,
};
pub use crate::tensor::{
    element_count, DType, Tensor, TensorBuffer, TensorData, TensorDataMut, TensorSpec, TensorView,
    TensorViewMut,
};
