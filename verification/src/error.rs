//! What can go wrong, and how it reads.
//!
//! An [`Error`] is either a fault that this library detects or the text of an
//! outside failure, wrapped in any number of contexts. Messages are part of the
//! interface: fallback reports and installation advice are made of them.
use crate::tensor::DType;
use crate::text;
use vstd::prelude::*;
use vstd::string::*;

verus! {

/// A fault without further data.
#[derive(Clone, Copy, Debug, PartialEq, Eq, Structural)]
pub enum Fault {
    /// A nonempty tensor has more elements than can be counted.
    ElementCountOverflow,
    /// Source and target of a copy differ in length.
    OutputBufferLength,
    /// Source and target of a copy differ in element type.
    OutputBufferType,
    /// FP32 elements were asked of another element type.
    NotSingle,
    /// The number of inputs differs from the model's.
    InputCount,
    /// The number of outputs differs from the model's.
    OutputCount,
    /// No prepared input has the requested name.
    UnknownInput,
    /// No prepared output has the requested name.
    UnknownOutput,
    /// An output buffer does not fit the model's fixed output.
    OutputMismatch,
    /// The CUDA device ordinal is negative.
    NegativeCudaDevice,
    /// The TensorRT device ordinal is negative.
    NegativeTensorRtDevice,
    /// The TensorRT builder level is above five.
    BuildLevel,
    /// The TensorRT workspace is empty.
    Workspace,
    /// The number of TensorRT auxiliary streams is below minus one.
    AuxiliaryStreams,
    /// Some, but not all, TensorRT shape profiles are set.
    Profiles,
    /// The list of backends is empty.
    NoBackend,
    /// A thread count does not fit the native interface.
    ThreadCount,
    /// A dimension override is zero or too large.
    DimensionOverride,
    /// The TF32 option disagrees with the process environment.
    Tf32Override,
    /// A custom provider is a CUDA or TensorRT provider.
    CustomGpuProvider,
    /// The TensorRT cache directory is not Unicode.
    CachePath,
    /// Graph capture was configured for a session without fixed shapes.
    GraphShapes,
    /// Prepared buffers were asked for I/O without fixed shapes.
    BufferShapes,
    /// No backend is active.
    NoActiveBackend,
    /// The active session has no prepared buffers.
    BuffersUnavailable,
    /// The active session has no prepared inputs.
    InputsUnavailable,
    /// The prepared outputs do not belong to the current inputs.
    NoOutput,
    /// A prepared run succeeded on a backend without prepared outputs.
    FallbackUnprepared,
    /// The destination of a compilation exists.
    DestinationExists,
    /// A compilation was asked of a compiled model.
    CompileContext,
    /// A build directory was given for a compiled model.
    CompileOriginal,
    /// The model file holds no graph.
    MissingGraph,
    /// A profiled node has no name.
    ProfileNodeName,
    /// A profiled node ran outside TensorRT.
    ProfileProvider,
    /// TensorRT ran none or several partitions.
    PartitionCount,
    /// There is none or more than one engine file.
    EngineCount,
    /// A dimension exceeds the range of the model format.
    DimensionRange,
    /// A returned tensor has a negative dimension.
    NegativeOutputDimension,
    /// A copied tensor's elements are not whole bytes.
    CopyType,
    /// A copied tensor has a negative dimension.
    CopyDimension,
    /// A copied tensor has more bytes than can be counted.
    CopyOverflow,
    /// Source and target of a device copy differ in shape or type.
    CopyMismatch,
    /// The host side of a device copy is not pinned memory.
    CopyHost,
    /// The device side of a copy is on another device.
    CopyDevice,
    /// A nonempty copy has a null buffer.
    CopyNull,
    /// A device buffer has no owning context.
    CopyContext,
    /// The owning context belongs to another device.
    CopyContextDevice,
    /// A batch mixes owning contexts.
    CopyMixed,
    /// A panic interrupted a holder of the capture gate.
    Poisoned,
}

impl Fault {
    /// The message of the fault.
    pub open spec fn text(self) -> Seq<char> {
        match self {
            Fault::ElementCountOverflow => "Tensor element count overflow"@,
            Fault::OutputBufferLength => "Output buffer length mismatch"@,
            Fault::OutputBufferType => "Output buffer dtype mismatch"@,
            Fault::NotSingle => "Not an FP32 tensor"@,
            Fault::InputCount => "Input count mismatch"@,
            Fault::OutputCount => "Output count mismatch"@,
            Fault::UnknownInput => "Unknown input"@,
            Fault::UnknownOutput => "Unknown output"@,
            Fault::OutputMismatch => "Output shape/type/length mismatch"@,
            Fault::NegativeCudaDevice => "Negative CUDA device id"@,
            Fault::NegativeTensorRtDevice => "Negative TensorRT device id"@,
            Fault::BuildLevel => "TensorRT build level must be 0..=5"@,
            Fault::Workspace => "Workspace must be positive"@,
            Fault::AuxiliaryStreams => "TensorRT auxiliary streams must be -1 or nonnegative"@,
            Fault::Profiles => "Set all three TensorRT profiles or none"@,
            Fault::NoBackend => "At least one backend is required"@,
            Fault::ThreadCount => "Thread counts must fit in a signed 32-bit integer"@,
            Fault::DimensionOverride => "Invalid dimension override"@,
            Fault::Tf32Override => "TensorRT TF32 follows process NVIDIA_TF32_OVERRIDE: unset it for tf32=true, set to 0 for tf32=false"@,
            Fault::CustomGpuProvider => "Custom CUDA/TensorRT providers are not supported: use Backend::Cuda with CudaOptions or Backend::TensorRt with TensorRtOptions (CompileTarget::Cuda/TensorRt for compilation) so native-onnx can own the stream and coordinate CUDA graph capture"@,
            Fault::CachePath => "TensorRT cache path must be UTF-8"@,
            Fault::GraphShapes => "CUDA graph capture requires fixed positive native I/O shapes; set cuda_graph=false for this model"@,
            Fault::BufferShapes => "Prepared buffers require fixed, positive tensor shapes"@,
            Fault::NoActiveBackend => "No active backend"@,
            Fault::BuffersUnavailable => "Prepared buffers unavailable"@,
            Fault::InputsUnavailable => "Prepared buffers unavailable; use inference for dynamic I/O"@,
            Fault::NoOutput => "No successful output for current input"@,
            Fault::FallbackUnprepared => "Fallback ran successfully but has no prepared output; use inference for custom providers"@,
            Fault::DestinationExists => "Compiled output already exists"@,
            Fault::CompileContext => "Compile requires an ONNX graph, not an existing EPContext"@,
            Fault::CompileOriginal => "Compile requires the original ONNX graph"@,
            Fault::MissingGraph => "Missing ONNX graph"@,
            Fault::ProfileNodeName => "Missing profile node name"@,
            Fault::ProfileProvider => "Full-model engine export requires all compute in TensorRT"@,
            Fault::PartitionCount => "Full-model engine export requires exactly one TensorRT partition"@,
            Fault::EngineCount => "Full-model engine export requires one engine file"@,
            Fault::DimensionRange => "out of range integral type conversion attempted"@,
            Fault::NegativeOutputDimension => "Negative output dimension"@,
            Fault::CopyType => "CUDA copy requires a byte-addressable tensor type"@,
            Fault::CopyDimension => "Negative CUDA copy dimension"@,
            Fault::CopyOverflow => "CUDA copy byte count overflow"@,
            Fault::CopyMismatch => "CUDA copy shape/type mismatch"@,
            Fault::CopyHost => "Asynchronous CUDA copy requires ORT pinned host memory"@,
            Fault::CopyDevice => "CUDA copy device mismatch"@,
            Fault::CopyNull => "Null CUDA copy buffer"@,
            Fault::CopyContext => "CUDA tensor has no owning context"@,
            Fault::CopyContextDevice => "CUDA allocation context device mismatch"@,
            Fault::CopyMixed => "Mixed CUDA contexts in transfer batch"@,
            Fault::Poisoned => "CUDA capture coordinator poisoned by an earlier panic; restart the process"@,
        }
    }

    /// The message of the fault.
    pub fn message(self) -> (r: &'static str)
        ensures
            r@ == self.text(),
    {
        match self {
            Fault::ElementCountOverflow => "Tensor element count overflow",
            Fault::OutputBufferLength => "Output buffer length mismatch",
            Fault::OutputBufferType => "Output buffer dtype mismatch",
            Fault::NotSingle => "Not an FP32 tensor",
            Fault::InputCount => "Input count mismatch",
            Fault::OutputCount => "Output count mismatch",
            Fault::UnknownInput => "Unknown input",
            Fault::UnknownOutput => "Unknown output",
            Fault::OutputMismatch => "Output shape/type/length mismatch",
            Fault::NegativeCudaDevice => "Negative CUDA device id",
            Fault::NegativeTensorRtDevice => "Negative TensorRT device id",
            Fault::BuildLevel => "TensorRT build level must be 0..=5",
            Fault::Workspace => "Workspace must be positive",
            Fault::AuxiliaryStreams => "TensorRT auxiliary streams must be -1 or nonnegative",
            Fault::Profiles => "Set all three TensorRT profiles or none",
            Fault::NoBackend => "At least one backend is required",
            Fault::ThreadCount => "Thread counts must fit in a signed 32-bit integer",
            Fault::DimensionOverride => "Invalid dimension override",
            Fault::Tf32Override => "TensorRT TF32 follows process NVIDIA_TF32_OVERRIDE: unset it for tf32=true, set to 0 for tf32=false",
            Fault::CustomGpuProvider => "Custom CUDA/TensorRT providers are not supported: use Backend::Cuda with CudaOptions or Backend::TensorRt with TensorRtOptions (CompileTarget::Cuda/TensorRt for compilation) so native-onnx can own the stream and coordinate CUDA graph capture",
            Fault::CachePath => "TensorRT cache path must be UTF-8",
            Fault::GraphShapes => "CUDA graph capture requires fixed positive native I/O shapes; set cuda_graph=false for this model",
            Fault::BufferShapes => "Prepared buffers require fixed, positive tensor shapes",
            Fault::NoActiveBackend => "No active backend",
            Fault::BuffersUnavailable => "Prepared buffers unavailable",
            Fault::InputsUnavailable => "Prepared buffers unavailable; use inference for dynamic I/O",
            Fault::NoOutput => "No successful output for current input",
            Fault::FallbackUnprepared => "Fallback ran successfully but has no prepared output; use inference for custom providers",
            Fault::DestinationExists => "Compiled output already exists",
            Fault::CompileContext => "Compile requires an ONNX graph, not an existing EPContext",
            Fault::CompileOriginal => "Compile requires the original ONNX graph",
            Fault::MissingGraph => "Missing ONNX graph",
            Fault::ProfileNodeName => "Missing profile node name",
            Fault::ProfileProvider => "Full-model engine export requires all compute in TensorRT",
            Fault::PartitionCount => "Full-model engine export requires exactly one TensorRT partition",
            Fault::EngineCount => "Full-model engine export requires one engine file",
            Fault::DimensionRange => "out of range integral type conversion attempted",
            Fault::NegativeOutputDimension => "Negative output dimension",
            Fault::CopyType => "CUDA copy requires a byte-addressable tensor type",
            Fault::CopyDimension => "Negative CUDA copy dimension",
            Fault::CopyOverflow => "CUDA copy byte count overflow",
            Fault::CopyMismatch => "CUDA copy shape/type mismatch",
            Fault::CopyHost => "Asynchronous CUDA copy requires ORT pinned host memory",
            Fault::CopyDevice => "CUDA copy device mismatch",
            Fault::CopyNull => "Null CUDA copy buffer",
            Fault::CopyContext => "CUDA tensor has no owning context",
            Fault::CopyContextDevice => "CUDA allocation context device mismatch",
            Fault::CopyMixed => "Mixed CUDA contexts in transfer batch",
            Fault::Poisoned => "CUDA capture coordinator poisoned by an earlier panic; restart the process",
        }
    }
}

/// A fault about one named tensor.
#[derive(Clone, Copy, Debug, PartialEq, Eq, Structural)]
pub enum NamedFault {
    /// A tensor was matched against another name.
    TensorName,
    /// A tensor's storage and shape disagree.
    TensorLength,
    /// An input was given twice.
    DuplicateInput,
    /// The model has no such input.
    UnknownInput,
    /// An output was given twice.
    DuplicateOutput,
    /// There is no such output.
    UnknownOutput,
    /// An output buffer does not fit the produced tensor.
    OutputMismatch,
    /// An input or output is no dense tensor.
    NotDense,
}

impl NamedFault {
    /// What stands before the name in the message.
    pub open spec fn prefix(self) -> Seq<char> {
        match self {
            NamedFault::TensorName => "Tensor name mismatch: "@,
            NamedFault::TensorLength => "Tensor length mismatch: "@,
            NamedFault::DuplicateInput => "Duplicate input "@,
            NamedFault::UnknownInput => "Unknown input "@,
            NamedFault::DuplicateOutput => "Duplicate output "@,
            NamedFault::UnknownOutput => "Unknown output "@,
            NamedFault::OutputMismatch => "Output shape/type/length mismatch: "@,
            NamedFault::NotDense => "Only dense tensor I/O is supported: "@,
        }
    }

    fn prefix_text(self) -> (r: &'static str)
        ensures
            r@ == self.prefix(),
    {
        match self {
            NamedFault::TensorName => "Tensor name mismatch: ",
            NamedFault::TensorLength => "Tensor length mismatch: ",
            NamedFault::DuplicateInput => "Duplicate input ",
            NamedFault::UnknownInput => "Unknown input ",
            NamedFault::DuplicateOutput => "Duplicate output ",
            NamedFault::UnknownOutput => "Unknown output ",
            NamedFault::OutputMismatch => "Output shape/type/length mismatch: ",
            NamedFault::NotDense => "Only dense tensor I/O is supported: ",
        }
    }
}

/// An error of this library.
#[derive(Debug)]
#[allow(inconsistent_fields)]
pub enum Error {
    /// A fault without further data.
    Fault(Fault),
    /// A fault about one named tensor.
    Named {
        /// The fault.
        fault: NamedFault,
        /// The tensor's name.
        name: String,
    },
    /// A tensor has another element type than its model declares.
    ElementType {
        /// The tensor's name.
        name: String,
        /// The declared type.
        expected: DType,
        /// The tensor's type.
        actual: DType,
    },
    /// A tensor has another shape than its model declares.
    Shape {
        /// The tensor's name.
        name: String,
        /// The declared shape.
        expected: Option<Vec<Option<usize>>>,
        /// The tensor's shape.
        actual: Vec<usize>,
    },
    /// A model declares an element type that tensors cannot have here.
    UnsupportedType {
        /// The name of the element type.
        element_type: String,
        /// The input or output, where it is known.
        name: Option<String>,
    },
    /// Every configured backend failed.
    BackendsFailed {
        /// Whether a compiled model was to be loaded.
        ep_context: bool,
        /// One line per failed backend.
        report: String,
    },
    /// The text of a failure outside this library.
    External(String),
    /// An error with an explanation in front.
    Context {
        /// The explanation.
        context: String,
        /// The explained error.
        cause: Box<Error>,
    },
}

/// The contents of an [`Error`].
#[allow(inconsistent_fields)]
pub enum ErrorView {
    Fault(Fault),
    Named { fault: NamedFault, name: Seq<char> },
    ElementType { name: Seq<char>, expected: DType, actual: DType },
    Shape { name: Seq<char>, expected: Option<Seq<Option<usize>>>, actual: Seq<usize> },
    UnsupportedType { element_type: Seq<char>, name: Option<Seq<char>> },
    BackendsFailed { ep_context: bool, report: Seq<char> },
    External(Seq<char>),
    Context { context: Seq<char>, cause: Box<ErrorView> },
}

/// The characters of an optional string.
pub open spec fn optional_text(s: Option<String>) -> Option<Seq<char>> {
    match s {
        Some(s) => Some(s@),
        None => None,
    }
}

/// The items of an optional vector.
pub open spec fn optional_items<T>(v: Option<Vec<T>>) -> Option<Seq<T>> {
    match v {
        Some(v) => Some(v@),
        None => None,
    }
}

/// What went wrong, if anything did.
pub open spec fn failure<T>(r: Result<T, Error>) -> Option<ErrorView> {
    match r {
        Ok(_) => None,
        Err(error) => Some(error@),
    }
}

impl View for Error {
    type V = ErrorView;

    open spec fn view(&self) -> ErrorView {
        self.model()
    }
}

impl Error {
    /// The contents of the error.
    pub open spec fn model(self) -> ErrorView
        decreases self,
    {
        match self {
            Error::Fault(fault) => ErrorView::Fault(fault),
            Error::Named { fault, name } => ErrorView::Named { fault, name: name@ },
            Error::ElementType { name, expected, actual } => ErrorView::ElementType {
                name: name@,
                expected,
                actual,
            },
            Error::Shape { name, expected, actual } => ErrorView::Shape {
                name: name@,
                expected: optional_items(expected),
                actual: actual@,
            },
            Error::UnsupportedType { element_type, name } => ErrorView::UnsupportedType {
                element_type: element_type@,
                name: optional_text(name),
            },
            Error::BackendsFailed { ep_context, report } => ErrorView::BackendsFailed {
                ep_context,
                report: report@,
            },
            Error::External(text) => ErrorView::External(text@),
            Error::Context { context, cause } => ErrorView::Context {
                context: context@,
                cause: Box::new((*cause).model()),
            },
        }
    }
}

/// Dimensions as they read inside brackets.
pub open spec fn dims_text(dims: Seq<usize>) -> Seq<char>
    decreases dims.len(),
{
    if dims.len() == 0 {
        Seq::empty()
    } else if dims.len() == 1 {
        text::decimal(dims[0] as nat)
    } else {
        dims_text(dims.drop_last()) + ", "@ + text::decimal(dims.last() as nat)
    }
}

/// One declared dimension: a size, or `None` where it is dynamic.
pub open spec fn dim_text(dim: Option<usize>) -> Seq<char> {
    match dim {
        None => "None"@,
        Some(n) => "Some("@ + text::decimal(n as nat) + ")"@,
    }
}

/// Declared dimensions as they read inside brackets.
pub open spec fn declared_dims_text(dims: Seq<Option<usize>>) -> Seq<char>
    decreases dims.len(),
{
    if dims.len() == 0 {
        Seq::empty()
    } else if dims.len() == 1 {
        dim_text(dims[0])
    } else {
        declared_dims_text(dims.drop_last()) + ", "@ + dim_text(dims.last())
    }
}

/// A declared shape: `None` where even the rank is unknown.
pub open spec fn declared_shape_text(shape: Option<Seq<Option<usize>>>) -> Seq<char> {
    match shape {
        None => "None"@,
        Some(dims) => "Some(["@ + declared_dims_text(dims) + "])"@,
    }
}

fn push_dims(out: &mut String, dims: &Vec<usize>)
    ensures
        final(out)@ == old(out)@ + dims_text(dims@),
{
    let ghost start = out@;
    assert(dims@.take(0) =~= Seq::<usize>::empty());
    for i in 0..dims.len()
        invariant
            out@ == start + dims_text(dims@.take(i as int)),
    {
        let ghost before = out@;
        if i > 0 {
            out.append(", ");
        }
        text::push_decimal(out, dims[i] as u64);
        proof {
            let next = dims@.take(i + 1);
            assert(next.drop_last() =~= dims@.take(i as int));
            assert(next.last() == dims@[i as int]);
            assert(out@ =~= start + dims_text(next));
        }
    }
    assert(dims@.take(dims@.len() as int) =~= dims@);
}

fn push_declared_dims(out: &mut String, dims: &Vec<Option<usize>>)
    ensures
        final(out)@ == old(out)@ + declared_dims_text(dims@),
{
    let ghost start = out@;
    assert(dims@.take(0) =~= Seq::<Option<usize>>::empty());
    for i in 0..dims.len()
        invariant
            out@ == start + declared_dims_text(dims@.take(i as int)),
    {
        if i > 0 {
            out.append(", ");
        }
        match dims[i] {
            None => {
                out.append("None");
            },
            Some(n) => {
                out.append("Some(");
                text::push_decimal(out, n as u64);
                out.append(")");
            },
        }
        proof {
            let next = dims@.take(i + 1);
            assert(next.drop_last() =~= dims@.take(i as int));
            assert(next.last() == dims@[i as int]);
            assert(out@ =~= start + declared_dims_text(next));
        }
    }
    assert(dims@.take(dims@.len() as int) =~= dims@);
}

impl ErrorView {
    /// The outermost message.
    pub open spec fn message(self) -> Seq<char> {
        match self {
            ErrorView::Fault(fault) => fault.text(),
            ErrorView::Named { fault, name } => fault.prefix() + name,
            ErrorView::ElementType { name, expected, actual } => "Tensor "@ + name + " expects "@
                + expected.name() + ", got "@ + actual.name(),
            ErrorView::Shape { name, expected, actual } => "Tensor "@ + name + " expects shape "@
                + declared_shape_text(expected) + ", got ["@ + dims_text(actual) + "]"@,
            ErrorView::UnsupportedType { element_type, name: Some(name) } =>
                "Unsupported I/O dtype "@ + element_type + ": "@ + name,
            ErrorView::UnsupportedType { element_type, name: None } => "Unsupported I/O dtype "@
                + element_type,
            ErrorView::BackendsFailed { ep_context: true, report } =>
                "No configured backend could load the EPContext:\n"@ + report,
            ErrorView::BackendsFailed { ep_context: false, report } =>
                "All configured ONNX backends failed:\n"@ + report,
            ErrorView::External(text) => text,
            ErrorView::Context { context, cause } => context,
        }
    }

    /// All messages, from the outermost context to the cause, separated by colons.
    pub open spec fn report(self) -> Seq<char>
        decreases self,
    {
        match self {
            ErrorView::Context { context, cause } => context + ": "@ + cause.report(),
            other => other.message(),
        }
    }
}

impl Error {
    /// An error with an explanation in front.
    pub fn context(self, context: String) -> (r: Error)
        ensures
            r@ == (ErrorView::Context { context: context@, cause: Box::new(self@) }),
    {
        Error::Context { context, cause: Box::new(self) }
    }

    fn push_message(&self, out: &mut String)
        ensures
            final(out)@ == old(out)@ + self@.message(),
    {
        let ghost start = out@;
        match self {
            Error::Fault(fault) => {
                out.append(fault.message());
            },
            Error::Named { fault, name } => {
                out.append(fault.prefix_text());
                out.append(name.as_str());
            },
            Error::ElementType { name, expected, actual } => {
                out.append("Tensor ");
                out.append(name.as_str());
                out.append(" expects ");
                out.append(expected.text());
                out.append(", got ");
                out.append(actual.text());
            },
            Error::Shape { name, expected, actual } => {
                out.append("Tensor ");
                out.append(name.as_str());
                out.append(" expects shape ");
                match expected {
                    None => {
                        out.append("None");
                    },
                    Some(dims) => {
                        out.append("Some([");
                        push_declared_dims(out, dims);
                        out.append("])");
                    },
                }
                out.append(", got [");
                push_dims(out, actual);
                out.append("]");
            },
            Error::UnsupportedType { element_type, name } => {
                out.append("Unsupported I/O dtype ");
                out.append(element_type.as_str());
                match name {
                    None => {},
                    Some(name) => {
                        out.append(": ");
                        out.append(name.as_str());
                    },
                }
            },
            Error::BackendsFailed { ep_context, report } => {
                if *ep_context {
                    out.append("No configured backend could load the EPContext:\n");
                } else {
                    out.append("All configured ONNX backends failed:\n");
                }
                out.append(report.as_str());
            },
            Error::External(text) => {
                out.append(text.as_str());
            },
            Error::Context { context, cause } => {
                out.append(context.as_str());
            },
        }
        assert(out@ =~= start + self@.message());
    }

    fn push_report(&self, out: &mut String)
        ensures
            final(out)@ == old(out)@ + self@.report(),
        decreases self,
    {
        let ghost start = out@;
        match self {
            Error::Context { context, cause } => {
                out.append(context.as_str());
                out.append(": ");
                cause.push_report(out);
                assert(out@ =~= start + self@.report());
            },
            _ => {
                self.push_message(out);
            },
        }
    }

    /// The outermost message.
    pub fn message(&self) -> (r: String)
        ensures
            r@ == self@.message(),
    {
        let mut out = String::new();
        self.push_message(&mut out);
        assert(out@ =~= self@.message());
        out
    }

    /// All messages, from the outermost context to the cause, separated by colons.
    pub fn report(&self) -> (r: String)
        ensures
            r@ == self@.report(),
    {
        let mut out = String::new();
        self.push_report(&mut out);
        assert(out@ =~= self@.report());
        out
    }
}

} // verus!
