//! Actionable native-library failures without disguising model or option errors.
use crate::error::{Error, ErrorView};
use crate::options::Backend;
use crate::text::{concat, contains, lowercase, lowercase_chars, occurs};
use vstd::prelude::*;
use vstd::string::*;

verus! {

/// Where to find ONNX Runtime when the library at `path` cannot be used.
pub open spec fn runtime_advice(path: Seq<char>) -> Seq<char> {
    "Cannot load ONNX Runtime at '"@ + path
        + "'. Install ONNX Runtime >= 1.27 (C API 27) for this process architecture and set ORT_DYLIB_PATH or OnnxOptions::runtime_path to its shared library (libonnxruntime.so, libonnxruntime.dylib, or onnxruntime.dll). Make its dependencies visible via LD_LIBRARY_PATH on Linux, DYLD_LIBRARY_PATH on macOS, or PATH on Windows. https://onnxruntime.ai/docs/install/"@
}

/// Explain why ONNX Runtime could not be loaded from `path`.
pub fn runtime_error(path: &str, error: String) -> (r: Error)
    ensures
        r@ == (ErrorView::Context {
            context: runtime_advice(path@),
            cause: Box::new(ErrorView::External(error@)),
        }),
{
    let mut context = concat("Cannot load ONNX Runtime at '", path);
    context.append(
        "'. Install ONNX Runtime >= 1.27 (C API 27) for this process architecture and set ORT_DYLIB_PATH or OnnxOptions::runtime_path to its shared library (libonnxruntime.so, libonnxruntime.dylib, or onnxruntime.dll). Make its dependencies visible via LD_LIBRARY_PATH on Linux, DYLD_LIBRARY_PATH on macOS, or PATH on Windows. https://onnxruntime.ai/docs/install/",
    );
    assert(context@ =~= runtime_advice(path@));
    Error::External(error).context(context)
}

/// Whether a message, in lower case, says that there is no usable GPU.
pub open spec fn is_gpu_failure(message: Seq<char>) -> bool {
    ||| occurs(message, "no cuda-capable device"@)
    ||| occurs(message, "cuda driver version is insufficient"@)
}

/// Whether a message, in lower case, says that a native library is missing.
pub open spec fn is_library_failure(message: Seq<char>) -> bool {
    ||| occurs(message, "failed to load"@)
    ||| occurs(message, "cannot open shared object"@)
    ||| occurs(message, "loadlibrary"@)
    ||| occurs(message, "not enabled"@)
    ||| occurs(message, "not available"@)
    ||| occurs(message, "not supported in this build"@)
    ||| occurs(message, "unable to load"@)
    ||| occurs(message, "could not load"@)
    ||| occurs(message, "code 126"@)
    ||| occurs(message, "code 127"@)
    ||| occurs(message, "error 126"@)
    ||| occurs(message, "error 127"@)
}

fn gpu_failure(message: &Vec<char>) -> (r: bool)
    ensures
        r == is_gpu_failure(message@),
{
    contains(message, "no cuda-capable device")
        || contains(message, "cuda driver version is insufficient")
}

fn library_failure(message: &Vec<char>) -> (r: bool)
    ensures
        r == is_library_failure(message@),
{
    contains(message, "failed to load")
        || contains(message, "cannot open shared object")
        || contains(message, "loadlibrary")
        || contains(message, "not enabled")
        || contains(message, "not available")
        || contains(message, "not supported in this build")
        || contains(message, "unable to load")
        || contains(message, "could not load")
        || contains(message, "code 126")
        || contains(message, "code 127")
        || contains(message, "error 126")
        || contains(message, "error 127")
}

/// What to do about a host without a usable GPU.
pub open spec fn gpu_advice() -> Seq<char> {
    "CUDA cannot access a compatible GPU. Check GPU access in the host/container and install the NVIDIA driver required by your CUDA runtime (R580 or newer for CUDA 13.x). Use OnnxOptions::cpu() for CPU-only inference."@
}

/// What to install for a backend.
pub open spec fn install_advice(backend: Backend) -> Seq<char> {
    match backend {
        Backend::TensorRt => "Install an ONNX Runtime >= 1.27 GPU build with the "@ + backend.label()
            + " provider. Standard ORT 1.27+ GPU packages require CUDA 13.x (>= 13.0), cuDNN 9.x and a compatible NVIDIA driver (R580 or newer for CUDA 13; >= 580.65.06 for the validated Linux CUDA 13/cuDNN 9.20 stack)."@
            + " For TensorRT install the exact major/minor version required by that ORT build (validated baseline: TensorRT 10.15.1, ABI 10; TensorRT 11 is not a substitute)."@
            + " Custom ORT builds need the CUDA/cuDNN/TensorRT versions they were built against. Add their library directories to LD_LIBRARY_PATH (Linux) or PATH (Windows) before starting the process. For CPU-only inference use OnnxOptions::cpu(). https://onnxruntime.ai/docs/execution-providers/CUDA-ExecutionProvider.html"@,
        Backend::Cuda => "Install an ONNX Runtime >= 1.27 GPU build with the "@ + backend.label()
            + " provider. Standard ORT 1.27+ GPU packages require CUDA 13.x (>= 13.0), cuDNN 9.x and a compatible NVIDIA driver (R580 or newer for CUDA 13; >= 580.65.06 for the validated Linux CUDA 13/cuDNN 9.20 stack)."@
            + " Custom ORT builds need the CUDA/cuDNN/TensorRT versions they were built against. Add their library directories to LD_LIBRARY_PATH (Linux) or PATH (Windows) before starting the process. For CPU-only inference use OnnxOptions::cpu(). https://onnxruntime.ai/docs/execution-providers/CUDA-ExecutionProvider.html"@,
        Backend::CoreMl => "Install an ONNX Runtime >= 1.27 build with CoreML support and use macOS >= 12 for MLProgram. For CPU-only inference use OnnxOptions::cpu()."@,
        Backend::Cpu => "Install ONNX Runtime >= 1.27 with its CPU provider and set ORT_DYLIB_PATH to the shared library."@,
        Backend::Custom { .. } => "Install an ONNX Runtime >= 1.27 build containing this provider and the native dependency versions required by that build."@,
    }
}

fn push_install_advice(out: &mut String, backend: &Backend)
    ensures
        final(out)@ == old(out)@ + install_advice(*backend),
{
    let ghost start = out@;
    match backend {
        Backend::TensorRt | Backend::Cuda => {
            out.append("Install an ONNX Runtime >= 1.27 GPU build with the ");
            out.append(backend.name());
            out.append(
                " provider. Standard ORT 1.27+ GPU packages require CUDA 13.x (>= 13.0), cuDNN 9.x and a compatible NVIDIA driver (R580 or newer for CUDA 13; >= 580.65.06 for the validated Linux CUDA 13/cuDNN 9.20 stack).",
            );
            if let Backend::TensorRt = backend {
                out.append(
                    " For TensorRT install the exact major/minor version required by that ORT build (validated baseline: TensorRT 10.15.1, ABI 10; TensorRT 11 is not a substitute).",
                );
            }
            out.append(
                " Custom ORT builds need the CUDA/cuDNN/TensorRT versions they were built against. Add their library directories to LD_LIBRARY_PATH (Linux) or PATH (Windows) before starting the process. For CPU-only inference use OnnxOptions::cpu(). https://onnxruntime.ai/docs/execution-providers/CUDA-ExecutionProvider.html",
            );
        },
        Backend::CoreMl => {
            out.append(
                "Install an ONNX Runtime >= 1.27 build with CoreML support and use macOS >= 12 for MLProgram. For CPU-only inference use OnnxOptions::cpu().",
            );
        },
        Backend::Cpu => {
            out.append(
                "Install ONNX Runtime >= 1.27 with its CPU provider and set ORT_DYLIB_PATH to the shared library.",
            );
        },
        Backend::Custom { .. } => {
            out.append(
                "Install an ONNX Runtime >= 1.27 build containing this provider and the native dependency versions required by that build.",
            );
        },
    }
    assert(out@ =~= start + install_advice(*backend));
}

/// The explanation of a provider's failure: advice where the GPU or a library is
/// missing, otherwise only the provider's name.
pub open spec fn provider_context(backend: Backend, error: ErrorView) -> Seq<char> {
    let message = lowercase(error.report());
    if is_gpu_failure(message) {
        gpu_advice()
    } else if is_library_failure(message) {
        backend.label() + " native libraries are unavailable. "@ + install_advice(backend)
    } else {
        backend.label() + " provider"@
    }
}

/// A provider's failure with its explanation in front.
pub open spec fn explained(backend: Backend, error: ErrorView) -> ErrorView {
    ErrorView::Context { context: provider_context(backend, error), cause: Box::new(error) }
}

/// Explain a provider's failure.
pub fn provider_error(backend: &Backend, error: Error) -> (r: Error)
    ensures
        r@ == explained(*backend, error@),
{
    let message = lowercase_chars(error.report().as_str());
    if gpu_failure(&message) {
        return error.context(
            "CUDA cannot access a compatible GPU. Check GPU access in the host/container and install the NVIDIA driver required by your CUDA runtime (R580 or newer for CUDA 13.x). Use OnnxOptions::cpu() for CPU-only inference.".to_owned(),
        );
    }
    let mut context = backend.name().to_owned();
    if library_failure(&message) {
        context.append(" native libraries are unavailable. ");
        push_install_advice(&mut context, backend);
    } else {
        context.append(" provider");
    }
    error.context(context)
}

/// A failure that is neither a missing GPU nor a missing library is not answered
/// with advice to install anything.
pub proof fn law_advice_is_limited_to_library_failures(backend: Backend, error: ErrorView)
    requires
        !is_gpu_failure(lowercase(error.report())),
        !is_library_failure(lowercase(error.report())),
    ensures
        explained(backend, error).message() == backend.label() + " provider"@,
{
}

/// An explanation never hides its cause: the full report ends with the report of
/// the failure itself.
pub proof fn law_the_cause_is_kept(backend: Backend, error: ErrorView)
    ensures
        explained(backend, error).report() == provider_context(backend, error) + ": "@
            + error.report(),
{
}

/// Advice on the runtime's library names the path that was tried, and advice on
/// installing a built-in GPU provider names the provider.
pub proof fn law_advice_names_what_is_missing(path: Seq<char>, backend: Backend)
    ensures
        exists|before: Seq<char>, after: Seq<char>|
            runtime_advice(path) == #[trigger] (before + path + after),
        backend is TensorRt || backend is Cuda ==> exists|before: Seq<char>, after: Seq<char>|
            install_advice(backend) == #[trigger] (before + backend.label() + after),
        install_advice(backend).len() > 0,
{
    let before = "Cannot load ONNX Runtime at '"@;
    let after = runtime_advice(path).skip((before + path).len() as int);
    assert(runtime_advice(path) =~= before + path + after);
    let lead = "Install an ONNX Runtime >= 1.27 GPU build with the "@;
    let label = backend.label();
    if backend is TensorRt || backend is Cuda {
        let rest = install_advice(backend).skip((lead + label).len() as int);
        assert(install_advice(backend) =~= lead + label + rest);
        crate::options::law_providers_are_named(backend, backend);
        reveal_strlit("TensorRT");
        reveal_strlit("CUDA");
    } else {
        reveal_strlit(
            "Install an ONNX Runtime >= 1.27 build with CoreML support and use macOS >= 12 for MLProgram. For CPU-only inference use OnnxOptions::cpu().",
        );
        reveal_strlit(
            "Install ONNX Runtime >= 1.27 with its CPU provider and set ORT_DYLIB_PATH to the shared library.",
        );
        reveal_strlit(
            "Install an ONNX Runtime >= 1.27 build containing this provider and the native dependency versions required by that build.",
        );
    }
}

} // verus!
