use native_onnx::diagnostics::{provider_error, runtime_error};
use native_onnx::error::Error;
use native_onnx::options::{Backend, CustomProvider, ProviderKind};


#[test]
fn diagnostics_installation_advice_is_limited_to_library_errors() {
    let error = provider_error(
        &Backend::Cuda,
        Error::External("Failed to load libcudnn.so.9".into()),
    );
    let text = error.report();
    assert!(text.contains("Install") && text.contains("13.0") && text.contains("cuDNN 9"));
    assert!(text.contains("libcudnn.so.9"));
    let error = provider_error(
        &Backend::TensorRt,
        Error::External("LoadLibrary failed with error 126".into()),
    );
    assert!(error.message().contains("10.15.1"));
    let error =
        provider_error(&Backend::Cuda, Error::External("Invalid model input shape".into()));
    assert!(!error.message().contains("Install"));
}

#[test]
fn diagnostics_unsupported_runtime_version_has_installation_instructions() {
    let path = "/old/libonnxruntime.so";
    let error = runtime_error(
        path,
        ort::LoadDynamicError::BadVersion { version_str: "1.20.0".into(), path: path.into() }
            .to_string(),
    );
    let text = error.report();
    assert!(text.contains("Install ONNX Runtime >= 1.27"));
    assert!(text.contains("1.20.0") && text.contains("ORT_DYLIB_PATH"));
    assert!(text.starts_with("Cannot load ONNX Runtime at '/old/libonnxruntime.so'. Install"));
}

#[test]
fn every_library_failure_is_recognized() {
    for text in [
        "Failed to load X",
        "cannot open shared object file",
        "LoadLibrary failed",
        "provider is not enabled",
        "NOT AVAILABLE",
        "not supported in this build",
        "unable to load",
        "Could not load",
        "code 126",
        "code 127",
        "error 126",
        "Error 127",
    ] {
        let error = provider_error(&Backend::Cpu, Error::External(text.into()));
        assert_eq!(
            error.report(),
            format!(
                "CPU native libraries are unavailable. Install ONNX Runtime >= 1.27 with its CPU \
                 provider and set ORT_DYLIB_PATH to the shared library.: {text}"
            )
        );
    }
    for text in ["code 12", "error 1 26", "loaded", ""] {
        let error = provider_error(&Backend::Cpu, Error::External(text.into()));
        assert_eq!(error.report(), format!("CPU provider: {text}"));
    }
}

#[test]
fn a_missing_gpu_is_told_from_a_missing_library() {
    for text in [
        "CUDA failure 100: no CUDA-capable device is detected; failed to load",
        "CUDA driver version is insufficient for CUDA runtime version",
    ] {
        let error = provider_error(&Backend::TensorRt, Error::External(text.into()));
        assert!(error.message().starts_with("CUDA cannot access a compatible GPU."));
        assert!(error.report().ends_with(text));
    }
}

#[test]
fn advice_depends_on_the_backend() {
    let advice = |backend: &Backend| {
        provider_error(backend, Error::External("unable to load".into())).message()
    };
    assert!(advice(&Backend::CoreMl).contains("CoreML support and use macOS >= 12"));
    assert!(advice(&Backend::TensorRt).contains("with the TensorRT provider. Standard ORT"));
    assert!(advice(&Backend::TensorRt).contains("stack). For TensorRT install the exact"));
    assert!(advice(&Backend::Cuda).contains("stack). Custom ORT builds need"));
    let custom = Backend::Custom {
        name: "OpenVINO".into(),
        provider: CustomProvider { kind: ProviderKind::Other, id: 1 },
    };
    assert_eq!(
        advice(&custom),
        "OpenVINO native libraries are unavailable. Install an ONNX Runtime >= 1.27 build \
         containing this provider and the native dependency versions required by that build."
    );
    // The whole chain is searched, not only the outermost message.
    let inner = Error::External("unable to load".into()).context("Inference".into());
    assert!(provider_error(&Backend::Cpu, inner).message().contains("unavailable"));
}
