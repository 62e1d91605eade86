use native_onnx::options::{
    Backend, BackendSelection, CompileOptions, CompileTarget, CudaOptions, CustomProvider,
    DimensionOverrides, OnnxOptions, ProviderKind, TensorRtOptions,
};


#[test]
fn overrides_keep_one_size_per_name_in_order() {
    let mut overrides = DimensionOverrides::new();
    assert_eq!(overrides.get("n"), None);
    for (name, size) in [("n", 1), ("batch", 2), ("z", 3), ("", 4), ("bat", 5), ("é", 6)] {
        assert_eq!(overrides.insert(name.into(), size), None);
    }
    assert_eq!(overrides.insert("n".into(), 9), Some(1));
    assert_eq!(overrides.get("n"), Some(9));
    assert_eq!(overrides.get("batch"), Some(2));
    assert_eq!(overrides.get("batc"), None);
    let mut tree = std::collections::BTreeMap::new();
    for (name, size) in [("n", 9), ("batch", 2), ("z", 3), ("", 4), ("bat", 5), ("é", 6)] {
        tree.insert(name.to_owned(), size);
    }
    assert_eq!(overrides.as_slice(), tree.into_iter().collect::<Vec<_>>());
    assert_eq!(overrides.clone().as_slice(), overrides.as_slice());
}

#[test]
fn shared_settings_are_validated() {
    let message = |options: &OnnxOptions| options.validate().unwrap_err().message();
    let mut options = OnnxOptions::cpu();
    assert!(options.validate().is_ok());
    options.intra_threads = 0;
    options.inter_threads = i32::MAX as usize;
    assert!(options.validate().is_ok());
    options.inter_threads = i32::MAX as usize + 1;
    assert_eq!(message(&options), "Thread counts must fit in a signed 32-bit integer");
    let mut options = OnnxOptions::cpu();
    options.dimension_overrides.insert("n".into(), i64::MAX as usize);
    assert!(options.validate().is_ok());
    options.dimension_overrides.insert("n".into(), 0);
    assert_eq!(message(&options), "Invalid dimension override");
    options.dimension_overrides.insert("n".into(), i64::MAX as usize + 1);
    assert_eq!(message(&options), "Invalid dimension override");
    options.backend = BackendSelection::Auto(vec![]);
    assert_eq!(message(&options), "At least one backend is required");
}

#[test]
fn tensorrt_settings_are_validated() {
    let message = |options: TensorRtOptions| options.validate().unwrap_err().message();
    let default = TensorRtOptions::default;
    assert!(default().validate().is_ok());
    assert_eq!(
        message(TensorRtOptions { device_id: -1, ..default() }),
        "Negative TensorRT device id"
    );
    assert_eq!(
        message(TensorRtOptions { builder_optimization_level: 6, ..default() }),
        "TensorRT build level must be 0..=5"
    );
    assert_eq!(
        message(TensorRtOptions { workspace_bytes: 0, ..default() }),
        "Workspace must be positive"
    );
    assert_eq!(
        message(TensorRtOptions { auxiliary_streams: -2, ..default() }),
        "TensorRT auxiliary streams must be -1 or nonnegative"
    );
    let shapes = |s: &str| Some(s.to_owned());
    assert_eq!(
        message(TensorRtOptions { opt_shapes: shapes("x:1"), ..default() }),
        "Set all three TensorRT profiles or none"
    );
    assert_eq!(
        message(TensorRtOptions {
            min_shapes: shapes("x:1"),
            max_shapes: shapes("x:2"),
            ..default()
        }),
        "Set all three TensorRT profiles or none"
    );
    let all = TensorRtOptions {
        min_shapes: shapes("x:1"),
        opt_shapes: shapes("x:1"),
        max_shapes: shapes("x:2"),
        ..default()
    };
    assert!(all.validate().is_ok());
    assert_eq!(all.clone().max_shapes, all.max_shapes);
}

#[test]
fn compile_options_become_one_required_backend() {
    let mut options = CompileOptions::new(CompileTarget::Cuda(CudaOptions {
        device_id: 2,
        ..CudaOptions::default()
    }));
    assert_eq!((options.intra_threads, options.inter_threads), (1, 1));
    assert!(!options.parallel_execution);
    options.intra_threads = 3;
    options.dimension_overrides.insert("n".into(), 4);
    let runtime = options.clone().into_runtime_options().unwrap();
    assert!(matches!(runtime.backend, BackendSelection::Require(Backend::Cuda)));
    assert!(runtime.tensorrt.is_none() && runtime.profiling.is_none());
    assert_eq!(runtime.cuda.unwrap().device_id, 2);
    assert_eq!(runtime.intra_threads, 3);
    assert_eq!(runtime.dimension_overrides.get("n"), Some(4));
    let custom = CompileTarget::Custom {
        name: "OpenVINO".into(),
        provider: CustomProvider { kind: ProviderKind::Other, id: 5 },
    };
    let runtime = CompileOptions::new(custom.clone()).into_runtime_options().unwrap();
    assert_eq!(runtime.backend.candidates()[0].name(), "OpenVINO");
    assert!(runtime.backend.strict());
    assert_eq!(runtime.clone().backend.candidates().len(), 1);
    let core = CompileOptions::new(CompileTarget::CoreMl).into_runtime_options().unwrap();
    assert_eq!(core.backend.candidates()[0].name(), "CoreML");
}

#[test]
fn backend_names_are_displayed() {
    for (backend, name) in [
        (Backend::TensorRt, "TensorRT"),
        (Backend::Cuda, "CUDA"),
        (Backend::CoreMl, "CoreML"),
        (Backend::Cpu, "CPU"),
    ] {
        assert_eq!(backend.name(), name);
        assert_eq!(backend.clone().name(), name);
    }
}
