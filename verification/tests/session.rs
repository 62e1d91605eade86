use native_onnx::api::ModelInfo;
use native_onnx::buffers::{eligible, InferenceBuffers, RunOutcome};
use native_onnx::element::ElementType;
use native_onnx::options::{
    Backend, BackendSelection, CudaOptions, CustomProvider, HostText, OnnxOptions, Platform,
    ProviderKind, TensorRtOptions,
};
use native_onnx::session::{
    check_tf32, configured_builder, graph_enabled, metadata, runtime_library, stream_for_backend,
    Environment, Outlet, ProviderPlan,
};
use native_onnx::tensor::{DType, TensorBuffer, TensorSpec};


fn text(s: &str) -> Option<HostText> {
    Some(HostText::Unicode(s.into()))
}

fn environment(tf32: Option<HostText>, cache: Option<HostText>) -> Environment {
    Environment { tf32_override: tf32, tensorrt_cache: cache }
}

fn options(backend: BackendSelection) -> OnnxOptions {
    let mut options = OnnxOptions::for_platform(Platform::Cuda);
    options.backend = backend;
    options
}

#[test]
fn the_runtime_library_can_be_configured() {
    assert_eq!(runtime_library(&None, "lib", ".so"), Some("libonnxruntime.so".into()));
    assert_eq!(runtime_library(&text(""), "", ".dll"), Some("onnxruntime.dll".into()));
    assert_eq!(runtime_library(&text("/opt/ort.so"), "lib", ".so"), None);
    assert_eq!(runtime_library(&Some(HostText::Other(1)), "lib", ".so"), None);
}

#[test]
fn tf32_follows_the_process_environment() {
    assert!(check_tf32(true, &None).is_ok());
    assert!(check_tf32(false, &text("0")).is_ok());
    for (enabled, value) in [
        (true, text("0")),
        (true, text("1")),
        (true, Some(HostText::Other(0))),
        (false, None),
        (false, text("1")),
        (false, text("00")),
        (false, Some(HostText::Other(0))),
    ] {
        assert_eq!(
            check_tf32(enabled, &value).unwrap_err().message(),
            "TensorRT TF32 follows process NVIDIA_TF32_OVERRIDE: unset it for tf32=true, set to \
             0 for tf32=false"
        );
    }
}

#[test]
fn only_gpu_backends_need_a_stream() {
    let mut options = options(BackendSelection::Auto(vec![
        Backend::TensorRt,
        Backend::Cuda,
        Backend::CoreMl,
        Backend::Cpu,
    ]));
    options.cuda = Some(CudaOptions { device_id: 3, ..CudaOptions::default() });
    options.tensorrt = Some(TensorRtOptions { device_id: 4, ..TensorRtOptions::default() });
    let env = environment(None, None);
    let devices: Vec<_> =
        (0..4).map(|i| stream_for_backend(&options, i, &env).unwrap()).collect();
    assert_eq!(devices, [Some(4), Some(3), None, None]);
    let env = environment(text("0"), None);
    assert!(stream_for_backend(&options, 0, &env).is_err());
    assert!(stream_for_backend(&options, 1, &env).is_ok());
}

#[test]
fn tensorrt_registers_cuda_on_the_same_gpu() {
    let auto = || BackendSelection::Auto(vec![Backend::TensorRt, Backend::Cpu, Backend::Cuda]);
    let env = environment(None, None);
    let providers = |options: &OnnxOptions, ep_context| {
        configured_builder(options, 0, ep_context, true, &None, &env)
            .unwrap()
            .providers
            .unwrap()
    };
    let plans = providers(&options(auto()), false);
    assert_eq!(plans.len(), 2);
    assert!(matches!(
        &plans[0],
        ProviderPlan::TensorRt { cuda_graph: true, engine_cache: None, .. }
    ));
    assert!(matches!(
        &plans[1],
        ProviderPlan::Cuda { cuda_graph: false, required: false, .. }
    ));
    assert_eq!(providers(&options(auto()), true).len(), 1);
    let mut other = options(auto());
    other.cuda = Some(CudaOptions { device_id: 1, ..CudaOptions::default() });
    assert_eq!(providers(&other, false).len(), 1);
    other.tensorrt = Some(TensorRtOptions { device_id: 1, ..TensorRtOptions::default() });
    assert_eq!(providers(&other, false).len(), 2);
    let before = BackendSelection::Auto(vec![Backend::TensorRt, Backend::Cpu]);
    assert_eq!(providers(&options(before), false).len(), 1);
    let strict = options(BackendSelection::Require(Backend::TensorRt));
    assert_eq!(providers(&strict, false).len(), 1);
}

#[test]
fn engines_are_cached_where_asked() {
    let strict = options(BackendSelection::Require(Backend::TensorRt));
    let cache = |directory: Option<HostText>, configured: Option<HostText>| {
        let env = environment(None, configured);
        let plan = configured_builder(&strict, 0, false, false, &directory, &env).unwrap();
        match plan.providers {
            Err(error) => Err(error.message()),
            Ok(mut plans) => match plans.remove(0) {
                ProviderPlan::TensorRt { engine_cache, .. } => Ok(engine_cache),
                _ => unreachable!(),
            },
        }
    };
    assert_eq!(cache(None, None), Ok(None));
    assert_eq!(cache(None, text("")), Ok(None));
    assert_eq!(cache(None, text("/cache")), Ok(Some("/cache".into())));
    assert_eq!(cache(text("/build"), text("/cache")), Ok(Some("/build".into())));
    let unicode = "TensorRT cache path must be UTF-8";
    assert_eq!(cache(None, Some(HostText::Other(1))), Err(unicode.into()));
    assert_eq!(cache(Some(HostText::Other(1)), text("/cache")), Err(unicode.into()));
}

#[test]
fn builders_follow_the_options() {
    let mut options = options(BackendSelection::Require(Backend::Cpu));
    options.intra_threads = 4;
    options.inter_threads = 5;
    options.parallel_execution = true;
    options.profiling = text("prefix");
    options.dimension_overrides.insert("n".into(), 6);
    options.dimension_overrides.insert("batch".into(), 7);
    let env = environment(None, None);
    let plan = configured_builder(&options, 0, false, false, &None, &env).unwrap();
    assert_eq!((plan.intra_threads, plan.inter_threads), (4, 5));
    assert!(plan.parallel_execution && !plan.disable_cpu_fallback);
    assert_eq!(plan.dimension_overrides, [("batch".to_owned(), 7), ("n".to_owned(), 6)]);
    assert!(matches!(plan.profiling, Some(HostText::Unicode(s)) if s == "prefix"));
    assert!(matches!(plan.providers.unwrap()[..], [ProviderPlan::Cpu]));
    for (kind, disabled) in [(ProviderKind::Cpu, false), (ProviderKind::Other, true)] {
        let name = "custom".to_owned();
        let custom = Backend::Custom { name, provider: CustomProvider { kind, id: 9 } };
        options.backend = BackendSelection::Require(custom.clone());
        let plan = configured_builder(&options, 0, false, false, &None, &env).unwrap();
        assert_eq!(plan.disable_cpu_fallback, disabled);
        assert!(matches!(plan.providers.unwrap()[..], [ProviderPlan::Custom(9)]));
        options.backend = BackendSelection::Auto(vec![custom]);
        let plan = configured_builder(&options, 0, false, false, &None, &env).unwrap();
        assert!(!plan.disable_cpu_fallback);
    }
    options.backend = BackendSelection::Auto(vec![Backend::CoreMl]);
    let plan = configured_builder(&options, 0, false, false, &None, &env).unwrap();
    assert!(matches!(plan.providers.unwrap()[..], [ProviderPlan::CoreMl]));
}

#[test]
fn graphs_need_strict_sequential_fixed_sessions() {
    let spec = |shape| TensorSpec { name: "x".into(), dtype: DType::F32, shape };
    let info = |shape: Option<Vec<Option<usize>>>| ModelInfo {
        inputs: vec![spec(shape.clone())],
        outputs: vec![spec(shape)],
    };
    let fixed = info(Some(vec![Some(1), Some(16)]));
    for backend in [Backend::Cuda, Backend::TensorRt] {
        let mut strict = options(BackendSelection::Require(backend.clone()));
        assert!(graph_enabled(&strict, 0, false, &fixed));
        assert!(!graph_enabled(&strict, 0, false, &info(None)));
        assert!(!graph_enabled(&strict, 0, false, &info(Some(vec![None]))));
        assert!(!graph_enabled(&strict, 0, false, &info(Some(vec![Some(0)]))));
        let auto = options(BackendSelection::Auto(vec![backend]));
        assert!(!graph_enabled(&auto, 0, false, &fixed));
        assert!(graph_enabled(&auto, 0, true, &fixed));
        strict.parallel_execution = true;
        assert!(!graph_enabled(&strict, 0, false, &fixed));
    }
    assert!(!graph_enabled(&OnnxOptions::cpu(), 0, false, &fixed));
    let mut off = options(BackendSelection::Require(Backend::Cuda));
    off.cuda = Some(CudaOptions { cuda_graph: false, ..CudaOptions::default() });
    assert!(!graph_enabled(&off, 0, false, &fixed));
    let none = ModelInfo { inputs: vec![], outputs: vec![] };
    assert!(!eligible(&none));
}

#[test]
fn session_reports_keep_an_unknown_rank() {
    let spec = |name: &str, shape| TensorSpec { name: name.into(), dtype: DType::F32, shape };
    let declared = ModelInfo {
        inputs: vec![spec("x", None), spec("y", Some(vec![None]))],
        outputs: vec![],
    };
    let outlet = |name: &str, shape| Outlet {
        name: name.into(),
        element_type: Some(ElementType::Uint16),
        shape,
    };
    let info = metadata(
        &vec![outlet("x", vec![]), outlet("y", vec![-1, 3]), outlet("z", vec![])],
        &vec![outlet("x", vec![])],
        &declared,
    )
    .unwrap();
    let shapes: Vec<_> = info.inputs.iter().map(|s| s.shape.clone()).collect();
    assert_eq!(shapes, [None, Some(vec![None, Some(3)]), Some(vec![])]);
    assert!(info.inputs.iter().all(|s| s.dtype == DType::U16));
    assert_eq!(info.outputs[0].shape, Some(vec![]));
}

#[test]
fn prepared_buffers_need_fixed_shapes() {
    let spec = |shape| TensorSpec { name: "x".into(), dtype: DType::F32, shape };
    let info = |shape: Option<Vec<Option<usize>>>| ModelInfo {
        inputs: vec![spec(shape.clone())],
        outputs: vec![spec(shape)],
    };
    assert_eq!(
        InferenceBuffers::new(&info(Some(vec![None])), None, false).unwrap_err().message(),
        "Prepared buffers require fixed, positive tensor shapes"
    );
    let huge = info(Some(vec![Some(usize::MAX), Some(2)]));
    assert_eq!(
        InferenceBuffers::new(&huge, None, false).unwrap_err().message(),
        "Tensor element count overflow"
    );
    let buffers = InferenceBuffers::new(&info(Some(vec![Some(2)])), Some(1), true).unwrap();
    assert!(buffers.accepts(&RunOutcome::Done(vec![TensorBuffer::zeros(DType::F32, 2)])));
    assert!(!buffers.accepts(&RunOutcome::Done(vec![TensorBuffer::zeros(DType::F32, 3)])));
    assert!(!buffers.accepts(&RunOutcome::Done(vec![TensorBuffer::zeros(DType::I32, 2)])));
    assert!(!buffers.accepts(&RunOutcome::Done(vec![])));
}
