use native_onnx::api::{IntoStep, ModelInfo, OnnxRuntime, Outcome, Step};
use native_onnx::buffers::RunOutcome;
use native_onnx::element::ElementType;
use native_onnx::error::Error;
use native_onnx::options::{
    Backend, BackendSelection, CudaOptions, CustomProvider, OnnxOptions, Platform, ProviderKind,
    TensorRtOptions,
};
use native_onnx::session::{
    ActiveSession, Environment, NativeRun, Outlet, ProviderPlan, RawOutput,
};
use native_onnx::tensor::{
    copy_outputs, Float32, Tensor, TensorBuffer, TensorData, TensorDataMut, TensorSpec, TensorView,
    TensorViewMut,
};

fn bits(values: &[f32]) -> Vec<Float32> {
    values.iter().map(|v| Float32 { bits: v.to_bits() }).collect()
}

fn floats(tensor: &TensorView<'_>) -> Vec<f32> {
    tensor.as_f32().unwrap().iter().map(|v| f32::from_bits(v.bits)).collect()
}

fn varint(mut n: u64) -> Vec<u8> {
    let mut out = Vec::new();
    while n >= 0x80 {
        out.push((n as u8 & 0x7f) | 0x80);
        n >>= 7;
    }
    out.push(n as u8);
    out
}

fn number(field: u64, n: u64) -> Vec<u8> {
    [varint(field << 3), varint(n)].concat()
}

fn bytes(field: u64, data: &[u8]) -> Vec<u8> {
    [varint(field << 3 | 2), varint(data.len() as u64), data.to_vec()].concat()
}

/// A dimension: a number, or a symbol.
enum Dim {
    N(i64),
    S(&'static str),
}

/// A declared input or output: its name, the number of its element type, its dimensions.
fn value(name: &str, elem_type: u64, dims: Option<&[Dim]>) -> Vec<u8> {
    let mut tensor = number(1, elem_type);
    if let Some(dims) = dims {
        let mut shape = Vec::new();
        for dim in dims {
            let dim = match dim {
                Dim::N(n) => number(1, *n as u64),
                Dim::S(s) => bytes(2, s.as_bytes()),
            };
            shape.extend(bytes(1, &dim));
        }
        tensor.extend(bytes(2, &shape));
    }
    [bytes(1, name.as_bytes()), bytes(2, &bytes(1, &tensor))].concat()
}

fn node(domain: &str, operator: &str) -> Vec<u8> {
    [bytes(4, operator.as_bytes()), bytes(7, domain.as_bytes())].concat()
}

fn model(nodes: &[Vec<u8>], inputs: &[Vec<u8>], outputs: &[Vec<u8>]) -> Vec<u8> {
    let mut graph = Vec::new();
    nodes.iter().for_each(|n| graph.extend(bytes(1, n)));
    inputs.iter().for_each(|v| graph.extend(bytes(11, v)));
    outputs.iter().for_each(|v| graph.extend(bytes(12, v)));
    [number(1, 8), bytes(7, &graph)].concat()
}

/// `y` is every element of `x` summed up, sixteen times over.
fn linear() -> Vec<u8> {
    let dims = [Dim::N(1), Dim::N(16)];
    model(
        &[node("", "MatMul")],
        &[value("x", 1, Some(&dims))],
        &[value("y", 1, Some(&dims))],
    )
}

/// `sum` and `product` of `x` and `y`.
fn multi() -> Vec<u8> {
    let dims = [Dim::N(2), Dim::N(3)];
    model(
        &[node("", "Add"), node("", "Mul")],
        &[value("x", 1, Some(&dims)), value("y", 1, Some(&dims))],
        &[value("sum", 1, Some(&dims)), value("product", 1, Some(&dims))],
    )
}

/// `result` is `tokens`, for any batch.
fn dynamic() -> Vec<u8> {
    let dims = [Dim::S("batch"), Dim::N(3)];
    model(
        &[node("", "Identity")],
        &[value("tokens", 7, Some(&dims))],
        &[value("result", 7, Some(&dims))],
    )
}

/// A stand-in for the native runtime: a host with a CPU provider and no GPU, whose
/// sessions compute a fixed function.
struct Host {
    compute: fn(&[Tensor]) -> Vec<Tensor>,
    /// How often a run was made.
    runs: usize,
    /// Runs that fail, by their number.
    failing: Vec<usize>,
    /// Custom providers that are installed.
    installed: Vec<usize>,
}

fn environment() -> Environment {
    Environment { tf32_override: None, tensorrt_cache: None }
}

fn find<'a>(tensors: &'a [Tensor], name: &str) -> &'a Tensor {
    tensors.iter().find(|t| t.name == name).unwrap()
}

fn single(name: &str, shape: &[usize], values: Vec<f32>) -> Tensor {
    Tensor { name: name.into(), shape: shape.into(), data: TensorBuffer::F32(bits(&values)) }
}

fn compute_linear(inputs: &[Tensor]) -> Vec<Tensor> {
    let x = floats(&find(inputs, "x").view());
    vec![single("y", &[1, 16], vec![x.iter().sum(); 16])]
}

fn compute_multi(inputs: &[Tensor]) -> Vec<Tensor> {
    let x = floats(&find(inputs, "x").view());
    let y = floats(&find(inputs, "y").view());
    vec![
        single("sum", &[2, 3], x.iter().zip(&y).map(|(a, b)| a + b).collect()),
        single("product", &[2, 3], x.iter().zip(&y).map(|(a, b)| a * b).collect()),
    ]
}

fn compute_identity(inputs: &[Tensor]) -> Vec<Tensor> {
    vec![inputs[0].clone()]
}

fn host(compute: fn(&[Tensor]) -> Vec<Tensor>) -> Host {
    Host { compute, runs: 0, failing: vec![], installed: vec![] }
}

fn outlets(specs: &[TensorSpec]) -> Vec<Outlet> {
    specs
        .iter()
        .map(|s| Outlet {
            name: s.name.clone(),
            element_type: Some(ElementType::of(s.dtype)),
            shape: s
                .shape
                .as_ref()
                .map_or(vec![], |dims| dims.iter().map(|d| d.map_or(-1, |n| n as i64)).collect()),
        })
        .collect()
}

impl Host {
    /// Open the current candidate.
    fn open(&self, runtime: &OnnxRuntime) -> Result<(ActiveSession, ModelInfo), Error> {
        runtime.load_stream(&environment())?;
        let plan = runtime.load_builder(&environment())?;
        for provider in plan.providers? {
            let available = match provider {
                ProviderPlan::Cpu => true,
                ProviderPlan::Custom(id) => self.installed.contains(&id),
                ProviderPlan::Cuda { required, .. } => !required,
                _ => false,
            };
            if !available {
                let error = Error::External("Failed to load libonnxruntime_providers.so".into());
                return Err(runtime.provider_failed(error));
            }
        }
        let info = runtime.info();
        runtime.open(&outlets(&info.inputs), &outlets(&info.outputs))
    }

    fn open_all(&self, runtime: &mut OnnxRuntime) -> Result<(), Error> {
        while runtime.is_loading() {
            match self.open(runtime) {
                Ok((session, info)) => runtime.activate(session, info),
                Err(error) => runtime.load_failed(error)?,
            }
        }
        Ok(())
    }

    fn load(&self, bytes: &[u8], options: OnnxOptions) -> Result<OnnxRuntime, Error> {
        let mut runtime = OnnxRuntime::load(bytes, "model.onnx", options, None)?;
        self.open_all(&mut runtime)?;
        Ok(runtime)
    }

    fn run(&mut self, runtime: &OnnxRuntime, run: NativeRun, inputs: &[TensorView<'_>]) -> Outcome {
        self.runs += 1;
        let failed = self.failing.contains(&self.runs);
        let error = || Error::External("CUDA failure 700".into());
        match run {
            NativeRun::Prepared { .. } => {
                if failed {
                    return Outcome::Prepared(RunOutcome::InferenceFailed(error()));
                }
                let inputs: Vec<Tensor> =
                    runtime.prepared_inputs().iter().map(|v| TensorView::to_owned(*v)).collect();
                let values = (self.compute)(&inputs);
                let values = runtime
                    .info()
                    .outputs
                    .iter()
                    .map(|s| find(&values, &s.name).data.clone())
                    .collect();
                Outcome::Prepared(RunOutcome::Done(values))
            }
            NativeRun::Dynamic => {
                if failed {
                    return Outcome::Dynamic(Err(error()));
                }
                let inputs: Vec<Tensor> = inputs.iter().map(|v| TensorView::to_owned(*v)).collect();
                let values = (self.compute)(&inputs);
                Outcome::Dynamic(Ok(values
                    .into_iter()
                    .map(|t| RawOutput {
                        shape: t.shape.iter().map(|&n| n as i64).collect(),
                        data: t.data,
                    })
                    .collect()))
            }
        }
    }

    fn drive(
        &mut self,
        runtime: &mut OnnxRuntime,
        inputs: &[TensorView<'_>],
        first: Step,
    ) -> Result<Vec<Tensor>, Error> {
        let mut step = first;
        loop {
            if let Step::Run(run) = step {
                let outcome = self.run(runtime, run, inputs);
                assert!(runtime.accepts(&outcome));
                if let Some(values) = runtime.finish_inference(outcome)? {
                    return Ok(values);
                }
            }
            self.open_all(runtime)?;
            step = runtime.retry(inputs)?;
        }
    }

    fn inference(
        &mut self,
        runtime: &mut OnnxRuntime,
        inputs: &[TensorView<'_>],
    ) -> Result<Vec<Tensor>, Error> {
        let step = runtime.inference(inputs)?;
        self.drive(runtime, inputs, step)
    }

    fn inference_into(
        &mut self,
        runtime: &mut OnnxRuntime,
        inputs: &[TensorView<'_>],
        outputs: &mut [TensorViewMut<'_>],
    ) -> Result<(), Error> {
        let mut step = runtime.inference_into(inputs, outputs)?;
        loop {
            match step {
                IntoStep::Collect(step) => {
                    let values = self.drive(runtime, inputs, step)?;
                    return copy_outputs(&values, outputs);
                }
                IntoStep::Direct(run) => {
                    let Outcome::Prepared(outcome) = self.run(runtime, run, inputs) else {
                        unreachable!()
                    };
                    if runtime.finish_inference_into(outcome, outputs)? {
                        return Ok(());
                    }
                    self.open_all(runtime)?;
                    step = runtime.retry_into(inputs)?;
                }
            }
        }
    }

    fn run_prepared(&mut self, runtime: &mut OnnxRuntime) -> Result<(), Error> {
        let run = runtime.run()?;
        let Outcome::Prepared(outcome) = self.run(runtime, run, &[]) else {
            unreachable!()
        };
        if let Some(inputs) = runtime.finish_run(outcome)? {
            self.open_all(runtime)?;
            let views: Vec<TensorView<'_>> = inputs.iter().map(Tensor::view).collect();
            self.inference(runtime, &views)?;
            runtime.finish_replay()?;
        }
        Ok(())
    }
}

#[test]
fn defaults_use_level_three_and_opt_in_fp16() {
    let config = OnnxOptions::for_platform(Platform::Cuda);
    assert!(config.tensorrt.is_none() && config.cuda.is_none());
    let tensorrt = TensorRtOptions::default();
    assert_eq!(tensorrt.builder_optimization_level, 3);
    assert!(!tensorrt.fp16 && tensorrt.tf32 && tensorrt.cuda_graph && tensorrt.sparsity);
    let cuda = CudaOptions::default();
    assert!(cuda.tf32 && cuda.cuda_graph);
    assert_eq!(tensorrt.workspace_bytes, 4 * 1024 * 1024 * 1024);
    for (platform, expected) in [
        (Platform::MacOs, vec!["CoreML", "CPU"]),
        (Platform::Cuda, vec!["TensorRT", "CUDA", "CPU"]),
        (Platform::Other, vec!["CPU"]),
    ] {
        let BackendSelection::Auto(backends) = OnnxOptions::for_platform(platform).backend else {
            panic!("Expected auto fallback")
        };
        assert_eq!(backends.iter().map(Backend::name).collect::<Vec<_>>(), expected);
    }
}

#[test]
fn macos_default_runs_with_coreml_or_cpu_fallback() {
    let mut host = host(compute_linear);
    let mut model = host.load(&linear(), OnnxOptions::for_platform(Platform::MacOs)).unwrap();
    assert!(matches!(model.backend(), Some("CoreML" | "CPU")));
    let x = bits(&[1.; 16]);
    let input = TensorView::float32("x", &[1, 16], &x);
    let output = host.inference(&mut model, &[input]).unwrap();
    assert_eq!(floats(&output[0].view()), [16.; 16]);
}

#[test]
fn cpu_multi_input_buffers_and_validation() {
    let mut host = host(compute_multi);
    let mut model = host.load(&multi(), OnnxOptions::cpu()).unwrap();
    assert_eq!(model.backend(), Some("CPU"));
    assert!(model.is_prepared());
    assert!(model.output("sum").is_err());
    let x = bits(&[1.0, 2.0, 3.0, 4.0, 5.0, 6.0]);
    let y = bits(&[2.0; 6]);
    let inputs = [
        TensorView::float32("y", &[2, 3], &y),
        TensorView::float32("x", &[2, 3], &x),
    ];
    let values = host.inference(&mut model, &inputs).unwrap();
    assert_eq!(floats(&values[0].view()), [3., 4., 5., 6., 7., 8.]);
    let mut product = bits(&[0.; 6]);
    let mut sum = bits(&[0.; 6]);
    host.inference_into(
        &mut model,
        &inputs,
        &mut [
            TensorViewMut::float32("product", &[2, 3], &mut product),
            TensorViewMut::float32("sum", &[2, 3], &mut sum),
        ],
    )
    .unwrap();
    assert_eq!(product, bits(&[2., 4., 6., 8., 10., 12.]));
    assert_eq!(sum, bits(&[3., 4., 5., 6., 7., 8.]));
    let mut wrong = bits(&[99.; 5]);
    assert!(host
        .inference_into(
            &mut model,
            &inputs,
            &mut [
                TensorViewMut::float32("sum", &[2, 3], &mut wrong),
                TensorViewMut::float32("product", &[2, 3], &mut product),
            ],
        )
        .is_err());
    assert_eq!(wrong, bits(&[99.; 5]));
    assert!(host.inference(&mut model, &[inputs[0], inputs[0]]).is_err());
    assert!(model.fallback_events().is_empty());
    model.input_mut("x").unwrap().as_f32_mut().unwrap().fill(Float32 { bits: 0 });
    assert!(model.output("sum").is_err());
    host.run_prepared(&mut model).unwrap();
    assert_eq!(floats(&model.output("sum").unwrap()), [2.; 6]);
    model.input_mut("x").unwrap().as_f32_mut().unwrap().copy_from_slice(&x);
    host.run_prepared(&mut model).unwrap();
    assert_eq!(model.output("sum").unwrap().as_f32().unwrap(), &sum);
}

#[test]
fn dynamic_int64_and_reused_output() {
    let mut host = host(compute_identity);
    let mut model = host.load(&dynamic(), OnnxOptions::cpu()).unwrap();
    assert!(!model.is_prepared());
    for batch in [1, 4, 2] {
        let shape = [batch, 3];
        let input: Vec<i64> = (0..batch * 3).map(|x| x as i64).collect();
        let mut output = vec![0_i64; input.len()];
        host.inference_into(
            &mut model,
            &[TensorView { name: "tokens", shape: &shape, data: TensorData::I64(&input) }],
            &mut [TensorViewMut {
                name: "result",
                shape: &shape,
                data: TensorDataMut::I64(&mut output),
            }],
        )
        .unwrap();
        assert_eq!(input, output);
    }
}

#[test]
fn unavailable_configured_provider_falls_back_with_reason() {
    let mut options = OnnxOptions::for_platform(Platform::Cuda);
    options.backend = BackendSelection::Auto(vec![
        Backend::Custom {
            name: "unavailable-v1".into(),
            provider: CustomProvider { kind: ProviderKind::Cuda, id: 0 },
        },
        Backend::Cpu,
    ]);
    let model = host(compute_multi).load(&multi(), options).unwrap();
    assert_eq!(model.backend(), Some("CPU"));
    assert_eq!(model.fallback_events().len(), 1);
    assert_eq!(model.fallback_events()[0].backend, "unavailable-v1");
    assert!(!model.fallback_events()[0].error.is_empty());
}

#[test]
fn no_configured_backend_is_an_error() {
    let mut options = OnnxOptions::for_platform(Platform::Cuda);
    options.backend = BackendSelection::Auto(vec![]);
    let error = host(compute_multi).load(&multi(), options).unwrap_err();
    assert_eq!(error.message(), "At least one backend is required");
}

#[test]
fn required_unavailable_provider_returns_error() {
    let mut options = OnnxOptions::for_platform(Platform::Cuda);
    options.backend = BackendSelection::Require(Backend::Custom {
        name: "unavailable".into(),
        provider: CustomProvider { kind: ProviderKind::Cuda, id: 0 },
    });
    let error = host(compute_multi).load(&multi(), options).unwrap_err();
    assert_eq!(
        error.report(),
        "All configured ONNX backends failed:\n  unavailable: unavailable provider: Custom \
         CUDA/TensorRT providers are not supported: use Backend::Cuda with CudaOptions or \
         Backend::TensorRt with TensorRtOptions (CompileTarget::Cuda/TensorRt for compilation) \
         so native-onnx can own the stream and coordinate CUDA graph capture"
    );
}

#[test]
fn ordinary_onnx_detection_does_not_depend_on_extension() {
    let host = host(compute_multi);
    let mut model =
        OnnxRuntime::load(&multi(), "native-onnx-graph.ctx.onnx", OnnxOptions::cpu(), None)
            .unwrap();
    host.open_all(&mut model).unwrap();
    assert_eq!(model.backend(), Some("CPU"));
}

#[test]
fn cpu_ignores_unrelated_gpu_settings() {
    let mut options = OnnxOptions::cpu();
    options.tensorrt =
        Some(TensorRtOptions { builder_optimization_level: 99, ..TensorRtOptions::default() });
    options.cuda = Some(CudaOptions { device_id: -1, tf32: false, cuda_graph: true });
    let mut host = host(compute_linear);
    let mut model = host.load(&linear(), options).unwrap();
    let x = bits(&[1.; 16]);
    let input = TensorView::float32("x", &[1, 16], &x);
    let output = host.inference(&mut model, &[input]).unwrap();
    assert_eq!(floats(&output[0].view()), [16.; 16]);
}

#[test]
fn invalid_provider_options_obey_backend_selection() {
    let invalid_trt = TensorRtOptions { workspace_bytes: 0, ..TensorRtOptions::default() };
    let invalid_cuda = CudaOptions { device_id: -1, ..CudaOptions::default() };
    let host = host(compute_linear);
    for backend in [Backend::TensorRt, Backend::Cuda] {
        let mut options = OnnxOptions::for_platform(Platform::Cuda);
        options.backend = BackendSelection::Require(backend);
        options.tensorrt = Some(invalid_trt.clone());
        options.cuda = Some(invalid_cuda);
        assert!(host.load(&linear(), options).is_err());
    }
    let mut options = OnnxOptions::for_platform(Platform::Cuda);
    options.backend =
        BackendSelection::Auto(vec![Backend::TensorRt, Backend::Cuda, Backend::Cpu]);
    options.tensorrt = Some(invalid_trt);
    options.cuda = Some(invalid_cuda);
    let model = host.load(&linear(), options).unwrap();
    assert_eq!(model.backend(), Some("CPU"));
    assert_eq!(model.fallback_events().len(), 2);
    assert_eq!(model.fallback_events()[0].backend, "TensorRT");
    assert_eq!(
        model.fallback_events()[0].error,
        "TensorRT provider: Workspace must be positive"
    );
    assert_eq!(model.fallback_events()[1].backend, "CUDA");
    assert_eq!(model.fallback_events()[1].error, "CUDA provider: Negative CUDA device id");
}

#[test]
fn a_failed_run_retries_the_same_inputs_on_the_next_candidate() {
    let mut host = host(compute_multi);
    host.installed = vec![3];
    host.failing = vec![1];
    let mut options = OnnxOptions::for_platform(Platform::Other);
    options.backend = BackendSelection::Auto(vec![
        Backend::Custom {
            name: "first".into(),
            provider: CustomProvider { kind: ProviderKind::Other, id: 3 },
        },
        Backend::Cpu,
    ]);
    let mut model = host.load(&multi(), options).unwrap();
    assert_eq!(model.backend(), Some("first"));
    assert!(!model.is_prepared());
    let x = bits(&[1.0, 2.0, 3.0, 4.0, 5.0, 6.0]);
    let y = bits(&[2.0; 6]);
    let inputs = [
        TensorView::float32("y", &[2, 3], &y),
        TensorView::float32("x", &[2, 3], &x),
    ];
    let values = host.inference(&mut model, &inputs).unwrap();
    assert_eq!(values[0].name, "sum");
    assert_eq!(floats(&values[0].view()), [3., 4., 5., 6., 7., 8.]);
    assert_eq!(values[1].name, "product");
    assert_eq!(model.backend(), Some("CPU"));
    assert!(model.is_prepared());
    assert_eq!(model.fallback_events().len(), 1);
    assert_eq!(model.fallback_events()[0].error, "CUDA failure 700");
}

#[test]
fn a_failed_prepared_run_is_replayed_on_the_next_candidate() {
    let mut host = host(compute_multi);
    host.failing = vec![1];
    let mut options = OnnxOptions::for_platform(Platform::Other);
    options.backend = BackendSelection::Auto(vec![Backend::Cpu, Backend::Cpu]);
    let mut model = host.load(&multi(), options).unwrap();
    model.input_mut("x").unwrap().as_f32_mut().unwrap().fill(Float32 { bits: 5.0f32.to_bits() });
    host.run_prepared(&mut model).unwrap();
    assert_eq!(floats(&model.output("sum").unwrap()), [5.; 6]);
    assert_eq!(model.fallback_events().len(), 1);
    assert_eq!(model.fallback_events()[0].backend, "CPU");
    assert_eq!(model.fallback_events()[0].error, "Inference: CUDA failure 700");
}

#[test]
fn a_failed_prepared_run_needs_prepared_outputs_on_the_next_candidate() {
    let mut host = host(compute_multi);
    host.failing = vec![1];
    host.installed = vec![8];
    let mut options = OnnxOptions::for_platform(Platform::Other);
    options.backend = BackendSelection::Auto(vec![
        Backend::Cpu,
        Backend::Custom {
            name: "custom".into(),
            provider: CustomProvider { kind: ProviderKind::Other, id: 8 },
        },
    ]);
    let mut model = host.load(&multi(), options).unwrap();
    let error = host.run_prepared(&mut model).unwrap_err();
    assert_eq!(
        error.message(),
        "Fallback ran successfully but has no prepared output; use inference for custom providers"
    );
    assert_eq!(model.run().unwrap_err().message(), "Prepared buffers unavailable");
    assert_eq!(model.output("sum").unwrap_err().message(), "Prepared buffers unavailable");
    assert_eq!(
        model.input_mut("x").unwrap_err().message(),
        "Prepared buffers unavailable; use inference for dynamic I/O"
    );
}

#[test]
fn a_required_provider_reports_a_failed_run_and_stays_active() {
    let mut host = host(compute_linear);
    host.failing = vec![1];
    let mut model = host.load(&linear(), OnnxOptions::cpu()).unwrap();
    let x = bits(&[1.; 16]);
    let input = TensorView::float32("x", &[1, 16], &x);
    let error = host.inference(&mut model, &[input]).unwrap_err();
    assert_eq!(error.report(), "Inference: CUDA failure 700");
    assert_eq!(model.backend(), Some("CPU"));
    assert!(model.fallback_events().is_empty());
    let output = host.inference(&mut model, &[input]).unwrap();
    assert_eq!(floats(&output[0].view()), [16.; 16]);
}

#[test]
fn exhausted_fallback_leaves_no_backend() {
    let mut host = host(compute_linear);
    host.failing = vec![1, 2];
    let mut options = OnnxOptions::for_platform(Platform::Other);
    options.backend = BackendSelection::Auto(vec![Backend::Cpu, Backend::Cpu]);
    let mut model = host.load(&linear(), options).unwrap();
    let x = bits(&[1.; 16]);
    let input = TensorView::float32("x", &[1, 16], &x);
    let error = host.inference(&mut model, &[input]).unwrap_err();
    assert_eq!(
        error.message(),
        "All configured ONNX backends failed:\n  CPU: Inference: CUDA failure 700\n  CPU: \
         Inference: CUDA failure 700"
    );
    assert_eq!(model.backend(), None);
    assert!(!model.is_prepared() && !model.cuda_graph_enabled());
    assert_eq!(model.inference(&[input]).unwrap_err().message(), "No active backend");
    assert_eq!(model.run().unwrap_err().message(), "No active backend");
    assert_eq!(model.end_profiling().unwrap_err().message(), "No active backend");
}

#[test]
fn every_candidate_is_run_at_most_once() {
    let mut host = host(compute_linear);
    host.failing = (1..=10).collect();
    let mut options = OnnxOptions::for_platform(Platform::Other);
    options.backend = BackendSelection::Auto(vec![Backend::Cpu, Backend::Cuda, Backend::Cpu]);
    let mut model = host.load(&linear(), options).unwrap();
    let x = bits(&[1.; 16]);
    let input = TensorView::float32("x", &[1, 16], &x);
    assert!(host.inference(&mut model, &[input]).is_err());
    assert_eq!(host.runs, 2);
    let failed: Vec<&str> = model.fallback_events().iter().map(|e| e.backend.as_str()).collect();
    assert_eq!(failed, ["CPU", "CUDA", "CPU"]);
}

#[test]
fn an_into_inference_falls_back_and_fills_its_buffers() {
    let mut host = host(compute_multi);
    host.failing = vec![1];
    let mut options = OnnxOptions::for_platform(Platform::Other);
    options.backend = BackendSelection::Auto(vec![Backend::Cpu, Backend::Cpu]);
    let mut model = host.load(&multi(), options).unwrap();
    let x = bits(&[3.; 6]);
    let y = bits(&[4.; 6]);
    let inputs = [
        TensorView::float32("x", &[2, 3], &x),
        TensorView::float32("y", &[2, 3], &y),
    ];
    let mut product = bits(&[0.; 6]);
    let mut sum = bits(&[0.; 6]);
    host.inference_into(
        &mut model,
        &inputs,
        &mut [
            TensorViewMut::float32("product", &[2, 3], &mut product),
            TensorViewMut::float32("sum", &[2, 3], &mut sum),
        ],
    )
    .unwrap();
    assert_eq!(product, bits(&[12.; 6]));
    assert_eq!(sum, bits(&[7.; 6]));
    assert_eq!(model.fallback_events().len(), 1);
}

#[test]
fn output_buffers_are_checked_before_the_run() {
    let mut host = host(compute_multi);
    let mut model = host.load(&multi(), OnnxOptions::cpu()).unwrap();
    let x = bits(&[3.; 6]);
    let inputs = [
        TensorView::float32("x", &[2, 3], &x),
        TensorView::float32("y", &[2, 3], &x),
    ];
    let mut a = bits(&[0.; 6]);
    let mut b = bits(&[0.; 6]);
    let error = host
        .inference_into(
            &mut model,
            &inputs,
            &mut [TensorViewMut::float32("sum", &[2, 3], &mut a)],
        )
        .unwrap_err();
    assert_eq!(error.message(), "Output count mismatch");
    let error = host
        .inference_into(
            &mut model,
            &inputs,
            &mut [
                TensorViewMut::float32("sum", &[2, 3], &mut a),
                TensorViewMut::float32("sum", &[2, 3], &mut b),
            ],
        )
        .unwrap_err();
    assert_eq!(error.message(), "Duplicate output sum");
    let error = host
        .inference_into(
            &mut model,
            &inputs,
            &mut [
                TensorViewMut::float32("sum", &[2, 3], &mut a),
                TensorViewMut::float32("other", &[2, 3], &mut b),
            ],
        )
        .unwrap_err();
    assert_eq!(error.message(), "Unknown output");
    let error = host
        .inference_into(
            &mut model,
            &inputs,
            &mut [
                TensorViewMut::float32("sum", &[3, 2], &mut a),
                TensorViewMut::float32("product", &[2, 3], &mut b),
            ],
        )
        .unwrap_err();
    assert_eq!(error.message(), "Output shape/type/length mismatch");
    assert_eq!(host.runs, 0);
    assert_eq!(a, bits(&[0.; 6]));
}

#[test]
fn inputs_are_checked_against_the_model() {
    let mut host = host(compute_multi);
    let mut model = host.load(&multi(), OnnxOptions::cpu()).unwrap();
    let x = bits(&[3.; 6]);
    let view = |name| TensorView::float32(name, &[2, 3], &x);
    for (inputs, message) in [
        (vec![view("x")], "Input count mismatch"),
        (vec![view("x"), view("x")], "Duplicate input x"),
        (vec![view("x"), view("z")], "Unknown input z"),
    ] {
        let error = host.inference(&mut model, &inputs).unwrap_err();
        assert_eq!(error.message(), message);
    }
    let integers = [0i64; 6];
    let integer = TensorView { name: "y", shape: &[2, 3], data: TensorData::I64(&integers) };
    let error = host.inference(&mut model, &[view("x"), integer]).unwrap_err();
    assert_eq!(error.message(), "Tensor y expects F32, got I64");
    let flat = TensorView::float32("y", &[6], &x);
    let error = host.inference(&mut model, &[view("x"), flat]).unwrap_err();
    assert_eq!(error.message(), "Tensor y expects shape Some([Some(2), Some(3)]), got [6]");
    let short = TensorView::float32("y", &[2, 3], &x[..5]);
    let error = host.inference(&mut model, &[view("x"), short]).unwrap_err();
    assert_eq!(error.message(), "Tensor length mismatch: y");
    assert_eq!(model.input_mut("z").unwrap_err().message(), "Unknown input");
    host.run_prepared(&mut model).unwrap();
    assert_eq!(model.output("z").unwrap_err().message(), "Unknown output");
    assert!(model.output("sum").is_ok());
    assert!(model.input_mut("z").is_err());
    assert_eq!(
        model.output("sum").unwrap_err().message(),
        "No successful output for current input"
    );
}

#[test]
fn sessions_do_not_share_state() {
    let mut first = host(compute_linear);
    let mut second = host(compute_multi);
    let mut a = first.load(&linear(), OnnxOptions::cpu()).unwrap();
    let mut b = second.load(&multi(), OnnxOptions::cpu()).unwrap();
    for round in 1..=40 {
        let n = round as f32;
        let x = bits(&[n; 16]);
        let out =
            first.inference(&mut a, &[TensorView::float32("x", &[1, 16], &x)]).unwrap();
        assert_eq!(floats(&out[0].view()), [16. * n; 16]);
        let x = bits(&[n; 6]);
        let y = bits(&[2.; 6]);
        let out = second
            .inference(
                &mut b,
                &[
                    TensorView::float32("x", &[2, 3], &x),
                    TensorView::float32("y", &[2, 3], &y),
                ],
            )
            .unwrap();
        for tensor in out {
            let expected = match tensor.name.as_str() {
                "sum" => n + 2.,
                "product" => n * 2.,
                name => panic!("unexpected output {name}"),
            };
            assert_eq!(floats(&tensor.view()), [expected; 6]);
        }
    }
    assert!(a.fallback_events().is_empty() && b.fallback_events().is_empty());
}
