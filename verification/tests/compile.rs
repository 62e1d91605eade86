use native_onnx::api::{Compilation, CompiledFormat, IntoStep, ModelInfo, OnnxRuntime, Outcome, Step};
use native_onnx::buffers::RunOutcome;
use native_onnx::element::ElementType;
use native_onnx::error::Error;
use native_onnx::options::{
    Backend, BackendSelection, CompileOptions, CompileTarget, CudaOptions, CustomProvider,
    HostText, OnnxOptions, Platform, ProviderKind, TensorRtOptions,
};
use native_onnx::session::{
    ActiveSession, Environment, NativeRun, Outlet, ProviderPlan, RawOutput,
};
use native_onnx::tensor::{
    copy_outputs, Float32, Tensor, TensorBuffer, TensorData, TensorSpec, TensorView,
    TensorViewMut,
};

fn bits(values: &[f32]) -> Vec<Float32> {
    values.iter().map(|v| Float32 { bits: v.to_bits() }).collect()
}

fn floats(tensor: &TensorView<'_>) -> Vec<f32> {
    tensor.as_f32().unwrap().iter().map(|v| f32::from_bits(v.bits)).collect()
}

fn varint(mut n: u64) -> Vec<u8> {
    let mut out = Vec::new();
    while n >= 0x80 {
        out.push((n as u8 & 0x7f) | 0x80);
        n >>= 7;
    }
    out.push(n as u8);
    out
}

fn number(field: u64, n: u64) -> Vec<u8> {
    [varint(field << 3), varint(n)].concat()
}

fn bytes(field: u64, data: &[u8]) -> Vec<u8> {
    [varint(field << 3 | 2), varint(data.len() as u64), data.to_vec()].concat()
}

/// A dimension: a number, or a symbol.
enum Dim {
    N(i64),
    S(&'static str),
}

/// A declared input or output: its name, the number of its element type, its dimensions.
fn value(name: &str, elem_type: u64, dims: Option<&[Dim]>) -> Vec<u8> {
    let mut tensor = number(1, elem_type);
    if let Some(dims) = dims {
        let mut shape = Vec::new();
        for dim in dims {
            let dim = match dim {
                Dim::N(n) => number(1, *n as u64),
                Dim::S(s) => bytes(2, s.as_bytes()),
            };
            shape.extend(bytes(1, &dim));
        }
        tensor.extend(bytes(2, &shape));
    }
    [bytes(1, name.as_bytes()), bytes(2, &bytes(1, &tensor))].concat()
}

fn node(domain: &str, operator: &str) -> Vec<u8> {
    [bytes(4, operator.as_bytes()), bytes(7, domain.as_bytes())].concat()
}

fn model(nodes: &[Vec<u8>], inputs: &[Vec<u8>], outputs: &[Vec<u8>]) -> Vec<u8> {
    let mut graph = Vec::new();
    nodes.iter().for_each(|n| graph.extend(bytes(1, n)));
    inputs.iter().for_each(|v| graph.extend(bytes(11, v)));
    outputs.iter().for_each(|v| graph.extend(bytes(12, v)));
    [number(1, 8), bytes(7, &graph)].concat()
}

/// `y` is every element of `x` summed up, sixteen times over.
fn linear() -> Vec<u8> {
    let dims = [Dim::N(1), Dim::N(16)];
    model(
        &[node("", "MatMul")],
        &[value("x", 1, Some(&dims))],
        &[value("y", 1, Some(&dims))],
    )
}

/// `sum` and `product` of `x` and `y`.
fn multi() -> Vec<u8> {
    let dims = [Dim::N(2), Dim::N(3)];
    model(
        &[node("", "Add"), node("", "Mul")],
        &[value("x", 1, Some(&dims)), value("y", 1, Some(&dims))],
        &[value("sum", 1, Some(&dims)), value("product", 1, Some(&dims))],
    )
}

/// `result` is `tokens`, for any batch.
fn dynamic() -> Vec<u8> {
    let dims = [Dim::S("batch"), Dim::N(3)];
    model(
        &[node("", "Identity")],
        &[value("tokens", 7, Some(&dims))],
        &[value("result", 7, Some(&dims))],
    )
}

/// A stand-in for the native runtime: a host with a CPU provider and no GPU, whose
/// sessions compute a fixed function.
struct Host {
    compute: fn(&[Tensor]) -> Vec<Tensor>,
    /// How often a run was made.
    runs: usize,
    /// Runs that fail, by their number.
    failing: Vec<usize>,
    /// Custom providers that are installed.
    installed: Vec<usize>,
}

fn environment() -> Environment {
    Environment { tf32_override: None, tensorrt_cache: None }
}

fn find<'a>(tensors: &'a [Tensor], name: &str) -> &'a Tensor {
    tensors.iter().find(|t| t.name == name).unwrap()
}

fn single(name: &str, shape: &[usize], values: Vec<f32>) -> Tensor {
    Tensor { name: name.into(), shape: shape.into(), data: TensorBuffer::F32(bits(&values)) }
}

fn compute_linear(inputs: &[Tensor]) -> Vec<Tensor> {
    let x = floats(&find(inputs, "x").view());
    vec![single("y", &[1, 16], vec![x.iter().sum(); 16])]
}

fn compute_multi(inputs: &[Tensor]) -> Vec<Tensor> {
    let x = floats(&find(inputs, "x").view());
    let y = floats(&find(inputs, "y").view());
    vec![
        single("sum", &[2, 3], x.iter().zip(&y).map(|(a, b)| a + b).collect()),
        single("product", &[2, 3], x.iter().zip(&y).map(|(a, b)| a * b).collect()),
    ]
}

fn compute_identity(inputs: &[Tensor]) -> Vec<Tensor> {
    vec![inputs[0].clone()]
}

fn host(compute: fn(&[Tensor]) -> Vec<Tensor>) -> Host {
    Host { compute, runs: 0, failing: vec![], installed: vec![] }
}

fn outlets(specs: &[TensorSpec]) -> Vec<Outlet> {
    specs
        .iter()
        .map(|s| Outlet {
            name: s.name.clone(),
            element_type: Some(ElementType::of(s.dtype)),
            shape: s
                .shape
                .as_ref()
                .map_or(vec![], |dims| dims.iter().map(|d| d.map_or(-1, |n| n as i64)).collect()),
        })
        .collect()
}

impl Host {
    /// Open the current candidate.
    fn open(&self, runtime: &OnnxRuntime) -> Result<(ActiveSession, ModelInfo), Error> {
        runtime.load_stream(&environment())?;
        let plan = runtime.load_builder(&environment())?;
        for provider in plan.providers? {
            let available = match provider {
                ProviderPlan::Cpu => true,
                ProviderPlan::Custom(id) => self.installed.contains(&id),
                ProviderPlan::Cuda { required, .. } => !required,
                _ => false,
            };
            if !available {
                let error = Error::External("Failed to load libonnxruntime_providers.so".into());
                return Err(runtime.provider_failed(error));
            }
        }
        let info = runtime.info();
        runtime.open(&outlets(&info.inputs), &outlets(&info.outputs))
    }

    fn open_all(&self, runtime: &mut OnnxRuntime) -> Result<(), Error> {
        while runtime.is_loading() {
            match self.open(runtime) {
                Ok((session, info)) => runtime.activate(session, info),
                Err(error) => runtime.load_failed(error)?,
            }
        }
        Ok(())
    }

    fn load(&self, bytes: &[u8], options: OnnxOptions) -> Result<OnnxRuntime, Error> {
        let mut runtime = OnnxRuntime::load(bytes, "model.onnx", options, None)?;
        self.open_all(&mut runtime)?;
        Ok(runtime)
    }

    fn run(&mut self, runtime: &OnnxRuntime, run: NativeRun, inputs: &[TensorView<'_>]) -> Outcome {
        self.runs += 1;
        let failed = self.failing.contains(&self.runs);
        let error = || Error::External("CUDA failure 700".into());
        match run {
            NativeRun::Prepared { .. } => {
                if failed {
                    return Outcome::Prepared(RunOutcome::InferenceFailed(error()));
                }
                let inputs: Vec<Tensor> =
                    runtime.prepared_inputs().iter().map(|v| TensorView::to_owned(*v)).collect();
                let values = (self.compute)(&inputs);
                let values = runtime
                    .info()
                    .outputs
                    .iter()
                    .map(|s| find(&values, &s.name).data.clone())
                    .collect();
                Outcome::Prepared(RunOutcome::Done(values))
            }
            NativeRun::Dynamic => {
                if failed {
                    return Outcome::Dynamic(Err(error()));
                }
                let inputs: Vec<Tensor> = inputs.iter().map(|v| TensorView::to_owned(*v)).collect();
                let values = (self.compute)(&inputs);
                Outcome::Dynamic(Ok(values
                    .into_iter()
                    .map(|t| RawOutput {
                        shape: t.shape.iter().map(|&n| n as i64).collect(),
                        data: t.data,
                    })
                    .collect()))
            }
        }
    }

    fn drive(
        &mut self,
        runtime: &mut OnnxRuntime,
        inputs: &[TensorView<'_>],
        first: Step,
    ) -> Result<Vec<Tensor>, Error> {
        let mut step = first;
        loop {
            if let Step::Run(run) = step {
                let outcome = self.run(runtime, run, inputs);
                assert!(runtime.accepts(&outcome));
                if let Some(values) = runtime.finish_inference(outcome)? {
                    return Ok(values);
                }
            }
            self.open_all(runtime)?;
            step = runtime.retry(inputs)?;
        }
    }

    fn inference(
        &mut self,
        runtime: &mut OnnxRuntime,
        inputs: &[TensorView<'_>],
    ) -> Result<Vec<Tensor>, Error> {
        let step = runtime.inference(inputs)?;
        self.drive(runtime, inputs, step)
    }

    fn inference_into(
        &mut self,
        runtime: &mut OnnxRuntime,
        inputs: &[TensorView<'_>],
        outputs: &mut [TensorViewMut<'_>],
    ) -> Result<(), Error> {
        let mut step = runtime.inference_into(inputs, outputs)?;
        loop {
            match step {
                IntoStep::Collect(step) => {
                    let values = self.drive(runtime, inputs, step)?;
                    return copy_outputs(&values, outputs);
                }
                IntoStep::Direct(run) => {
                    let Outcome::Prepared(outcome) = self.run(runtime, run, inputs) else {
                        unreachable!()
                    };
                    if runtime.finish_inference_into(outcome, outputs)? {
                        return Ok(());
                    }
                    self.open_all(runtime)?;
                    step = runtime.retry_into(inputs)?;
                }
            }
        }
    }

    fn run_prepared(&mut self, runtime: &mut OnnxRuntime) -> Result<(), Error> {
        let run = runtime.run()?;
        let Outcome::Prepared(outcome) = self.run(runtime, run, &[]) else {
            unreachable!()
        };
        if let Some(inputs) = runtime.finish_run(outcome)? {
            self.open_all(runtime)?;
            let views: Vec<TensorView<'_>> = inputs.iter().map(Tensor::view).collect();
            self.inference(runtime, &views)?;
            runtime.finish_replay()?;
        }
        Ok(())
    }
}

/// Compile with the runtime's own compiler, which here keeps the graph as it is apart
/// from resolved dimensions.
fn compile(
    host: &mut Host,
    source: &[u8],
    compiled: &[u8],
    destination_exists: bool,
    options: CompileOptions,
    inputs: &[TensorView<'_>],
) -> Result<Compilation, Error> {
    let job = OnnxRuntime::compile(destination_exists, options)?;
    job.check_source(source, "source.onnx")?;
    assert!(job.profiled_options(HostText::Unicode("profile".into())).is_none());
    if let Err(error) = job.compile_stream(&environment()) {
        return Err(job.failed(error));
    }
    match job.compile_builder(&environment()) {
        Err(error) => return Err(job.failed(error)),
        Ok(plan) => {
            if let Err(error) = plan.providers {
                return Err(job.failed(error));
            }
        }
    }
    let staged = job.stage(compiled, "compiled.onnx")?;
    let options = staged.compile_job().options().clone();
    let validated = match host.load(compiled, options) {
        Err(error) => Err(error),
        Ok(mut model) => host.inference(&mut model, inputs).map(|_| ()),
    };
    staged.publish(validated)
}

#[test]
fn cpu_compile_roundtrip_and_output_validation() {
    let mut host = host(compute_linear);
    let x = bits(&[1.; 16]);
    let inputs = [TensorView::float32("x", &[1, 16], &x)];
    let options = || CompileOptions::new(CompileTarget::Cpu);
    let result = compile(&mut host, &linear(), &linear(), false, options(), &inputs).unwrap();
    assert_eq!(result.backend, "CPU");
    assert_eq!(result.format, CompiledFormat::OptimizedOnnx);
    let mut loaded = host.load(&linear(), OnnxOptions::cpu()).unwrap();
    let output = host.inference(&mut loaded, &inputs).unwrap();
    assert_eq!(floats(&output[0].view()), [16.; 16]);
    let error = compile(&mut host, &linear(), &linear(), true, options(), &inputs).unwrap_err();
    assert_eq!(error.message(), "Compiled output already exists");
    let zero = bits(&[0.]);
    let bad_input = [TensorView::float32("wrong", &[1], &zero)];
    let error =
        compile(&mut host, &linear(), &linear(), false, options(), &bad_input).unwrap_err();
    assert_eq!(error.report(), "Compile for CPU: Unknown input wrong");
}

#[test]
fn compile_rejects_invalid_target_settings_without_fallback() {
    let x = bits(&[1.; 16]);
    let inputs = [TensorView::float32("x", &[1, 16], &x)];
    for (target, expected) in [
        (
            CompileTarget::TensorRt(TensorRtOptions {
                workspace_bytes: 0,
                ..TensorRtOptions::default()
            }),
            "Workspace must be positive",
        ),
        (
            CompileTarget::Cuda(CudaOptions { device_id: -1, ..CudaOptions::default() }),
            "Negative CUDA device id",
        ),
    ] {
        let mut host = host(compute_linear);
        let options = CompileOptions::new(target);
        let error =
            compile(&mut host, &linear(), &linear(), false, options, &inputs).unwrap_err();
        assert!(error.report().contains(expected), "{}", error.report());
        assert_eq!(host.runs, 0);
    }
}

#[test]
fn compile_accepts_a_configured_custom_provider() {
    let mut host = host(compute_linear);
    host.installed = vec![4];
    let x = bits(&[1.; 16]);
    let inputs = [TensorView::float32("x", &[1, 16], &x)];
    let options = CompileOptions::new(CompileTarget::Custom {
        name: "Configured CPU".into(),
        provider: CustomProvider { kind: ProviderKind::Cpu, id: 4 },
    });
    let result = compile(&mut host, &linear(), &linear(), false, options, &inputs).unwrap();
    assert_eq!(result.backend, "Configured CPU");
    let mut model = host.load(&linear(), OnnxOptions::cpu()).unwrap();
    let output = host.inference(&mut model, &inputs).unwrap();
    assert_eq!(floats(&output[0].view()), [16.; 16]);
}

#[test]
fn compile_applies_dimension_overrides() {
    let mut host = host(compute_identity);
    let values = [1_i64, 2, 3, 4, 5, 6];
    let inputs =
        [TensorView { name: "tokens", shape: &[2, 3], data: TensorData::I64(&values) }];
    let mut options = CompileOptions::new(CompileTarget::Cpu);
    options.intra_threads = 2;
    options.inter_threads = 2;
    options.parallel_execution = true;
    assert_eq!(options.dimension_overrides.insert("batch".into(), 2), None);
    // The compiler resolves the symbol that is overridden.
    let dims = [Dim::N(2), Dim::N(3)];
    let fixed = model(
        &[node("", "Identity")],
        &[value("tokens", 7, Some(&dims))],
        &[value("result", 7, Some(&dims))],
    );
    fn renamed(inputs: &[Tensor]) -> Vec<Tensor> {
        vec![Tensor { name: "result".into(), ..inputs[0].clone() }]
    }
    host.compute = renamed;
    let overridden = OnnxOptions {
        dimension_overrides: options.dimension_overrides.clone(),
        ..OnnxOptions::cpu()
    };
    compile(&mut host, &dynamic(), &fixed, false, options, &inputs).unwrap();
    let mut loaded = host.load(&fixed, OnnxOptions::cpu()).unwrap();
    assert_eq!(loaded.info().inputs[0].fixed_shape(), Some(vec![2, 3]));
    let outputs = host.inference(&mut loaded, &inputs).unwrap();
    let TensorData::I64(output) = outputs[0].view().data else {
        panic!("Expected an i64 output");
    };
    assert_eq!(output, &values);
    let resolved = host.load(&dynamic(), overridden).unwrap();
    assert_eq!(resolved.info().inputs[0].fixed_shape(), Some(vec![2, 3]));
}

#[test]
fn compilations_can_be_cloned() {
    let report = Compilation { backend: "CPU".into(), format: CompiledFormat::EpContext };
    let copy = report.clone();
    assert_eq!((copy.backend, copy.format), (report.backend, report.format));
}

#[test]
fn only_tensorrt_compiles_from_a_profile() {
    let job = OnnxRuntime::compile(
        false,
        CompileOptions::new(CompileTarget::TensorRt(TensorRtOptions::default())),
    )
    .unwrap();
    let options = job.profiled_options(HostText::Unicode("dir/profile".into())).unwrap();
    assert!(matches!(&options.profiling, Some(HostText::Unicode(p)) if p == "dir/profile"));
    assert!(matches!(options.backend, BackendSelection::Require(Backend::TensorRt)));
    assert!(job.options().profiling.is_none());
    assert_eq!(job.compile_stream(&environment()).unwrap(), Some(0));
    let runtime = OnnxRuntime::load(
        &linear(),
        "source.onnx",
        options,
        Some(HostText::Unicode("dir".into())),
    )
    .unwrap();
    let plan = runtime.load_builder(&environment()).unwrap();
    assert!(matches!(&plan.profiling, Some(HostText::Unicode(p)) if p == "dir/profile"));
    assert!(matches!(
        &plan.providers.unwrap()[0],
        ProviderPlan::TensorRt { engine_cache: Some(path), .. } if path == "dir"
    ));
}

#[test]
fn compiled_models_are_no_sources() {
    let dims = [Dim::N(1)];
    let context = model(
        &[node("com.microsoft", "EPContext")],
        &[value("x", 1, Some(&dims))],
        &[value("y", 1, Some(&dims))],
    );
    let job = OnnxRuntime::compile(false, CompileOptions::new(CompileTarget::Cpu)).unwrap();
    assert_eq!(
        job.check_source(&context, "a.onnx").unwrap_err().message(),
        "Compile requires an ONNX graph, not an existing EPContext"
    );
    assert_eq!(
        job.check_source(&[0x08], "a.onnx").unwrap_err().report(),
        "Parse ONNX model a.onnx: unexpected EOF at offset 1 while reading varint"
    );
    let error = OnnxRuntime::load(
        &context,
        "a.onnx",
        OnnxOptions::cpu(),
        Some(HostText::Unicode("dir".into())),
    )
    .unwrap_err();
    assert_eq!(error.message(), "Compile requires the original ONNX graph");
    let staged = job.stage(&context, "compiled.onnx").unwrap();
    let report = staged.publish(Ok(())).unwrap();
    assert_eq!((report.backend.as_str(), report.format), ("CPU", CompiledFormat::EpContext));
    let job = OnnxRuntime::compile(false, CompileOptions::new(CompileTarget::CoreMl)).unwrap();
    assert_eq!(
        job.stage(&[0x08], "compiled.onnx").unwrap_err().report(),
        "Compile for CoreML: Parse ONNX model compiled.onnx: unexpected EOF at offset 1 while \
         reading varint"
    );
    let mut options = CompileOptions::new(CompileTarget::Cpu);
    options.intra_threads = usize::MAX;
    assert_eq!(
        OnnxRuntime::compile(false, options).unwrap_err().message(),
        "Thread counts must fit in a signed 32-bit integer"
    );
}

#[test]
fn compiled_models_never_fall_back() {
    let dims = [Dim::N(1), Dim::N(16)];
    let context = model(
        &[node("com.microsoft", "EPContext")],
        &[value("x", 1, Some(&dims))],
        &[value("y", 1, Some(&dims))],
    );
    let mut options = OnnxOptions::for_platform(Platform::Other);
    options.backend = BackendSelection::Auto(vec![Backend::Cuda, Backend::Cpu, Backend::Cpu]);
    let mut host = host(compute_linear);
    host.failing = vec![1];
    let mut runtime = OnnxRuntime::load(&context, "a.onnx", options, None).unwrap();
    assert!(runtime.load_builder(&environment()).unwrap().disable_cpu_fallback);
    host.open_all(&mut runtime).unwrap();
    assert_eq!(runtime.backend(), Some("CPU"));
    assert_eq!(runtime.fallback_events().len(), 1);
    let x = bits(&[1.; 16]);
    let input = TensorView::float32("x", &[1, 16], &x);
    assert_eq!(
        host.inference(&mut runtime, &[input]).unwrap_err().report(),
        "Inference: CUDA failure 700"
    );
    assert_eq!(runtime.fallback_events().len(), 1);
    assert_eq!(runtime.backend(), Some("CPU"));
    let mut options = OnnxOptions::for_platform(Platform::Other);
    options.backend = BackendSelection::Auto(vec![Backend::Cuda]);
    assert!(host
        .load(&context, options)
        .unwrap_err()
        .message()
        .starts_with("No configured backend could load the EPContext:\n  CUDA: CUDA native"));
}
