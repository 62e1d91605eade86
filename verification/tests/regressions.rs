use native_onnx::api::{IntoStep, ModelInfo, OnnxRuntime, Outcome, Step};
use native_onnx::buffers::{RunOutcome, RunPlan};
use native_onnx::element::ElementType;
use native_onnx::error::{Error, Fault};
use native_onnx::options::{
    Backend, BackendSelection, CudaOptions, OnnxOptions, Platform, TensorRtOptions,
};
use native_onnx::session::{
    Access, ActiveSession, Environment, NativeRun, Outlet, ProviderPlan, RawOutput,
};
use native_onnx::tensor::{
    copy_outputs, element_count, DType, Float16, Float32, Tensor, TensorBuffer, TensorData,
    TensorDataMut, TensorSpec, TensorView, TensorViewMut,
};

fn bits(values: &[f32]) -> Vec<Float32> {
    values.iter().map(|v| Float32 { bits: v.to_bits() }).collect()
}

fn floats(tensor: &TensorView<'_>) -> Vec<f32> {
    tensor.as_f32().unwrap().iter().map(|v| f32::from_bits(v.bits)).collect()
}

fn varint(mut n: u64) -> Vec<u8> {
    let mut out = Vec::new();
    while n >= 0x80 {
        out.push((n as u8 & 0x7f) | 0x80);
        n >>= 7;
    }
    out.push(n as u8);
    out
}

fn number(field: u64, n: u64) -> Vec<u8> {
    [varint(field << 3), varint(n)].concat()
}

fn bytes(field: u64, data: &[u8]) -> Vec<u8> {
    [varint(field << 3 | 2), varint(data.len() as u64), data.to_vec()].concat()
}

/// A dimension: a number, or a symbol.
enum Dim {
    N(i64),
    S(&'static str),
}

/// A declared input or output: its name, the number of its element type, its dimensions.
fn value(name: &str, elem_type: u64, dims: Option<&[Dim]>) -> Vec<u8> {
    let mut tensor = number(1, elem_type);
    if let Some(dims) = dims {
        let mut shape = Vec::new();
        for dim in dims {
            let dim = match dim {
                Dim::N(n) => number(1, *n as u64),
                Dim::S(s) => bytes(2, s.as_bytes()),
            };
            shape.extend(bytes(1, &dim));
        }
        tensor.extend(bytes(2, &shape));
    }
    [bytes(1, name.as_bytes()), bytes(2, &bytes(1, &tensor))].concat()
}

fn node(domain: &str, operator: &str) -> Vec<u8> {
    [bytes(4, operator.as_bytes()), bytes(7, domain.as_bytes())].concat()
}

fn model(nodes: &[Vec<u8>], inputs: &[Vec<u8>], outputs: &[Vec<u8>]) -> Vec<u8> {
    let mut graph = Vec::new();
    nodes.iter().for_each(|n| graph.extend(bytes(1, n)));
    inputs.iter().for_each(|v| graph.extend(bytes(11, v)));
    outputs.iter().for_each(|v| graph.extend(bytes(12, v)));
    [number(1, 8), bytes(7, &graph)].concat()
}

/// `y` is every element of `x` summed up, sixteen times over.
fn linear() -> Vec<u8> {
    let dims = [Dim::N(1), Dim::N(16)];
    model(
        &[node("", "MatMul")],
        &[value("x", 1, Some(&dims))],
        &[value("y", 1, Some(&dims))],
    )
}

/// `sum` and `product` of `x` and `y`.
fn multi() -> Vec<u8> {
    let dims = [Dim::N(2), Dim::N(3)];
    model(
        &[node("", "Add"), node("", "Mul")],
        &[value("x", 1, Some(&dims)), value("y", 1, Some(&dims))],
        &[value("sum", 1, Some(&dims)), value("product", 1, Some(&dims))],
    )
}

/// `result` is `tokens`, for any batch.
fn dynamic() -> Vec<u8> {
    let dims = [Dim::S("batch"), Dim::N(3)];
    model(
        &[node("", "Identity")],
        &[value("tokens", 7, Some(&dims))],
        &[value("result", 7, Some(&dims))],
    )
}

/// A stand-in for the native runtime: a host with a CPU provider and no GPU, whose
/// sessions compute a fixed function.
struct Host {
    compute: fn(&[Tensor]) -> Vec<Tensor>,
    /// How often a run was made.
    runs: usize,
    /// Runs that fail, by their number.
    failing: Vec<usize>,
    /// Custom providers that are installed.
    installed: Vec<usize>,
}

fn environment() -> Environment {
    Environment { tf32_override: None, tensorrt_cache: None }
}

fn find<'a>(tensors: &'a [Tensor], name: &str) -> &'a Tensor {
    tensors.iter().find(|t| t.name == name).unwrap()
}

fn single(name: &str, shape: &[usize], values: Vec<f32>) -> Tensor {
    Tensor { name: name.into(), shape: shape.into(), data: TensorBuffer::F32(bits(&values)) }
}

fn compute_linear(inputs: &[Tensor]) -> Vec<Tensor> {
    let x = floats(&find(inputs, "x").view());
    vec![single("y", &[1, 16], vec![x.iter().sum(); 16])]
}

fn compute_multi(inputs: &[Tensor]) -> Vec<Tensor> {
    let x = floats(&find(inputs, "x").view());
    let y = floats(&find(inputs, "y").view());
    vec![
        single("sum", &[2, 3], x.iter().zip(&y).map(|(a, b)| a + b).collect()),
        single("product", &[2, 3], x.iter().zip(&y).map(|(a, b)| a * b).collect()),
    ]
}

fn compute_identity(inputs: &[Tensor]) -> Vec<Tensor> {
    vec![inputs[0].clone()]
}

fn host(compute: fn(&[Tensor]) -> Vec<Tensor>) -> Host {
    Host { compute, runs: 0, failing: vec![], installed: vec![] }
}

fn outlets(specs: &[TensorSpec]) -> Vec<Outlet> {
    specs
        .iter()
        .map(|s| Outlet {
            name: s.name.clone(),
            element_type: Some(ElementType::of(s.dtype)),
            shape: s
                .shape
                .as_ref()
                .map_or(vec![], |dims| dims.iter().map(|d| d.map_or(-1, |n| n as i64)).collect()),
        })
        .collect()
}

impl Host {
    /// Open the current candidate.
    fn open(&self, runtime: &OnnxRuntime) -> Result<(ActiveSession, ModelInfo), Error> {
        runtime.load_stream(&environment())?;
        let plan = runtime.load_builder(&environment())?;
        for provider in plan.providers? {
            let available = match provider {
                ProviderPlan::Cpu => true,
                ProviderPlan::Custom(id) => self.installed.contains(&id),
                ProviderPlan::Cuda { required, .. } => !required,
                _ => false,
            };
            if !available {
                let error = Error::External("Failed to load libonnxruntime_providers.so".into());
                return Err(runtime.provider_failed(error));
            }
        }
        let info = runtime.info();
        runtime.open(&outlets(&info.inputs), &outlets(&info.outputs))
    }

    fn open_all(&self, runtime: &mut OnnxRuntime) -> Result<(), Error> {
        while runtime.is_loading() {
            match self.open(runtime) {
                Ok((session, info)) => runtime.activate(session, info),
                Err(error) => runtime.load_failed(error)?,
            }
        }
        Ok(())
    }

    fn load(&self, bytes: &[u8], options: OnnxOptions) -> Result<OnnxRuntime, Error> {
        let mut runtime = OnnxRuntime::load(bytes, "model.onnx", options, None)?;
        self.open_all(&mut runtime)?;
        Ok(runtime)
    }

    fn run(&mut self, runtime: &OnnxRuntime, run: NativeRun, inputs: &[TensorView<'_>]) -> Outcome {
        self.runs += 1;
        let failed = self.failing.contains(&self.runs);
        let error = || Error::External("CUDA failure 700".into());
        match run {
            NativeRun::Prepared { .. } => {
                if failed {
                    return Outcome::Prepared(RunOutcome::InferenceFailed(error()));
                }
                let inputs: Vec<Tensor> =
                    runtime.prepared_inputs().iter().map(|v| TensorView::to_owned(*v)).collect();
                let values = (self.compute)(&inputs);
                let values = runtime
                    .info()
                    .outputs
                    .iter()
                    .map(|s| find(&values, &s.name).data.clone())
                    .collect();
                Outcome::Prepared(RunOutcome::Done(values))
            }
            NativeRun::Dynamic => {
                if failed {
                    return Outcome::Dynamic(Err(error()));
                }
                let inputs: Vec<Tensor> = inputs.iter().map(|v| TensorView::to_owned(*v)).collect();
                let values = (self.compute)(&inputs);
                Outcome::Dynamic(Ok(values
                    .into_iter()
                    .map(|t| RawOutput {
                        shape: t.shape.iter().map(|&n| n as i64).collect(),
                        data: t.data,
                    })
                    .collect()))
            }
        }
    }

    fn drive(
        &mut self,
        runtime: &mut OnnxRuntime,
        inputs: &[TensorView<'_>],
        first: Step,
    ) -> Result<Vec<Tensor>, Error> {
        let mut step = first;
        loop {
            if let Step::Run(run) = step {
                let outcome = self.run(runtime, run, inputs);
                assert!(runtime.accepts(&outcome));
                if let Some(values) = runtime.finish_inference(outcome)? {
                    return Ok(values);
                }
            }
            self.open_all(runtime)?;
            step = runtime.retry(inputs)?;
        }
    }

    fn inference(
        &mut self,
        runtime: &mut OnnxRuntime,
        inputs: &[TensorView<'_>],
    ) -> Result<Vec<Tensor>, Error> {
        let step = runtime.inference(inputs)?;
        self.drive(runtime, inputs, step)
    }

    fn inference_into(
        &mut self,
        runtime: &mut OnnxRuntime,
        inputs: &[TensorView<'_>],
        outputs: &mut [TensorViewMut<'_>],
    ) -> Result<(), Error> {
        let mut step = runtime.inference_into(inputs, outputs)?;
        loop {
            match step {
                IntoStep::Collect(step) => {
                    let values = self.drive(runtime, inputs, step)?;
                    return copy_outputs(&values, outputs);
                }
                IntoStep::Direct(run) => {
                    let Outcome::Prepared(outcome) = self.run(runtime, run, inputs) else {
                        unreachable!()
                    };
                    if runtime.finish_inference_into(outcome, outputs)? {
                        return Ok(());
                    }
                    self.open_all(runtime)?;
                    step = runtime.retry_into(inputs)?;
                }
            }
        }
    }

    fn run_prepared(&mut self, runtime: &mut OnnxRuntime) -> Result<(), Error> {
        let run = runtime.run()?;
        let Outcome::Prepared(outcome) = self.run(runtime, run, &[]) else {
            unreachable!()
        };
        if let Some(inputs) = runtime.finish_run(outcome)? {
            self.open_all(runtime)?;
            let views: Vec<TensorView<'_>> = inputs.iter().map(Tensor::view).collect();
            self.inference(runtime, &views)?;
            runtime.finish_replay()?;
        }
        Ok(())
    }
}

fn identity(elem_type: u64, dims: Option<&[Dim]>) -> Vec<u8> {
    model(
        &[node("", "Identity")],
        &[value("x", elem_type, dims)],
        &[value("y", elem_type, dims)],
    )
}

fn compute_renamed(inputs: &[Tensor]) -> Vec<Tensor> {
    let mut output = inputs[0].clone();
    output.name = "y".into();
    vec![output]
}

#[test]
fn unknown_rank_is_not_a_scalar() {
    let mut host = host(compute_renamed);
    let mut model = host.load(&identity(1, None), OnnxOptions::cpu()).unwrap();
    assert!(!model.is_prepared(), "unknown-rank I/O must not use scalar buffers");
    for dims in [&[][..], &[2][..], &[1, 2][..]] {
        let values = vec![3.0; element_count(dims).unwrap()];
        let data = bits(&values);
        let outputs =
            host.inference(&mut model, &[TensorView::float32("x", dims, &data)]).unwrap();
        assert_eq!(outputs[0].shape, dims);
        assert_eq!(floats(&outputs[0].view()), values);
    }
}

#[test]
fn scalar_and_fresh_prepared_inputs_are_zero_initialized() {
    let mut host = host(compute_renamed);
    let mut model = host.load(&identity(9, Some(&[])), OnnxOptions::cpu()).unwrap();
    assert!(model.is_prepared());
    host.run_prepared(&mut model).unwrap();
    assert!(matches!(model.output("y").unwrap().data, TensorData::Bool(&[false])));
    assert_eq!(model.info().inputs[0].fixed_shape(), Some(vec![]));
}

#[test]
fn cpu_prepared_mixed_int64_fp16() {
    fn double(inputs: &[Tensor]) -> Vec<Tensor> {
        let mut out = vec![];
        for input in inputs {
            let data = match &input.data {
                TensorBuffer::I64(v) => TensorBuffer::I64(v.iter().map(|n| n * 2).collect()),
                TensorBuffer::F16(v) => TensorBuffer::F16(
                    v.iter()
                        .map(|n| {
                            let n = half::f16::from_bits(n.bits).to_f32();
                            Float16 { bits: half::f16::from_f32(n * 2.).to_bits() }
                        })
                        .collect(),
                ),
                _ => panic!("unexpected type"),
            };
            out.push(Tensor { name: format!("{}2", input.name), shape: vec![4], data });
        }
        out
    }
    let f16 = |n: f32| Float16 { bits: half::f16::from_f32(n).to_bits() };
    let dims = [Dim::N(4)];
    let bytes = model(
        &[node("", "Add"), node("", "Add")],
        &[value("ids", 7, Some(&dims)), value("half", 10, Some(&dims))],
        &[value("ids2", 7, Some(&dims)), value("half2", 10, Some(&dims))],
    );
    let mut host = host(double);
    let mut model = host.load(&bytes, OnnxOptions::cpu()).unwrap();
    assert!(model.is_prepared());
    for factor in [1_i64, 2, 3] {
        let ids = [factor, factor + 1, factor + 2, factor + 3];
        let half = [f16(factor as f32); 4];
        let outputs = host
            .inference(
                &mut model,
                &[
                    TensorView { name: "half", shape: &[4], data: TensorData::F16(&half) },
                    TensorView { name: "ids", shape: &[4], data: TensorData::I64(&ids) },
                ],
            )
            .unwrap();
        let ids2 = outputs.iter().find(|x| x.name == "ids2").unwrap();
        let half2 = outputs.iter().find(|x| x.name == "half2").unwrap();
        assert!(matches!(ids2.view().data, TensorData::I64(v) if v == ids.map(|n| n * 2)));
        assert!(
            matches!(half2.view().data, TensorData::F16(v) if v == [f16(2.0 * factor as f32); 4])
        );
    }
    let ids = model.input_mut("ids").unwrap();
    let TensorDataMut::I64(values) = ids.data else { unreachable!() };
    values.copy_from_slice(&[10, 11, 12, 13]);
    host.run_prepared(&mut model).unwrap();
    assert!(
        matches!(model.output("ids2").unwrap().data, TensorData::I64(v) if v == [20, 22, 24, 26])
    );
}

#[test]
fn outputs_with_negative_dimensions_are_refused() {
    let mut model = host(compute_renamed).load(&identity(1, None), OnnxOptions::cpu()).unwrap();
    let data = bits(&[1.]);
    let input = TensorView::float32("x", &[1], &data);
    assert_eq!(model.inference(&[input]).unwrap(), Step::Run(NativeRun::Dynamic));
    let value = RawOutput { shape: vec![1, -1], data: TensorBuffer::F32(bits(&[1.])) };
    let outcome = Outcome::Dynamic(Ok(vec![value]));
    assert!(model.accepts(&outcome));
    assert_eq!(
        model.finish_inference(outcome).unwrap_err().report(),
        "Negative output dimension: out of range integral type conversion attempted"
    );
    assert!(!model.accepts(&Outcome::Dynamic(Ok(vec![]))));
    assert!(!model.accepts(&Outcome::Prepared(RunOutcome::Done(vec![]))));
}

#[test]
fn outputs_have_the_element_types_of_the_model() {
    let mut model = host(compute_renamed).load(&identity(1, None), OnnxOptions::cpu()).unwrap();
    let data = bits(&[1.]);
    let input = TensorView::float32("x", &[1], &data);
    assert_eq!(model.inference(&[input]).unwrap(), Step::Run(NativeRun::Dynamic));
    let wrong = RawOutput { shape: vec![1], data: TensorBuffer::I64(vec![1]) };
    assert!(!model.accepts(&Outcome::Dynamic(Ok(vec![wrong]))));
    let right = RawOutput { shape: vec![1], data: TensorBuffer::F32(bits(&[2.])) };
    let outcome = Outcome::Dynamic(Ok(vec![right]));
    assert!(model.accepts(&outcome));
    let values = model.finish_inference(outcome).unwrap().unwrap();
    assert_eq!(values.len(), 1);
    assert_eq!((values[0].name.as_str(), values[0].data.dtype()), ("y", DType::F32));
}

/// Open a runtime's only candidate as a GPU session would be.
fn gpu_session(bytes: &[u8], backend: Backend, graph: bool) -> OnnxRuntime {
    let mut options = OnnxOptions::for_platform(Platform::Cuda);
    options.backend = BackendSelection::Require(backend);
    options.cuda = Some(CudaOptions { cuda_graph: graph, ..CudaOptions::default() });
    options.tensorrt = Some(TensorRtOptions { cuda_graph: graph, ..TensorRtOptions::default() });
    let mut runtime = OnnxRuntime::load(bytes, "model.onnx", options, None).unwrap();
    assert_eq!(runtime.load_stream(&environment()).unwrap(), Some(0));
    let info = runtime.info();
    let (session, info) =
        runtime.open(&outlets(&info.inputs), &outlets(&info.outputs)).unwrap();
    runtime.activate(session, info);
    runtime
}

#[test]
fn the_first_successful_run_captures_alone() {
    let bytes = identity(1, Some(&[Dim::N(1)]));
    let mut model = gpu_session(&bytes, Backend::Cuda, true);
    assert!(model.cuda_graph_enabled());
    let done = || RunOutcome::Done(vec![TensorBuffer::F32(bits(&[2.]))]);
    let failed = || RunOutcome::InferenceFailed(Error::External("no".into()));
    let run = |access, bind_inputs| NativeRun::Prepared {
        access,
        plan: RunPlan { device_id: Some(0), bind_inputs },
    };
    assert_eq!(model.run().unwrap(), run(Access::Exclusive, true));
    let upload = RunOutcome::UploadFailed(Error::External("bus".into()));
    assert_eq!(model.finish_run(upload).unwrap_err().report(), "Pinned H2D transfers: bus");
    assert_eq!(model.run().unwrap(), run(Access::Exclusive, true));
    assert_eq!(model.finish_run(failed()).unwrap_err().report(), "Inference: no");
    // The inputs are bound by now, and the capture is still to come.
    assert_eq!(model.run().unwrap(), run(Access::Exclusive, false));
    let download = RunOutcome::DownloadFailed(Error::External("bus".into()));
    assert_eq!(model.finish_run(download).unwrap_err().report(), "Pinned D2H transfers: bus");
    assert_eq!(model.run().unwrap(), run(Access::Exclusive, false));
    assert!(model.output("y").is_err());
    assert!(model.finish_run(done()).unwrap().is_none());
    assert_eq!(floats(&model.output("y").unwrap()), [2.]);
    assert_eq!(model.run().unwrap(), run(Access::Shared, false));
    let bind = RunOutcome::BindFailed(Error::External("bind".into()));
    assert_eq!(model.finish_run(bind).unwrap_err().report(), "bind");
    let refused = RunOutcome::Refused(Error::Fault(Fault::Poisoned));
    assert_eq!(
        model.finish_run(refused).unwrap_err().report(),
        "CUDA capture coordinator poisoned by an earlier panic; restart the process"
    );
    let missing = RunOutcome::OutputFailed(Error::External("type".into()));
    assert_eq!(model.finish_run(missing).unwrap_err().report(), "type");
    assert_eq!(model.end_profiling().unwrap(), Access::Shared);
    let model = gpu_session(&bytes, Backend::TensorRt, false);
    assert!(!model.cuda_graph_enabled());
    // A scalar is fixed and positive; a dynamic or empty dimension is not.
    assert!(gpu_session(&identity(1, Some(&[])), Backend::TensorRt, true).cuda_graph_enabled());
    let dynamic = identity(1, Some(&[Dim::S("n")]));
    assert!(!gpu_session(&dynamic, Backend::TensorRt, true).cuda_graph_enabled());
    let empty = identity(1, Some(&[Dim::N(0)]));
    assert!(!gpu_session(&empty, Backend::TensorRt, true).cuda_graph_enabled());
}

#[test]
fn a_refused_run_leaves_the_outputs_readable() {
    let mut model = gpu_session(&identity(1, Some(&[Dim::N(1)])), Backend::Cuda, true);
    let refused = || RunOutcome::Refused(Error::Fault(Fault::Poisoned));
    model.run().unwrap();
    assert!(model.finish_run(refused()).is_err());
    assert!(model.output("y").is_err());
    model.run().unwrap();
    model.finish_run(RunOutcome::Done(vec![TensorBuffer::F32(bits(&[2.]))])).unwrap();
    model.run().unwrap();
    assert!(model.output("y").is_err());
    assert!(model.finish_run(refused()).is_err());
    assert_eq!(floats(&model.output("y").unwrap()), [2.]);
    // Outputs of other inputs stay unreadable.
    model.input_mut("x").unwrap();
    model.run().unwrap();
    assert!(model.finish_run(refused()).is_err());
    assert!(model.output("y").is_err());
}

#[test]
fn automatic_placement_binds_fresh_inputs_every_time() {
    let mut host = host(compute_renamed);
    let mut options = OnnxOptions::for_platform(Platform::Other);
    options.backend = BackendSelection::Auto(vec![Backend::Cpu]);
    let mut model = host.load(&identity(1, Some(&[Dim::N(1)])), options).unwrap();
    for n in [1.0, 3.0, 5.0] {
        let run = model.run().unwrap();
        let plan = RunPlan { device_id: None, bind_inputs: true };
        assert_eq!(run, NativeRun::Prepared { access: Access::Shared, plan });
        let data = bits(&[n]);
        let input = TensorView::float32("x", &[1], &data);
        let output = host.inference(&mut model, &[input]).unwrap();
        assert_eq!(floats(&output[0].view()), [n]);
    }
}

#[test]
fn graph_capture_needs_fixed_native_shapes() {
    let bytes = identity(1, Some(&[Dim::N(4)]));
    let mut options = OnnxOptions::for_platform(Platform::Cuda);
    options.backend = BackendSelection::Require(Backend::Cuda);
    let mut runtime = OnnxRuntime::load(&bytes, "model.onnx", options, None).unwrap();
    let outlet = |name: &str, shape| Outlet {
        name: name.into(),
        element_type: Some(ElementType::Float32),
        shape,
    };
    let error =
        runtime.open(&vec![outlet("x", vec![-1])], &vec![outlet("y", vec![4])]).unwrap_err();
    assert_eq!(
        error.message(),
        "CUDA graph capture requires fixed positive native I/O shapes; set cuda_graph=false for \
         this model"
    );
    let error = runtime.load_failed(error).unwrap_err();
    assert!(error.message().starts_with("All configured ONNX backends failed:\n  CUDA: CUDA"));
    let strings = Outlet { element_type: Some(ElementType::String), ..outlet("x", vec![4]) };
    let options = OnnxOptions::cpu();
    let runtime = OnnxRuntime::load(&bytes, "model.onnx", options, None).unwrap();
    let error = runtime.open(&vec![strings], &vec![]).unwrap_err();
    assert_eq!(error.message(), "Unsupported I/O dtype String");
    let map = Outlet { element_type: None, ..outlet("x", vec![]) };
    let error = runtime.open(&vec![map], &vec![]).unwrap_err();
    assert_eq!(error.message(), "Only dense tensor I/O is supported: x");
}
