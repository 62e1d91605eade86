//! Provider registration, session metadata, and the state of an open session.
//!
//! The native calls themselves are made elsewhere: functions here say how a session
//! is to be configured, what its reported inputs and outputs mean, and how a run
//! changes the session.
use crate::api::{spec_views, InfoView, ModelInfo};
use crate::buffers::{
    eligible, is_eligible, all_countable, fed, BuffersView, InferenceBuffers, OutcomeView,
    RunOutcome, RunPlan,
};
use crate::diagnostics::{provider_error};
use crate::element::ElementType;
use crate::error::{failure, Error, ErrorView, Fault, NamedFault};
use crate::options::{
    Backend, CudaOptions, DimensionOverrides, HostText, OnnxOptions, ProviderKind, TensorRtOptions,
};
use crate::tensor::{
    tensor_models, view_models, Elements, SpecView, Tensor, TensorBuffer, TensorModel, TensorSpec,
    TensorView,
};
use crate::text::{concat, precedes, same};
use vstd::prelude::*;
use vstd::string::*;

verus! {

/// The environment values that provider settings depend on.
#[derive(Debug)]
pub struct Environment {
    /// `NVIDIA_TF32_OVERRIDE`.
    pub tf32_override: Option<HostText>,
    /// `ORT_TENSORRT_CACHE_PATH`.
    pub tensorrt_cache: Option<HostText>,
}

/// Whether a host text is empty.
pub open spec fn is_empty_text(value: HostText) -> bool {
    match value {
        HostText::Unicode(s) => s@.len() == 0,
        HostText::Other(_) => false,
    }
}

fn empty_text(value: &HostText) -> (r: bool)
    ensures
        r == is_empty_text(*value),
{
    match value {
        HostText::Unicode(s) => s.as_str().is_empty(),
        HostText::Other(_) => false,
    }
}

/// Whether an environment value is set to more than nothing.
pub open spec fn is_configured(configured: Option<HostText>) -> bool {
    configured matches Some(path) && !is_empty_text(path)
}

/// The library to load: `None` stands for the path in `ORT_DYLIB_PATH`; otherwise
/// the system loader looks for the platform's name of ONNX Runtime.
pub fn runtime_library(configured: &Option<HostText>, prefix: &str, suffix: &str) -> (r: Option<
    String,
>)
    ensures
        match r {
            None => is_configured(*configured),
            Some(name) => !is_configured(*configured) && name@ == prefix@ + "onnxruntime"@
                + suffix@,
        },
{
    if let Some(path) = configured {
        if !empty_text(path) {
            return None;
        }
    }
    let mut name = concat(prefix, "onnxruntime");
    name.append(suffix);
    Some(name)
}

/// Whether the TF32 option agrees with the process environment.
pub open spec fn tf32_agrees(enabled: bool, tf32_override: Option<HostText>) -> bool {
    if enabled {
        tf32_override is None
    } else {
        match tf32_override {
            Some(HostText::Unicode(value)) => value@ == "0"@,
            _ => false,
        }
    }
}

/// Check the TF32 option against the process environment.
pub fn check_tf32(enabled: bool, tf32_override: &Option<HostText>) -> (r: Result<(), Error>)
    ensures
        failure(r) == if tf32_agrees(enabled, *tf32_override) {
            None
        } else {
            Some(ErrorView::Fault(Fault::Tf32Override))
        },
{
    let valid = if enabled {
        tf32_override.is_none()
    } else {
        match tf32_override {
            Some(HostText::Unicode(value)) => same(value.as_str(), "0"),
            _ => false,
        }
    };
    if !valid {
        return Err(Error::Fault(Fault::Tf32Override));
    }
    Ok(())
}

/// What is wrong with the TensorRT settings in this environment.
pub open spec fn tensorrt_fault(
    settings: TensorRtOptions,
    tf32_override: Option<HostText>,
) -> Option<ErrorView> {
    if settings.fault() is Some {
        settings.fault()
    } else if !tf32_agrees(settings.tf32, tf32_override) {
        Some(ErrorView::Fault(Fault::Tf32Override))
    } else {
        None
    }
}

fn check_tensorrt(settings: &TensorRtOptions, environment: &Environment) -> (r: Result<(), Error>)
    ensures
        failure(r) == tensorrt_fault(*settings, environment.tf32_override),
{
    match settings.validate() {
        Err(error) => Err(error),
        Ok(()) => check_tf32(settings.tf32, &environment.tf32_override),
    }
}

/// The device on which a backend's session needs a stream of its own.
pub open spec fn stream_device(
    options: OnnxOptions,
    index: int,
    tf32_override: Option<HostText>,
) -> Result<Option<i32>, ErrorView> {
    match options.backend.list()[index] {
        Backend::Cuda => match options.cuda_in_effect().fault() {
            Some(error) => Err(error),
            None => Ok(Some(options.cuda_in_effect().device_id)),
        },
        Backend::TensorRt => match tensorrt_fault(options.tensorrt_in_effect(), tf32_override) {
            Some(error) => Err(error),
            None => Ok(Some(options.tensorrt_in_effect().device_id)),
        },
        _ => Ok(None),
    }
}

/// A device over what a function returned.
pub open spec fn device_result(r: Result<Option<i32>, Error>) -> Result<Option<i32>, ErrorView> {
    match r {
        Ok(device) => Ok(device),
        Err(error) => Err(error@),
    }
}

/// The device on which a backend's session needs a stream. Settings are checked
/// only for the backend that uses them.
pub fn stream_for_backend(options: &OnnxOptions, index: usize, environment: &Environment) -> (r:
    Result<Option<i32>, Error>)
    requires
        index < options.backend.list().len(),
    ensures
        device_result(r) == stream_device(*options, index as int, environment.tf32_override),
{
    match &options.backend.candidates()[index] {
        Backend::Cuda => {
            let settings = options.cuda_settings();
            match settings.validate() {
                Err(error) => Err(error),
                Ok(()) => Ok(Some(settings.device_id)),
            }
        },
        Backend::TensorRt => {
            let settings = options.tensorrt_settings();
            match check_tensorrt(&settings, environment) {
                Err(error) => Err(error),
                Ok(()) => Ok(Some(settings.device_id)),
            }
        },
        _ => Ok(None),
    }
}

/// How a provider is to be registered.
#[derive(Debug)]
#[allow(inconsistent_fields)]
pub enum ProviderPlan {
    /// TensorRT, whose registration must succeed. INT8 is off and contexts are embedded.
    TensorRt {
        /// Builder and execution settings.
        settings: TensorRtOptions,
        /// Whether to capture CUDA graphs.
        cuda_graph: bool,
        /// Where to cache engines, if at all.
        engine_cache: Option<String>,
    },
    /// CUDA.
    Cuda {
        /// Provider settings.
        settings: CudaOptions,
        /// Whether to capture CUDA graphs.
        cuda_graph: bool,
        /// Whether the registration must succeed.
        required: bool,
    },
    /// CoreML as MLProgram, whose registration must succeed.
    CoreMl,
    /// CPU, whose registration must succeed.
    Cpu,
    /// The custom provider with this number, whose registration must succeed.
    Custom(usize),
}

/// The contents of a [`ProviderPlan`].
#[allow(inconsistent_fields)]
pub enum ProviderView {
    TensorRt { settings: TensorRtOptions, cuda_graph: bool, engine_cache: Option<Seq<char>> },
    Cuda { settings: CudaOptions, cuda_graph: bool, required: bool },
    CoreMl,
    Cpu,
    Custom(usize),
}

impl View for ProviderPlan {
    type V = ProviderView;

    open spec fn view(&self) -> ProviderView {
        match *self {
            ProviderPlan::TensorRt { settings, cuda_graph, engine_cache } => ProviderView::TensorRt {
                settings,
                cuda_graph,
                engine_cache: crate::error::optional_text(engine_cache),
            },
            ProviderPlan::Cuda { settings, cuda_graph, required } => ProviderView::Cuda {
                settings,
                cuda_graph,
                required,
            },
            ProviderPlan::CoreMl => ProviderView::CoreMl,
            ProviderPlan::Cpu => ProviderView::Cpu,
            ProviderPlan::Custom(id) => ProviderView::Custom(id),
        }
    }
}

/// The contents of provider plans.
pub open spec fn provider_views(plans: Seq<ProviderPlan>) -> Seq<ProviderView> {
    Seq::new(plans.len(), |i: int| plans[i]@)
}

/// Provider plans over what a function returned.
pub open spec fn plans_result(r: Result<Vec<ProviderPlan>, Error>) -> Result<
    Seq<ProviderView>,
    ErrorView,
> {
    match r {
        Ok(plans) => Ok(provider_views(plans@)),
        Err(error) => Err(error@),
    }
}

/// How a session is to be configured.
#[derive(Debug)]
pub struct BuilderPlan {
    /// Threads within an operator.
    pub intra_threads: usize,
    /// Threads across operators.
    pub inter_threads: usize,
    /// Whether independent operators run in parallel.
    pub parallel_execution: bool,
    /// Sizes for symbolic dimensions, in the order of their names.
    pub dimension_overrides: Vec<(String, i64)>,
    /// Profiling prefix.
    pub profiling: Option<HostText>,
    /// Whether no node may be placed on the CPU instead.
    pub disable_cpu_fallback: bool,
    /// The providers to register in this order, or why none can be.
    pub providers: Result<Vec<ProviderPlan>, Error>,
}

/// Whether a session may use only the provider that it was opened for.
pub open spec fn is_strict(options: OnnxOptions, is_ep_context: bool) -> bool {
    is_ep_context || options.backend.is_strict()
}

/// Whether a backend runs on the CPU.
pub open spec fn is_cpu_target(backend: Backend) -> bool {
    match backend {
        Backend::Cpu => true,
        Backend::Custom { name, provider } => provider.kind == ProviderKind::Cpu,
        _ => false,
    }
}

/// Whether a custom provider would bypass the stream that a session owns.
pub open spec fn is_raw_gpu_provider(backend: Backend) -> bool {
    match backend {
        Backend::Custom { name, provider } => provider.kind == ProviderKind::Cuda
            || provider.kind == ProviderKind::TensorRt,
        _ => false,
    }
}

/// Where TensorRT caches engines: in the build directory, or where the environment
/// says; the path must be Unicode.
pub open spec fn engine_cache(
    build_directory: Option<HostText>,
    configured: Option<HostText>,
) -> Result<Option<Seq<char>>, ErrorView> {
    let chosen = if build_directory is Some {
        build_directory
    } else if is_configured(configured) {
        configured
    } else {
        None
    };
    match chosen {
        None => Ok(None),
        Some(HostText::Unicode(path)) => Ok(Some(path@)),
        Some(HostText::Other(_)) => Err(ErrorView::Fault(Fault::CachePath)),
    }
}

/// Whether CUDA stands behind a candidate.
pub open spec fn cuda_follows(candidates: Seq<Backend>, index: int) -> bool {
    exists|i: int| index < i < candidates.len() && #[trigger] candidates[i] == Backend::Cuda
}

/// Whether a TensorRT session also registers CUDA: not under strict placement, only
/// where CUDA is a later candidate, and only with valid settings for the same GPU.
pub open spec fn has_secondary_cuda(options: OnnxOptions, index: int, strict: bool) -> bool {
    &&& !strict
    &&& cuda_follows(options.backend.list(), index)
    &&& options.cuda_in_effect().device_id == (match options.tensorrt {
        None => 0i32,
        Some(settings) => settings.device_id,
    })
    &&& options.cuda_in_effect().fault() is None
}

/// The providers to register for a candidate.
pub open spec fn planned_providers(
    options: OnnxOptions,
    index: int,
    is_ep_context: bool,
    cuda_graph: bool,
    build_directory: Option<HostText>,
    tf32_override: Option<HostText>,
    tensorrt_cache: Option<HostText>,
) -> Result<Seq<ProviderView>, ErrorView> {
    match options.backend.list()[index] {
        Backend::TensorRt => {
            let settings = options.tensorrt_in_effect();
            match tensorrt_fault(settings, tf32_override) {
                Some(error) => Err(error),
                None => match engine_cache(build_directory, tensorrt_cache) {
                    Err(error) => Err(error),
                    Ok(engine_cache) => {
                        let primary = ProviderView::TensorRt { settings, cuda_graph, engine_cache };
                        if has_secondary_cuda(options, index, is_strict(options, is_ep_context)) {
                            Ok(
                                seq![
                                    primary,
                                    ProviderView::Cuda {
                                        settings: options.cuda_in_effect(),
                                        cuda_graph: false,
                                        required: false,
                                    },
                                ],
                            )
                        } else {
                            Ok(seq![primary])
                        }
                    },
                },
            }
        },
        Backend::Cuda => match options.cuda_in_effect().fault() {
            Some(error) => Err(error),
            None => Ok(
                seq![
                    ProviderView::Cuda {
                        settings: options.cuda_in_effect(),
                        cuda_graph,
                        required: true,
                    },
                ],
            ),
        },
        Backend::CoreMl => Ok(seq![ProviderView::CoreMl]),
        Backend::Cpu => Ok(seq![ProviderView::Cpu]),
        Backend::Custom { name, provider } => Ok(seq![ProviderView::Custom(provider.id)]),
    }
}

/// Whether a list holds exactly the overrides, in the order of their names.
pub open spec fn lists_overrides(
    list: Seq<(String, i64)>,
    overrides: Map<Seq<char>, usize>,
) -> bool {
    &&& forall|i: int|
        0 <= i < list.len() ==> overrides.contains_key((#[trigger] list[i]).0@) && list[i].1
            == overrides[list[i].0@] as i64
    &&& forall|name: Seq<char>|
        overrides.contains_key(name) ==> exists|i: int|
            0 <= i < list.len() && (#[trigger] list[i]).0@ == name
    &&& forall|i: int, j: int|
        0 <= i < j < list.len() ==> precedes((#[trigger] list[i]).0@, (#[trigger] list[j]).0@)
}

fn list_overrides(overrides: &DimensionOverrides) -> (r: Vec<(String, i64)>)
    requires
        overrides.wf(),
    ensures
        lists_overrides(r@, overrides@),
{
    let entries = overrides.as_slice();
    let mut out: Vec<(String, i64)> = Vec::new();
    for i in 0..entries.len()
        invariant
            out@.len() == i,
            forall|j: int|
                0 <= j < i ==> (#[trigger] out@[j]).0@ == entries@[j].0@ && out@[j].1
                    == entries@[j].1 as i64,
    {
        out.push((entries[i].0.clone(), entries[i].1 as i64));
    }
    assert forall|name: Seq<char>| overrides@.contains_key(name) implies exists|i: int|
        0 <= i < out@.len() && (#[trigger] out@[i]).0@ == name by {
        let i = choose|i: int| 0 <= i < entries@.len() && (#[trigger] entries@[i]).0@ == name;
        assert(out@[i].0@ == name);
    }
    out
}

fn find_cuda_behind(candidates: &[Backend], index: usize) -> (r: bool)
    requires
        index < candidates@.len(),
    ensures
        r == cuda_follows(candidates@, index as int),
{
    let count: usize = candidates.len();
    let mut i: usize = index + 1;
    while i < count
        invariant
            count == candidates@.len(),
            index < i <= count,
            forall|j: int| index < j < i ==> #[trigger] candidates@[j] != Backend::Cuda,
        decreases count - i,
    {
        if let Backend::Cuda = &candidates[i] {
            assert(candidates@[i as int] == Backend::Cuda);
            return true;
        }
        i += 1;
    }
    false
}

fn choose_engine_cache(
    build_directory: &Option<HostText>,
    configured: &Option<HostText>,
) -> (r: Result<Option<String>, Error>)
    ensures
        match (r, engine_cache(*build_directory, *configured)) {
            (Ok(path), Ok(wanted)) => crate::error::optional_text(path) == wanted,
            (Err(error), Err(fault)) => error@ == fault,
            _ => false,
        },
{
    let chosen = match build_directory {
        Some(directory) => Some(directory),
        None => match configured {
            Some(path) => {
                if empty_text(path) {
                    None
                } else {
                    Some(path)
                }
            },
            None => None,
        },
    };
    match chosen {
        None => Ok(None),
        Some(HostText::Unicode(path)) => Ok(Some(path.clone())),
        Some(HostText::Other(_)) => Err(Error::Fault(Fault::CachePath)),
    }
}

fn tensorrt_provider(
    options: &OnnxOptions,
    index: usize,
    strict: bool,
    cuda_graph: bool,
    build_directory: &Option<HostText>,
    environment: &Environment,
) -> (r: Result<Vec<ProviderPlan>, Error>)
    requires
        index < options.backend.list().len(),
        options.backend.list()[index as int] == Backend::TensorRt,
    ensures
        forall|is_ep_context: bool|
            #![trigger is_strict(*options, is_ep_context)]
            strict == is_strict(*options, is_ep_context) ==> plans_result(r) == planned_providers(
                *options,
                index as int,
                is_ep_context,
                cuda_graph,
                *build_directory,
                environment.tf32_override,
                environment.tensorrt_cache,
            ),
{
    let settings = options.tensorrt_settings();
    match check_tensorrt(&settings, environment) {
        Err(error) => {
            return Err(error);
        },
        Ok(()) => {},
    }
    let engine_cache = match choose_engine_cache(build_directory, &environment.tensorrt_cache) {
        Err(error) => {
            return Err(error);
        },
        Ok(path) => path,
    };
    let mut plans: Vec<ProviderPlan> = Vec::new();
    plans.push(ProviderPlan::TensorRt { settings, cuda_graph, engine_cache });
    let ghost primary = plans@[0]@;
    assert(provider_views(plans@) =~= seq![primary]);
    if !strict && find_cuda_behind(options.backend.candidates(), index) {
        // A secondary CUDA provider is optional. Invalid options are an error only
        // if CUDA is later tried as the primary provider.
        let cuda = options.cuda_settings();
        let device: i32 = match &options.tensorrt {
            None => 0,
            Some(settings) => settings.device_id,
        };
        if cuda.device_id == device && cuda.validate().is_ok() {
            plans.push(
                ProviderPlan::Cuda { settings: cuda, cuda_graph: false, required: false },
            );
            assert(provider_views(plans@) =~= seq![primary, plans@[1]@]);
        }
    }
    Ok(plans)
}

fn plan_providers(
    options: &OnnxOptions,
    index: usize,
    is_ep_context: bool,
    cuda_graph: bool,
    build_directory: &Option<HostText>,
    environment: &Environment,
) -> (r: Result<Vec<ProviderPlan>, Error>)
    requires
        index < options.backend.list().len(),
    ensures
        plans_result(r) == planned_providers(
            *options,
            index as int,
            is_ep_context,
            cuda_graph,
            *build_directory,
            environment.tf32_override,
            environment.tensorrt_cache,
        ),
{
    let plan = match &options.backend.candidates()[index] {
        Backend::TensorRt => {
            let strict = is_ep_context || options.backend.strict();
            assert(strict == is_strict(*options, is_ep_context));
            return tensorrt_provider(
                options,
                index,
                strict,
                cuda_graph,
                build_directory,
                environment,
            );
        },
        Backend::Cuda => {
            let settings = options.cuda_settings();
            match settings.validate() {
                Err(error) => {
                    return Err(error);
                },
                Ok(()) => {},
            }
            ProviderPlan::Cuda { settings, cuda_graph, required: true }
        },
        Backend::CoreMl => ProviderPlan::CoreMl,
        Backend::Cpu => ProviderPlan::Cpu,
        Backend::Custom { name, provider } => ProviderPlan::Custom(provider.id),
    };
    let mut plans: Vec<ProviderPlan> = Vec::new();
    let ghost view = plan@;
    plans.push(plan);
    assert(provider_views(plans@) =~= seq![view]);
    Ok(plans)
}

/// Say how the session of a candidate is to be configured. Raw GPU providers are
/// refused, whatever else is asked for.
pub fn configured_builder(
    options: &OnnxOptions,
    index: usize,
    is_ep_context: bool,
    cuda_graph: bool,
    build_directory: &Option<HostText>,
    environment: &Environment,
) -> (r: Result<BuilderPlan, Error>)
    requires
        options.wf(),
        index < options.backend.list().len(),
    ensures
        failure(r) == if is_raw_gpu_provider(options.backend.list()[index as int]) {
            Some(ErrorView::Fault(Fault::CustomGpuProvider))
        } else {
            None
        },
        r matches Ok(plan) ==> {
            &&& plan.intra_threads == options.intra_threads
            &&& plan.inter_threads == options.inter_threads
            &&& plan.parallel_execution == options.parallel_execution
            &&& lists_overrides(plan.dimension_overrides@, options.dimension_overrides@)
            &&& plan.profiling == options.profiling
            &&& plan.disable_cpu_fallback == (is_strict(*options, is_ep_context)
                && !is_cpu_target(options.backend.list()[index as int]))
            &&& plans_result(plan.providers) == planned_providers(
                *options,
                index as int,
                is_ep_context,
                cuda_graph,
                *build_directory,
                environment.tf32_override,
                environment.tensorrt_cache,
            )
        },
{
    let backend = &options.backend.candidates()[index];
    let mut cpu_target = false;
    match backend {
        Backend::Custom { name, provider } => {
            match provider.kind {
                ProviderKind::Cuda | ProviderKind::TensorRt => {
                    return Err(Error::Fault(Fault::CustomGpuProvider));
                },
                ProviderKind::Cpu => {
                    cpu_target = true;
                },
                ProviderKind::Other => {},
            }
        },
        Backend::Cpu => {
            cpu_target = true;
        },
        _ => {},
    }
    let strict = is_ep_context || options.backend.strict();
    Ok(
        BuilderPlan {
            intra_threads: options.intra_threads,
            inter_threads: options.inter_threads,
            parallel_execution: options.parallel_execution,
            dimension_overrides: list_overrides(&options.dimension_overrides),
            profiling: match &options.profiling {
                None => None,
                Some(prefix) => Some(prefix.clone()),
            },
            disable_cpu_fallback: strict && !cpu_target,
            providers: plan_providers(
                options,
                index,
                is_ep_context,
                cuda_graph,
                build_directory,
                environment,
            ),
        },
    )
}

/// Whether the settings in effect ask a backend for CUDA graphs.
pub open spec fn wants_graph(options: OnnxOptions, backend: Backend) -> bool {
    match backend {
        Backend::Cuda => options.cuda_in_effect().cuda_graph,
        Backend::TensorRt => options.tensorrt_in_effect().cuda_graph,
        _ => false,
    }
}

/// Whether a session captures CUDA graphs: the model has fixed, positive shapes,
/// operators run one after the other, placement is strict, and the settings of the
/// backend ask for it. Automatic placement can include CPU partitions and
/// data-dependent copies and stays graph-free.
pub open spec fn captures_graph(
    options: OnnxOptions,
    index: int,
    is_ep_context: bool,
    declared: InfoView,
) -> bool {
    &&& is_eligible(declared)
    &&& !options.parallel_execution
    &&& is_strict(options, is_ep_context)
    &&& wants_graph(options, options.backend.list()[index])
}

/// Whether a session captures CUDA graphs.
pub fn graph_enabled(
    options: &OnnxOptions,
    index: usize,
    is_ep_context: bool,
    declared: &ModelInfo,
) -> (r: bool)
    requires
        index < options.backend.list().len(),
    ensures
        r == captures_graph(*options, index as int, is_ep_context, declared@),
{
    eligible(declared) && !options.parallel_execution && (is_ep_context
        || options.backend.strict()) && match &options.backend.candidates()[index] {
        Backend::Cuda => options.cuda_settings().cuda_graph,
        Backend::TensorRt => options.tensorrt_settings().cuda_graph,
        _ => false,
    }
}

/// An input or output as the native session reports it.
#[derive(Debug)]
pub struct Outlet {
    /// Its name.
    pub name: String,
    /// Its element type; `None` where it is no dense tensor.
    pub element_type: Option<ElementType>,
    /// Its dimensions; a dynamic one is negative. Empty for an unknown rank as well
    /// as for a scalar.
    pub shape: Vec<i64>,
}

/// The contents of an [`Outlet`].
#[verifier::ext_equal]
pub struct OutletView {
    pub name: Seq<char>,
    pub element_type: Option<ElementType>,
    pub shape: Seq<i64>,
}

impl View for Outlet {
    type V = OutletView;

    open spec fn view(&self) -> OutletView {
        OutletView { name: self.name@, element_type: self.element_type, shape: self.shape@ }
    }
}

/// The contents of outlets.
pub open spec fn outlet_views(outlets: Seq<Outlet>) -> Seq<OutletView> {
    Seq::new(outlets.len(), |i: int| outlets[i]@)
}

/// The size behind a native dimension, if it is one.
pub open spec fn native_size(dimension: i64) -> Option<usize> {
    if 0 <= dimension <= usize::MAX {
        Some(dimension as usize)
    } else {
        None
    }
}

/// Whether the graph declares a name with an unknown rank.
pub open spec fn is_rank_unknown(declared: Seq<SpecView>, name: Seq<char>) -> bool {
    exists|i: int|
        0 <= i < declared.len() && (#[trigger] declared[i]).name == name && declared[i].shape
            is None
}

/// The specification of an outlet. The runtime reports an unknown rank like a
/// scalar, so that distinction is taken from the graph.
pub open spec fn outlet_spec(outlet: OutletView, declared: Seq<SpecView>) -> Result<
    SpecView,
    ErrorView,
> {
    match outlet.element_type {
        None => Err(ErrorView::Named { fault: NamedFault::NotDense, name: outlet.name }),
        Some(element_type) => match element_type.tensor_type() {
            None => Err(
                ErrorView::UnsupportedType { element_type: element_type.name(), name: None },
            ),
            Some(dtype) => Ok(
                SpecView {
                    name: outlet.name,
                    dtype,
                    shape: if is_rank_unknown(declared, outlet.name) {
                        None
                    } else {
                        Some(Seq::new(outlet.shape.len(), |i: int| native_size(outlet.shape[i])))
                    },
                },
            ),
        },
    }
}

/// The specifications of outlets, or the first error among them.
pub open spec fn outlet_specs(outlets: Seq<OutletView>, declared: Seq<SpecView>) -> Result<
    Seq<SpecView>,
    ErrorView,
>
    decreases outlets.len(),
{
    if outlets.len() == 0 {
        Ok(Seq::empty())
    } else {
        match outlet_specs(outlets.drop_last(), declared) {
            Err(error) => Err(error),
            Ok(specs) => match outlet_spec(outlets.last(), declared) {
                Err(error) => Err(error),
                Ok(spec) => Ok(specs.push(spec)),
            },
        }
    }
}

fn rank_unknown(declared: &Vec<TensorSpec>, name: &str) -> (r: bool)
    ensures
        r == is_rank_unknown(spec_views(declared@), name@),
{
    for i in 0..declared.len()
        invariant
            forall|j: int|
                0 <= j < i ==> !((#[trigger] spec_views(declared@)[j]).name == name@ && spec_views(
                    declared@,
                )[j].shape is None),
    {
        if same(declared[i].name.as_str(), name) && declared[i].shape.is_none() {
            assert(spec_views(declared@)[i as int].name == name@);
            return true;
        }
    }
    false
}

fn read_outlet(outlet: &Outlet, declared: &Vec<TensorSpec>) -> (r: Result<TensorSpec, Error>)
    ensures
        crate::engine::spec_result(r) == outlet_spec(outlet@, spec_views(declared@)),
{
    let element_type = match outlet.element_type {
        None => {
            return Err(Error::Named { fault: NamedFault::NotDense, name: outlet.name.clone() });
        },
        Some(element_type) => element_type,
    };
    let dtype = match element_type.dtype() {
        None => {
            return Err(
                Error::UnsupportedType { element_type: element_type.text().to_owned(), name: None },
            );
        },
        Some(dtype) => dtype,
    };
    if rank_unknown(declared, outlet.name.as_str()) {
        return Ok(TensorSpec { name: outlet.name.clone(), dtype, shape: None });
    }
    let mut shape: Vec<Option<usize>> = Vec::new();
    for i in 0..outlet.shape.len()
        invariant
            shape@ == Seq::new(i as nat, |j: int| native_size(outlet.shape@[j])),
    {
        let dimension: i64 = outlet.shape[i];
        shape.push(
            if dimension >= 0 && dimension as u64 <= usize::MAX as u64 {
                Some(dimension as usize)
            } else {
                None
            },
        );
        assert(shape@ =~= Seq::new((i + 1) as nat, |j: int| native_size(outlet.shape@[j])));
    }
    Ok(TensorSpec { name: outlet.name.clone(), dtype, shape: Some(shape) })
}

proof fn lemma_outlet_errors_stay(outlets: Seq<OutletView>, declared: Seq<SpecView>, n: int)
    requires
        0 <= n <= outlets.len(),
        outlet_specs(outlets.take(n), declared) is Err,
    ensures
        outlet_specs(outlets, declared) == outlet_specs(outlets.take(n), declared),
    decreases outlets.len() - n,
{
    if n == outlets.len() {
        assert(outlets.take(n) =~= outlets);
    } else {
        assert(outlets.take(n + 1).drop_last() =~= outlets.take(n));
        lemma_outlet_errors_stay(outlets, declared, n + 1);
    }
}

fn read_outlets(outlets: &Vec<Outlet>, declared: &Vec<TensorSpec>) -> (r: Result<
    Vec<TensorSpec>,
    Error,
>)
    ensures
        match r {
            Ok(specs) => outlet_specs(outlet_views(outlets@), spec_views(declared@)) == Ok::<
                Seq<SpecView>,
                ErrorView,
            >(spec_views(specs@)),
            Err(error) => outlet_specs(outlet_views(outlets@), spec_views(declared@)) == Err::<
                Seq<SpecView>,
                ErrorView,
            >(error@),
        },
{
    let ghost views = outlet_views(outlets@);
    let ghost known = spec_views(declared@);
    let mut specs: Vec<TensorSpec> = Vec::new();
    assert(views.take(0) =~= Seq::<OutletView>::empty());
    assert(spec_views(specs@) =~= Seq::<SpecView>::empty());
    for i in 0..outlets.len()
        invariant
            views == outlet_views(outlets@),
            known == spec_views(declared@),
            outlet_specs(views.take(i as int), known) == Ok::<Seq<SpecView>, ErrorView>(
                spec_views(specs@),
            ),
    {
        assert(views.take(i + 1).drop_last() =~= views.take(i as int));
        match read_outlet(&outlets[i], declared) {
            Err(error) => {
                proof {
                    lemma_outlet_errors_stay(views, known, i + 1);
                }
                return Err(error);
            },
            Ok(spec) => {
                let ghost earlier = specs@;
                specs.push(spec);
                assert(spec_views(specs@) =~= spec_views(earlier).push(spec@));
            },
        }
    }
    assert(views.take(views.len() as int) =~= views);
    Ok(specs)
}

/// What a session takes and gives, as it reports itself.
pub open spec fn session_info(
    inputs: Seq<OutletView>,
    outputs: Seq<OutletView>,
    declared: InfoView,
) -> Result<InfoView, ErrorView> {
    match outlet_specs(inputs, declared.inputs) {
        Err(error) => Err(error),
        Ok(inputs) => match outlet_specs(outputs, declared.outputs) {
            Err(error) => Err(error),
            Ok(outputs) => Ok(InfoView { inputs, outputs }),
        },
    }
}

/// Information over what a function returned.
pub open spec fn info_result(r: Result<ModelInfo, Error>) -> Result<InfoView, ErrorView> {
    match r {
        Ok(info) => Ok(info@),
        Err(error) => Err(error@),
    }
}

/// Read what a session takes and gives from what it reports.
pub fn metadata(inputs: &Vec<Outlet>, outputs: &Vec<Outlet>, declared: &ModelInfo) -> (r: Result<
    ModelInfo,
    Error,
>)
    ensures
        info_result(r) == session_info(
            outlet_views(inputs@),
            outlet_views(outputs@),
            declared@,
        ),
{
    let inputs = match read_outlets(inputs, &declared.inputs) {
        Err(error) => {
            return Err(error);
        },
        Ok(inputs) => inputs,
    };
    let outputs = match read_outlets(outputs, &declared.outputs) {
        Err(error) => {
            return Err(error);
        },
        Ok(outputs) => outputs,
    };
    Ok(ModelInfo { inputs, outputs })
}

/// How a native call is to be coordinated with other sessions of the process.
#[derive(Clone, Copy, Debug, PartialEq, Eq, Structural)]
pub enum Access {
    /// Alone: nothing else may use the native runtime.
    Exclusive,
    /// Beside other calls with shared access.
    Shared,
}

/// What the native side is to run.
#[derive(Clone, Copy, Debug, PartialEq, Eq, Structural)]
pub enum NativeRun {
    /// The kept tensors.
    Prepared {
        /// How to coordinate the run.
        access: Access,
        /// What to do.
        plan: RunPlan,
    },
    /// The given inputs, with shared access.
    Dynamic,
}

/// One output of a run on given inputs.
#[derive(Debug)]
pub struct RawOutput {
    /// Its dimensions.
    pub shape: Vec<i64>,
    /// Its elements.
    pub data: TensorBuffer,
}

/// The contents of a [`RawOutput`].
#[verifier::ext_equal]
pub struct RawView {
    pub shape: Seq<i64>,
    pub data: Elements,
}

impl View for RawOutput {
    type V = RawView;

    open spec fn view(&self) -> RawView {
        RawView { shape: self.shape@, data: self.data.contents() }
    }
}

/// The contents of raw outputs.
pub open spec fn raw_views(values: Seq<RawOutput>) -> Seq<RawView> {
    Seq::new(values.len(), |i: int| values[i]@)
}

/// A raw output as a tensor, where its dimensions are sizes.
pub open spec fn named_output(name: Seq<char>, value: RawView) -> Result<TensorModel, ErrorView> {
    if forall|i: int| 0 <= i < value.shape.len() ==> native_size(#[trigger] value.shape[i]) is Some {
        Ok(
            TensorModel {
                name,
                shape: Seq::new(value.shape.len(), |i: int| native_size(value.shape[i])->0),
                data: value.data,
            },
        )
    } else {
        Err(
            ErrorView::Context {
                context: Fault::NegativeOutputDimension.text(),
                cause: Box::new(ErrorView::Fault(Fault::DimensionRange)),
            },
        )
    }
}

/// A tensor over what a function returned.
pub open spec fn tensor_result(r: Result<Tensor, Error>) -> Result<TensorModel, ErrorView> {
    match r {
        Ok(tensor) => Ok(tensor.model()),
        Err(error) => Err(error@),
    }
}

/// Give a raw output its name and check its dimensions.
pub fn owned_output(name: &str, value: RawOutput) -> (r: Result<Tensor, Error>)
    ensures
        tensor_result(r) == named_output(name@, value@),
{
    let mut shape: Vec<usize> = Vec::new();
    for i in 0..value.shape.len()
        invariant
            shape@.len() == i,
            forall|j: int|
                0 <= j < i ==> native_size(#[trigger] value.shape@[j]) == Some(shape@[j]),
    {
        let dimension: i64 = value.shape[i];
        if dimension < 0 || dimension as u64 > usize::MAX as u64 {
            assert(native_size(value@.shape[i as int]) is None);
            return Err(
                Error::Fault(Fault::DimensionRange).context(
                    Fault::NegativeOutputDimension.message().to_owned(),
                ),
            );
        }
        shape.push(dimension as usize);
    }
    assert(shape@ =~= Seq::new(value@.shape.len(), |i: int| native_size(value@.shape[i])->0));
    Ok(Tensor { name: name.to_owned(), shape, data: value.data })
}

/// The raw outputs as tensors with the names of the model's outputs, or the first
/// error among them.
pub open spec fn named_outputs(specs: Seq<SpecView>, values: Seq<RawView>) -> Result<
    Seq<TensorModel>,
    ErrorView,
>
    decreases values.len(),
{
    if values.len() == 0 {
        Ok(Seq::empty())
    } else {
        match named_outputs(specs, values.drop_last()) {
            Err(error) => Err(error),
            Ok(tensors) => match named_output(specs[values.len() - 1].name, values.last()) {
                Err(error) => Err(error),
                Ok(tensor) => Ok(tensors.push(tensor)),
            },
        }
    }
}

proof fn lemma_output_errors_stay(specs: Seq<SpecView>, values: Seq<RawView>, n: int)
    requires
        0 <= n <= values.len(),
        named_outputs(specs, values.take(n)) is Err,
    ensures
        named_outputs(specs, values) == named_outputs(specs, values.take(n)),
    decreases values.len() - n,
{
    if n == values.len() {
        assert(values.take(n) =~= values);
    } else {
        assert(values.take(n + 1).drop_last() =~= values.take(n));
        lemma_output_errors_stay(specs, values, n + 1);
    }
}

/// Tensors over what a function returned.
pub open spec fn tensors_result(r: Result<Vec<Tensor>, Error>) -> Result<
    Seq<TensorModel>,
    ErrorView,
> {
    match r {
        Ok(tensors) => Ok(tensor_models(tensors@)),
        Err(error) => Err(error@),
    }
}

/// Whether values are as many as the model's outputs and have their element types.
pub open spec fn has_model_types(values: Seq<RawView>, specs: Seq<SpecView>) -> bool {
    &&& values.len() == specs.len()
    &&& forall|i: int| 0 <= i < values.len() ==> (#[trigger] values[i]).data.dtype() == specs[i].dtype
}

/// Turn the raw outputs of a run into tensors, in the order of the model's outputs. They
/// were read as elements of the model's types.
pub fn owned_outputs(specs: &Vec<TensorSpec>, values: Vec<RawOutput>) -> (r: Result<
    Vec<Tensor>,
    Error,
>)
    requires
        has_model_types(raw_views(values@), spec_views(specs@)),
    ensures
        tensors_result(r) == named_outputs(spec_views(specs@), raw_views(values@)),
{
    let ghost views = raw_views(values@);
    let ghost known = spec_views(specs@);
    let mut tensors: Vec<Tensor> = Vec::new();
    let count: usize = values.len();
    let mut i: usize = 0;
    assert(views.take(0) =~= Seq::<RawView>::empty());
    assert(tensor_models(tensors@) =~= Seq::<TensorModel>::empty());
    for value in it: values
        invariant
            it.seq() == values@,
            i == it.index(),
            count == values@.len(),
            values@.len() == specs@.len(),
            views == raw_views(values@),
            known == spec_views(specs@),
            named_outputs(known, views.take(i as int)) == Ok::<Seq<TensorModel>, ErrorView>(
                tensor_models(tensors@),
            ),
    {
        let ghost next = views.take(i + 1);
        assert(next.drop_last() =~= views.take(i as int));
        assert(next.last() == value@);
        match owned_output(specs[i].name.as_str(), value) {
            Err(error) => {
                proof {
                    lemma_output_errors_stay(known, views, i + 1);
                }
                return Err(error);
            },
            Ok(tensor) => {
                let ghost earlier = tensors@;
                tensors.push(tensor);
                assert(tensor_models(tensors@) =~= tensor_models(earlier).push(tensor.model()));
            },
        }
        i += 1;
    }
    assert(views.take(views.len() as int) =~= views);
    Ok(tensors)
}

/// A successfully opened provider session and its reusable storage.
#[derive(Debug)]
pub struct ActiveSession {
    backend_index: usize,
    buffers: Option<InferenceBuffers>,
    graph_enabled: bool,
    capture_pending: bool,
}

/// The contents of an [`ActiveSession`].
#[verifier::ext_equal]
pub struct SessionView {
    /// The candidate that the session was opened for.
    pub backend_index: int,
    /// The kept tensors, where the model has fixed shapes.
    pub buffers: Option<BuffersView>,
    /// Whether the session captures CUDA graphs.
    pub graph_enabled: bool,
    /// Whether the capture is still to come.
    pub capture_pending: bool,
}

impl View for ActiveSession {
    type V = SessionView;

    closed spec fn view(&self) -> SessionView {
        SessionView {
            backend_index: self.backend_index as int,
            buffers: match self.buffers {
                None => None,
                Some(buffers) => Some(buffers@),
            },
            graph_enabled: self.graph_enabled,
            capture_pending: self.capture_pending,
        }
    }
}

/// The device of a backend's tensors.
pub open spec fn device_of(options: OnnxOptions, backend: Backend) -> Option<i32> {
    match backend {
        Backend::TensorRt => Some(
            match options.tensorrt {
                None => 0i32,
                Some(settings) => settings.device_id,
            },
        ),
        Backend::Cuda => Some(options.cuda_in_effect().device_id),
        _ => None,
    }
}

/// The kept tensors of a session: for fixed, positive shapes, but not for custom
/// providers. Only automatic placement binds inputs before every run, so that CPU
/// partitions see fresh inputs; strict sessions keep their device addresses.
pub open spec fn opened_buffers(
    options: OnnxOptions,
    index: int,
    is_ep_context: bool,
    info: InfoView,
) -> Result<Option<BuffersView>, ErrorView> {
    let backend = options.backend.list()[index];
    if !is_eligible(info) || backend is Custom {
        Ok(None)
    } else if !all_countable(info.inputs) || !all_countable(info.outputs) {
        Err(ErrorView::Fault(Fault::ElementCountOverflow))
    } else {
        Ok(
            Some(
                BuffersView::fresh(
                    info,
                    device_of(options, backend),
                    !is_strict(options, is_ep_context),
                ),
            ),
        )
    }
}

/// The session that a native session's report makes, with what it takes and gives.
pub open spec fn opened(
    options: OnnxOptions,
    index: int,
    is_ep_context: bool,
    declared: InfoView,
    inputs: Seq<OutletView>,
    outputs: Seq<OutletView>,
) -> Result<(SessionView, InfoView), ErrorView> {
    let graph = captures_graph(options, index, is_ep_context, declared);
    match session_info(inputs, outputs, declared) {
        Err(error) => Err(error),
        Ok(info) => if graph && !is_eligible(info) {
            Err(ErrorView::Fault(Fault::GraphShapes))
        } else {
            match opened_buffers(options, index, is_ep_context, info) {
                Err(error) => Err(error),
                Ok(buffers) => Ok(
                    (
                        SessionView {
                            backend_index: index,
                            buffers,
                            graph_enabled: graph,
                            capture_pending: graph,
                        },
                        info,
                    ),
                ),
            }
        },
    }
}

/// A session over what a function returned.
pub open spec fn session_result(r: Result<(ActiveSession, ModelInfo), Error>) -> Result<
    (SessionView, InfoView),
    ErrorView,
> {
    match r {
        Ok(found) => Ok((found.0@, found.1@)),
        Err(error) => Err(error@),
    }
}

/// Make a session of what an opened native session reports of itself.
pub fn load(
    options: &OnnxOptions,
    index: usize,
    is_ep_context: bool,
    declared: &ModelInfo,
    inputs: &Vec<Outlet>,
    outputs: &Vec<Outlet>,
) -> (r: Result<(ActiveSession, ModelInfo), Error>)
    requires
        index < options.backend.list().len(),
    ensures
        session_result(r) == opened(
            *options,
            index as int,
            is_ep_context,
            declared@,
            outlet_views(inputs@),
            outlet_views(outputs@),
        ),
{
    let graph = graph_enabled(options, index, is_ep_context, declared);
    let info = match metadata(inputs, outputs, declared) {
        Err(error) => {
            return Err(error);
        },
        Ok(info) => info,
    };
    if graph && !eligible(&info) {
        return Err(Error::Fault(Fault::GraphShapes));
    }
    let backend = &options.backend.candidates()[index];
    let (device_id, custom) = match backend {
        Backend::TensorRt => (
            Some(
                match &options.tensorrt {
                    None => 0i32,
                    Some(settings) => settings.device_id,
                },
            ),
            false,
        ),
        Backend::Cuda => (Some(options.cuda_settings().device_id), false),
        Backend::CoreMl | Backend::Cpu => (None, false),
        Backend::Custom { .. } => (None, true),
    };
    let buffers = if eligible(&info) && !custom {
        match InferenceBuffers::new(
            &info,
            device_id,
            !(is_ep_context || options.backend.strict()),
        ) {
            Err(error) => {
                return Err(error);
            },
            Ok(buffers) => Some(buffers),
        }
    } else {
        None
    };
    Ok(
        (
            ActiveSession {
                backend_index: index,
                buffers,
                graph_enabled: graph,
                capture_pending: graph,
            },
            info,
        ),
    )
}

impl SessionView {
    /// How a run of the kept tensors is to be coordinated: the first successful one
    /// captures and must be alone.
    pub open spec fn access(self) -> Access {
        if self.capture_pending {
            Access::Exclusive
        } else {
            Access::Shared
        }
    }

    /// What a run of the kept tensors, or else of given inputs, has to do.
    pub open spec fn native_run(self) -> NativeRun {
        match self.buffers {
            Some(buffers) => NativeRun::Prepared { access: self.access(), plan: buffers.plan() },
            None => NativeRun::Dynamic,
        }
    }

    /// With other kept tensors.
    pub open spec fn with(self, buffers: BuffersView) -> SessionView {
        SessionView { buffers: Some(buffers), ..self }
    }

    /// After a run was begun.
    pub open spec fn begun(self) -> SessionView {
        match self.buffers {
            None => self,
            Some(buffers) => self.with(buffers.begun()),
        }
    }

    /// After the outputs ceased to belong to the current inputs.
    pub open spec fn invalidated(self) -> SessionView {
        match self.buffers {
            None => self,
            Some(buffers) => self.with(buffers.invalidated()),
        }
    }

    /// What is wrong with inputs that are to be copied to the kept tensors.
    pub open spec fn feed_fault(self, inputs: Seq<TensorModel>) -> Option<ErrorView> {
        match self.buffers {
            None => None,
            Some(buffers) => fed(buffers.inputs, inputs).1,
        }
    }

    /// After inputs were copied to the kept tensors, if there are any.
    pub open spec fn fed(self, inputs: Seq<TensorModel>) -> SessionView {
        match self.buffers {
            None => self,
            Some(buffers) => self.with(buffers.fed(inputs)),
        }
    }

    /// After a run of the kept tensors. A failed run leaves the capture to come.
    pub open spec fn finished(self, outcome: OutcomeView) -> SessionView {
        SessionView {
            buffers: match self.buffers {
                None => None,
                Some(buffers) => Some(buffers.finished(outcome)),
            },
            capture_pending: self.capture_pending && !(outcome is Done),
            ..self
        }
    }
}

impl ActiveSession {
    /// The candidate that the session was opened for.
    pub fn backend_index(&self) -> (r: usize)
        ensures
            r == self@.backend_index,
    {
        self.backend_index
    }

    /// The kept tensors.
    pub fn buffers(&self) -> (r: Option<&InferenceBuffers>)
        ensures
            match r {
                None => self@.buffers is None,
                Some(buffers) => self@.buffers == Some(buffers@),
            },
    {
        match &self.buffers {
            None => None,
            Some(buffers) => Some(buffers),
        }
    }

    /// The kept tensors, for mutation.
    pub fn buffers_mut(&mut self) -> (r: Option<&mut InferenceBuffers>)
        ensures
            match r {
                None => old(self)@.buffers is None && final(self)@ == old(self)@,
                Some(buffers) => {
                    &&& old(self)@.buffers == Some((*buffers)@)
                    &&& final(self)@ == old(self)@.with(final(buffers)@)
                },
            },
    {
        match &mut self.buffers {
            None => None,
            Some(buffers) => Some(buffers),
        }
    }

    /// Whether the session captures CUDA graphs.
    pub fn graph_enabled(&self) -> (r: bool)
        ensures
            r == self@.graph_enabled,
    {
        self.graph_enabled
    }

    /// Profiling may be ended beside other calls.
    pub fn end_profiling(&self) -> (r: Access)
        ensures
            r == Access::Shared,
    {
        Access::Shared
    }

    /// Begin a run of the kept tensors.
    pub fn run(&mut self) -> (r: Result<NativeRun, Error>)
        ensures
            final(self)@ == old(self)@.begun(),
            match old(self)@.buffers {
                None => failure(r) == Some(ErrorView::Fault(Fault::BuffersUnavailable)),
                Some(_) => r is Ok && r->Ok_0 == old(self)@.native_run(),
            },
    {
        let access = if self.capture_pending {
            Access::Exclusive
        } else {
            Access::Shared
        };
        match &mut self.buffers {
            None => Err(Error::Fault(Fault::BuffersUnavailable)),
            Some(buffers) => Ok(NativeRun::Prepared { access, plan: buffers.begin_run() }),
        }
    }

    /// Begin a run on given inputs. They are copied to the kept tensors, if there
    /// are any.
    pub fn inference(&mut self, inputs: &[TensorView<'_>]) -> (r: Result<NativeRun, Error>)
        ensures
            failure(r) == old(self)@.feed_fault(view_models(inputs@)),
            r matches Ok(run) ==> run == old(self)@.native_run(),
            final(self)@ == old(self)@.fed(view_models(inputs@)),
    {
        match &mut self.buffers {
            None => {
                return Ok(NativeRun::Dynamic);
            },
            Some(buffers) => {
                match buffers.feed(inputs) {
                    Err(error) => {
                        return Err(error);
                    },
                    Ok(()) => {},
                }
            },
        }
        self.run()
    }

    /// Record what came of a run of the kept tensors.
    pub fn finish_run(&mut self, outcome: RunOutcome) -> (r: Result<(), Error>)
        requires
            old(self)@.buffers matches Some(buffers) && buffers.admits(outcome@),
        ensures
            failure(r) == outcome@.fault(),
            final(self)@ == old(self)@.finished(outcome@),
    {
        let mut result = Ok(());
        match &mut self.buffers {
            None => {},
            Some(buffers) => {
                result = buffers.finish_run(outcome);
            },
        }
        if result.is_ok() {
            self.capture_pending = false;
        }
        result
    }
}

} // verus!
