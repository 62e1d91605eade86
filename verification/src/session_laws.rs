//! What holds of sessions: their providers, their metadata and their outputs.
use crate::api::{InfoView, ModelInfo, ResultView, RuntimeView};
use crate::buffers::{all_countable, is_eligible, is_fixed_positive, OutcomeView};
use crate::element::ElementType;
use crate::error::{Error, ErrorView, Fault, NamedFault};
use crate::options::{
    same_configuration, Backend, BackendSelection, CudaOptions, HostText, OnnxOptions,
    ProviderKind, TensorRtOptions,
};
use crate::session::{
    captures_graph, device_of, device_result, engine_cache, info_result, is_configured,
    is_cpu_target, is_raw_gpu_provider, is_strict, lists_overrides, named_outputs, opened,
    outlet_spec, outlet_specs, outlet_views, planned_providers, plans_result, provider_views,
    raw_views, session_info, session_result, stream_device, tensor_result, tensors_result,
    tf32_agrees, Access, ActiveSession, NativeRun, Outlet, OutletView, ProviderPlan, ProviderView,
    RawOutput, RawView, SessionView,
};
use crate::tensor::{count_fault, fixed_dims, product, DType, SpecView, Tensor, TensorModel};
use crate::text::lemma_precedes_is_an_order;
use vstd::prelude::*;

verus! {

// ---------------------------------------------------------------------------
// Outputs of a run on given inputs

/// Whether the numbers of a native shape can all be sizes.
pub open spec fn is_sized(shape: Seq<i64>) -> bool {
    forall|k: int| 0 <= k < shape.len() ==> 0 <= #[trigger] shape[k] && shape[k] <= usize::MAX
}

/// Whether a shape has the numbers of a native shape, dimension by dimension.
pub open spec fn same_numbers(shape: Seq<usize>, native: Seq<i64>) -> bool {
    &&& shape.len() == native.len()
    &&& forall|k: int| 0 <= k < shape.len() ==> (#[trigger] shape[k]) as int == native[k] as int
}

/// Outputs keep what the native run returned: the tensors come in the model's order
/// under the model's names, each with the dimensions of its value, in their order, and
/// with its elements. They are refused exactly when some dimension is no size.
pub proof fn law_outputs_keep_shapes_and_elements(specs: Seq<SpecView>, values: Seq<RawView>)
    requires
        values.len() == specs.len(),
    ensures
        match named_outputs(specs, values) {
            Ok(tensors) => {
                &&& tensors.len() == values.len()
                &&& forall|i: int|
                    #![trigger tensors[i]]
                    #![trigger values[i]]
                    0 <= i < values.len() ==> {
                        &&& tensors[i].name == specs[i].name
                        &&& tensors[i].data == values[i].data
                        &&& same_numbers(tensors[i].shape, values[i].shape)
                    }
            },
            Err(error) => {
                &&& error.report() == Fault::NegativeOutputDimension.text() + ": "@
                    + Fault::DimensionRange.text()
                &&& exists|i: int|
                    0 <= i < values.len() && !is_sized((#[trigger] values[i]).shape)
            },
        },
        named_outputs(specs, values) is Ok <==> forall|i: int|
            0 <= i < values.len() ==> is_sized((#[trigger] values[i]).shape),
{
    lemma_outputs_keep_shapes(specs, values);
}

proof fn lemma_outputs_keep_shapes(specs: Seq<SpecView>, values: Seq<RawView>)
    requires
        values.len() <= specs.len(),
    ensures
        match named_outputs(specs, values) {
            Ok(tensors) => {
                &&& tensors.len() == values.len()
                &&& forall|i: int|
                    #![trigger tensors[i]]
                    #![trigger values[i]]
                    0 <= i < values.len() ==> {
                        &&& tensors[i].name == specs[i].name
                        &&& tensors[i].data == values[i].data
                        &&& same_numbers(tensors[i].shape, values[i].shape)
                    }
            },
            Err(error) => {
                &&& error.report() == Fault::NegativeOutputDimension.text() + ": "@
                    + Fault::DimensionRange.text()
                &&& exists|i: int|
                    0 <= i < values.len() && !is_sized((#[trigger] values[i]).shape)
            },
        },
        named_outputs(specs, values) is Ok ==> forall|i: int|
            0 <= i < values.len() ==> is_sized((#[trigger] values[i]).shape),
    decreases values.len(),
{
    assert(ErrorView::Fault(Fault::DimensionRange).report() == Fault::DimensionRange.text());
    if values.len() > 0 {
        let front = values.drop_last();
        lemma_outputs_keep_shapes(specs, front);
        match named_outputs(specs, front) {
            Err(_) => {
                let i = choose|i: int|
                    0 <= i < front.len() && !is_sized((#[trigger] front[i]).shape);
                assert(!is_sized(values[i].shape));
            },
            Ok(before) => {
                assert(values.last() == values[values.len() - 1]);
                assert forall|i: int| 0 <= i < front.len() implies values[i] == front[i] by {}
                if !is_sized(values.last().shape) {
                    assert(named_outputs(specs, values) is Err);
                }
            },
        }
    }
}

/// When an inference on a session without kept tensors succeeds, every returned tensor
/// has as many dimensions as the native output, each of the same number, and its
/// elements.
pub proof fn law_dynamic_results_keep_their_shapes(runtime: RuntimeView, values: Seq<RawView>)
    requires
        runtime.admits(ResultView::Dynamic(Ok(values))),
    ensures
        values.len() == runtime.info.outputs.len(),
        match runtime.produced(ResultView::Dynamic(Ok(values))) {
            Ok(tensors) => {
                &&& tensors.len() == values.len()
                &&& forall|i: int|
                    0 <= i < values.len() ==> {
                        &&& (#[trigger] tensors[i]).name == runtime.info.outputs[i].name
                        &&& tensors[i].data == values[i].data
                        &&& tensors[i].data.dtype() == runtime.info.outputs[i].dtype
                        &&& tensors[i].shape.len() == values[i].shape.len()
                        &&& forall|k: int|
                            0 <= k < values[i].shape.len() ==> (
                            #[trigger] tensors[i].shape[k]) as int == values[i].shape[k] as int
                    }
            },
            Err(_) => exists|i: int, k: int|
                0 <= i < values.len() && 0 <= k < values[i].shape.len() && !(0
                    <= #[trigger] values[i].shape[k] <= usize::MAX),
        },
        runtime.finished(ResultView::Dynamic(Ok(values))) == runtime
            || runtime.produced(ResultView::Dynamic(Ok(values))) is Err,
{
    law_outputs_keep_shapes_and_elements(runtime.info.outputs, values);
    match named_outputs(runtime.info.outputs, values) {
        Ok(tensors) => {
            assert forall|i: int| 0 <= i < values.len() implies {
                &&& (#[trigger] tensors[i]).name == runtime.info.outputs[i].name
                &&& tensors[i].data == values[i].data
                &&& tensors[i].data.dtype() == runtime.info.outputs[i].dtype
                &&& tensors[i].shape.len() == values[i].shape.len()
                &&& forall|k: int|
                    0 <= k < values[i].shape.len() ==> (#[trigger] tensors[i].shape[k]) as int
                        == values[i].shape[k] as int
            } by {
                assert(same_numbers(tensors[i].shape, values[i].shape));
            }
        },
        Err(_) => {
            let i = choose|i: int|
                0 <= i < values.len() && !is_sized((#[trigger] values[i]).shape);
            let k = choose|k: int|
                0 <= k < values[i].shape.len() && !(0 <= #[trigger] values[i].shape[k]
                    && values[i].shape[k] <= usize::MAX);
            assert(!(0 <= values[i].shape[k] <= usize::MAX));
        },
    }
}

// ---------------------------------------------------------------------------
// Metadata of a session

/// Whether `dims` says of each native dimension what it is: its number, or nothing
/// where it is negative or no size.
pub open spec fn reads_shape(dims: Seq<Option<usize>>, native: Seq<i64>) -> bool {
    &&& dims.len() == native.len()
    &&& forall|k: int|
        0 <= k < native.len() ==> match #[trigger] dims[k] {
            Some(n) => native[k] >= 0 && n as int == native[k] as int,
            None => native[k] < 0 || native[k] > usize::MAX,
        }
}

/// Whether no specification leaves the rank of `name` open.
pub open spec fn keeps_rank(declared: Seq<SpecView>, name: Seq<char>) -> bool {
    forall|i: int|
        0 <= i < declared.len() && (#[trigger] declared[i]).name == name ==> declared[i].shape
            is Some
}

/// Whether a specification says what an outlet is, given what the model declares.
pub open spec fn describes(spec: SpecView, outlet: OutletView, declared: Seq<SpecView>) -> bool {
    &&& spec.name == outlet.name
    &&& outlet.element_type == Some(ElementType::native_type(spec.dtype))
    &&& match spec.shape {
        Some(dims) => keeps_rank(declared, outlet.name) && reads_shape(dims, outlet.shape),
        None => !keeps_rank(declared, outlet.name),
    }
}

/// Metadata keeps what the session reports: an outlet's specification has its name, its
/// element type and as many dimensions as the outlet; a dimension is the reported
/// number where that is not negative, and unknown where it is. Only a rank that the
/// model leaves open stays open. An outlet is refused exactly when it is no tensor of a
/// supported type.
pub proof fn law_outlets_are_read_dimension_by_dimension(
    outlet: OutletView,
    declared: Seq<SpecView>,
)
    ensures
        match outlet_spec(outlet, declared) {
            Ok(spec) => describes(spec, outlet, declared),
            Err(error) => match outlet.element_type {
                None => error == (ErrorView::Named {
                    fault: NamedFault::NotDense,
                    name: outlet.name,
                }),
                Some(found) => {
                    &&& forall|dtype| found != #[trigger] ElementType::native_type(dtype)
                    &&& error == (ErrorView::UnsupportedType {
                        element_type: found.name(),
                        name: None,
                    })
                },
            },
        },
        (exists|dtype| outlet.element_type == Some(#[trigger] ElementType::native_type(dtype)))
            ==> outlet_spec(outlet, declared) is Ok,
{
    assert forall|dtype| outlet.element_type == Some(
        #[trigger] ElementType::native_type(dtype),
    ) implies outlet_spec(outlet, declared) is Ok by {}
    if let Ok(spec) = outlet_spec(outlet, declared) {
        if spec.shape is None {
            let i = choose|i: int|
                0 <= i < declared.len() && (#[trigger] declared[i]).name == outlet.name
                    && declared[i].shape is None;
            assert(!keeps_rank(declared, outlet.name));
        }
    }
}

/// What a session reports becomes metadata outlet by outlet, in the reported order.
pub proof fn law_outlets_are_read_in_order(outlets: Seq<OutletView>, declared: Seq<SpecView>)
    ensures
        match outlet_specs(outlets, declared) {
            Ok(specs) => {
                &&& specs.len() == outlets.len()
                &&& forall|i: int|
                    #![trigger specs[i]]
                    #![trigger outlets[i]]
                    0 <= i < outlets.len() ==> describes(specs[i], outlets[i], declared)
            },
            Err(error) => exists|i: int|
                0 <= i < outlets.len() && #[trigger] outlet_spec(outlets[i], declared)
                    == Err::<SpecView, ErrorView>(error),
        },
        outlet_specs(outlets, declared) is Ok ==> forall|i: int|
            0 <= i < outlets.len() ==> #[trigger] outlet_spec(outlets[i], declared) is Ok,
    decreases outlets.len(),
{
    if outlets.len() > 0 {
        let front = outlets.drop_last();
        law_outlets_are_read_in_order(front, declared);
        law_outlets_are_read_dimension_by_dimension(outlets.last(), declared);
        assert(outlets.last() == outlets[outlets.len() - 1]);
        match outlet_specs(front, declared) {
            Err(error) => {
                let i = choose|i: int|
                    0 <= i < front.len() && #[trigger] outlet_spec(front[i], declared)
                        == Err::<SpecView, ErrorView>(error);
                assert(outlet_spec(outlets[i], declared) == Err::<SpecView, ErrorView>(error));
            },
            Ok(before) => {
                assert forall|i: int| 0 <= i < front.len() implies #[trigger] outlets[i]
                    == front[i] by {}
                if let Ok(specs) = outlet_specs(outlets, declared) {
                    assert forall|i: int|
                        #![trigger specs[i]]
                        #![trigger outlets[i]]
                        0 <= i < outlets.len() implies describes(
                        specs[i],
                        outlets[i],
                        declared,
                    ) by {
                        if i < front.len() {
                            assert(specs[i] == before[i]);
                            assert(describes(before[i], front[i], declared));
                        }
                    }
                    assert forall|i: int| 0 <= i < outlets.len() implies #[trigger] outlet_spec(
                        outlets[i],
                        declared,
                    ) is Ok by {
                        if i < front.len() {
                            assert(outlet_spec(front[i], declared) is Ok);
                        }
                    }
                }
            },
        }
    }
}

/// A session's inputs are read from its input outlets and its outputs from its output
/// outlets, each in the reported order.
pub proof fn law_session_metadata_is_what_was_reported(
    inputs: Seq<OutletView>,
    outputs: Seq<OutletView>,
    declared: InfoView,
)
    ensures
        match session_info(inputs, outputs, declared) {
            Ok(info) => {
                &&& info.inputs.len() == inputs.len()
                &&& info.outputs.len() == outputs.len()
                &&& forall|i: int|
                    0 <= i < inputs.len() ==> describes(
                        #[trigger] info.inputs[i],
                        inputs[i],
                        declared.inputs,
                    )
                &&& forall|i: int|
                    0 <= i < outputs.len() ==> describes(
                        #[trigger] info.outputs[i],
                        outputs[i],
                        declared.outputs,
                    )
            },
            Err(_) => true,
        },
        session_info(inputs, outputs, declared) is Err ==> {
            ||| exists|i: int|
                0 <= i < inputs.len() && #[trigger] outlet_spec(inputs[i], declared.inputs) is Err
            ||| exists|i: int|
                0 <= i < outputs.len() && #[trigger] outlet_spec(outputs[i], declared.outputs)
                    is Err
        },
{
    law_outlets_are_read_in_order(inputs, declared.inputs);
    law_outlets_are_read_in_order(outputs, declared.outputs);
    match outlet_specs(inputs, declared.inputs) {
        Err(error) => {
            let i = choose|i: int|
                0 <= i < inputs.len() && #[trigger] outlet_spec(inputs[i], declared.inputs)
                    == Err::<SpecView, ErrorView>(error);
            assert(outlet_spec(inputs[i], declared.inputs) is Err);
        },
        Ok(_) => {
            if let Err(error) = outlet_specs(outputs, declared.outputs) {
                let i = choose|i: int|
                    0 <= i < outputs.len() && #[trigger] outlet_spec(
                        outputs[i],
                        declared.outputs,
                    ) == Err::<SpecView, ErrorView>(error);
                assert(outlet_spec(outputs[i], declared.outputs) is Err);
            }
        },
    }
}

// ---------------------------------------------------------------------------
// Providers

/// A CUDA session runs with the CUDA settings that were given, or the defaults without
/// any: where the candidate is CUDA and its settings have a device, the one planned
/// provider is a required CUDA provider with exactly these settings, and the stream and
/// the kept tensors are on their device. Without such a device there is neither provider
/// nor stream.
pub proof fn law_cuda_runs_with_the_given_settings(
    options: OnnxOptions,
    settings: CudaOptions,
    index: int,
    is_ep_context: bool,
    cuda_graph: bool,
    build_directory: Option<HostText>,
    tf32_override: Option<HostText>,
    tensorrt_cache: Option<HostText>,
)
    requires
        0 <= index < options.backend.list().len(),
        options.backend.list()[index] == Backend::Cuda,
        options.cuda == Some(settings) || (options.cuda is None && settings
            == CudaOptions::defaults()),
    ensures
        match planned_providers(
            options,
            index,
            is_ep_context,
            cuda_graph,
            build_directory,
            tf32_override,
            tensorrt_cache,
        ) {
            Ok(plan) => {
                &&& settings.device_id >= 0
                &&& plan.len() == 1
                &&& plan[0] matches ProviderView::Cuda {
                    settings: own,
                    cuda_graph: graph,
                    required,
                } && own.device_id == settings.device_id && own.tf32 == settings.tf32 && own
                    == settings && graph == cuda_graph && required
            },
            Err(_) => settings.device_id < 0,
        },
        match stream_device(options, index, tf32_override) {
            Ok(device) => settings.device_id >= 0 && device == Some(settings.device_id),
            Err(_) => settings.device_id < 0,
        },
        device_of(options, Backend::Cuda) == Some(settings.device_id),
{
}

/// A GPU candidate is refused for its settings first, then for the process setting for
/// TF32, then for the directory of its engines.
pub proof fn law_candidates_are_refused_for_the_first(
    options: OnnxOptions,
    index: int,
    is_ep_context: bool,
    cuda_graph: bool,
    build_directory: Option<HostText>,
    tf32_override: Option<HostText>,
    tensorrt_cache: Option<HostText>,
)
    requires
        0 <= index < options.backend.list().len(),
    ensures
        planned_providers(
            options,
            index,
            is_ep_context,
            cuda_graph,
            build_directory,
            tf32_override,
            tensorrt_cache,
        ) matches Err(error) ==> {
            ||| options.backend.list()[index] is Cuda && options.cuda_in_effect().fault() == Some(
                error,
            )
            ||| {
                let settings = options.tensorrt_in_effect();
                &&& options.backend.list()[index] is TensorRt
                &&& if settings.fault() is Some {
                    settings.fault() == Some(error)
                } else if !tf32_agrees(settings.tf32, tf32_override) {
                    error == ErrorView::Fault(Fault::Tf32Override)
                } else {
                    error == ErrorView::Fault(Fault::CachePath)
                }
            }
        },
        stream_device(options, index, tf32_override) matches Err(error) ==> planned_providers(
            options,
            index,
            is_ep_context,
            cuda_graph,
            build_directory,
            tf32_override,
            tensorrt_cache,
        ) == Err::<Seq<ProviderView>, ErrorView>(error),
{
}

/// Whether TensorRT accepts these settings beside this process setting.
pub open spec fn tensorrt_starts(
    settings: TensorRtOptions,
    tf32_override: Option<HostText>,
) -> bool {
    &&& settings.device_id >= 0
    &&& settings.builder_optimization_level <= 5
    &&& settings.workspace_bytes > 0
    &&& settings.auxiliary_streams >= -1
    &&& settings.min_shapes is Some <==> settings.opt_shapes is Some
    &&& settings.opt_shapes is Some <==> settings.max_shapes is Some
    &&& settings.tf32 ==> tf32_override is None
    &&& !settings.tf32 ==> (tf32_override matches Some(HostText::Unicode(text)) && text@ == "0"@)
}

/// A TensorRT session runs with the TensorRT settings that were given, or the defaults
/// without any: where the candidate is TensorRT, the first planned provider is TensorRT
/// with exactly these settings, and the stream and the kept tensors are on their device.
/// Settings out of range, or at odds with the process setting for TF32, give neither
/// provider nor stream.
pub proof fn law_tensorrt_runs_with_the_given_settings(
    options: OnnxOptions,
    settings: TensorRtOptions,
    index: int,
    is_ep_context: bool,
    cuda_graph: bool,
    build_directory: Option<HostText>,
    tf32_override: Option<HostText>,
    tensorrt_cache: Option<HostText>,
)
    requires
        0 <= index < options.backend.list().len(),
        options.backend.list()[index] == Backend::TensorRt,
        options.tensorrt == Some(settings) || (options.tensorrt is None && settings
            == TensorRtOptions::defaults()),
    ensures
        match planned_providers(
            options,
            index,
            is_ep_context,
            cuda_graph,
            build_directory,
            tf32_override,
            tensorrt_cache,
        ) {
            Ok(plan) => {
                &&& tensorrt_starts(settings, tf32_override)
                &&& 1 <= plan.len() <= 2
                &&& plan[0] matches ProviderView::TensorRt {
                    settings: own,
                    cuda_graph: graph,
                    engine_cache: cache,
                } && own == settings && graph == cuda_graph && match build_directory {
                    Some(HostText::Unicode(path)) => cache == Some(path@),
                    Some(HostText::Other(_)) => false,
                    None => match tensorrt_cache {
                        Some(HostText::Unicode(path)) => if path@.len() == 0 {
                            cache is None
                        } else {
                            cache == Some(path@)
                        },
                        Some(HostText::Other(_)) => false,
                        None => cache is None,
                    },
                }
            },
            Err(_) => !tensorrt_starts(settings, tf32_override) || build_directory matches Some(
                HostText::Other(_),
            ) || (build_directory is None && tensorrt_cache matches Some(HostText::Other(_))),
        },
        match stream_device(options, index, tf32_override) {
            Ok(device) => tensorrt_starts(settings, tf32_override) && device == Some(
                settings.device_id,
            ),
            Err(_) => !tensorrt_starts(settings, tf32_override),
        },
        device_of(options, Backend::TensorRt) == Some(settings.device_id),
{
}

/// TensorRT takes CUDA with it for the nodes that it leaves exactly where the caller
/// lists CUDA as a later candidate of an ordinary graph, with settings on TensorRT's
/// device. That provider is optional, has the CUDA settings that were given and
/// captures no graphs.
pub proof fn law_cuda_joins_tensorrt_only_as_listed(
    options: OnnxOptions,
    index: int,
    is_ep_context: bool,
    cuda_graph: bool,
    build_directory: Option<HostText>,
    tf32_override: Option<HostText>,
    tensorrt_cache: Option<HostText>,
)
    requires
        0 <= index < options.backend.list().len(),
        options.backend.list()[index] == Backend::TensorRt,
    ensures
        planned_providers(
            options,
            index,
            is_ep_context,
            cuda_graph,
            build_directory,
            tf32_override,
            tensorrt_cache,
        ) matches Ok(plan) ==> {
            let own_device = match options.cuda {
                Some(settings) => settings.device_id,
                None => 0i32,
            };
            let device = match options.tensorrt {
                Some(settings) => settings.device_id,
                None => 0i32,
            };
            &&& plan.len() == 2 <==> {
                &&& !is_ep_context
                &&& options.backend is Auto
                &&& own_device == device
                &&& exists|i: int|
                    index < i < options.backend.list().len() && #[trigger] options.backend.list()[i]
                        == Backend::Cuda
            }
            &&& plan.len() == 2 ==> (plan[1] matches ProviderView::Cuda {
                settings,
                cuda_graph: graph,
                required,
            } && !graph && !required && settings.device_id == own_device
                && (options.cuda matches Some(given) ==> settings == given))
        },
{
}

/// Without settings of its own, a GPU provider runs on the first device, with TF32,
/// and asks for CUDA graphs.
pub proof fn law_absent_settings_are_the_defaults(options: OnnxOptions)
    ensures
        options.cuda is None ==> {
            let own = options.cuda_in_effect();
            own.device_id == 0 && own.tf32 && own.cuda_graph && own == CudaOptions::defaults()
        },
        options.tensorrt is None ==> {
            let own = options.tensorrt_in_effect();
            &&& own == TensorRtOptions::defaults()
            &&& own.device_id == 0 && !own.fp16 && own.tf32 && own.cuda_graph && own.sparsity
            &&& own.builder_optimization_level == 3 && own.auxiliary_streams == -1
            &&& own.min_shapes is None && own.opt_shapes is None && own.max_shapes is None
            &&& own.workspace_bytes == if usize::MAX < 0x1_0000_0000 {
                usize::MAX as int
            } else {
                0x1_0000_0000
            }
        },
        options.cuda matches Some(given) ==> options.cuda_in_effect() == given,
        options.tensorrt matches Some(given) ==> options.tensorrt_in_effect() == given,
{
}

/// The other candidates are registered alone, and neither stream nor device memory is
/// made for them. A custom provider is the one that the caller named.
pub proof fn law_other_candidates_are_registered_alone(
    options: OnnxOptions,
    index: int,
    is_ep_context: bool,
    cuda_graph: bool,
    build_directory: Option<HostText>,
    tf32_override: Option<HostText>,
    tensorrt_cache: Option<HostText>,
)
    requires
        0 <= index < options.backend.list().len(),
        !(options.backend.list()[index] is Cuda),
        !(options.backend.list()[index] is TensorRt),
    ensures
        planned_providers(
            options,
            index,
            is_ep_context,
            cuda_graph,
            build_directory,
            tf32_override,
            tensorrt_cache,
        ) matches Ok(plan) && plan.len() == 1 && match options.backend.list()[index] {
            Backend::CoreMl => plan[0] is CoreMl,
            Backend::Cpu => plan[0] is Cpu,
            Backend::Custom { name, provider } => plan[0] == ProviderView::Custom(provider.id),
            _ => false,
        },
        stream_device(options, index, tf32_override) == Ok::<Option<i32>, ErrorView>(None),
        device_of(options, options.backend.list()[index]) is None,
{
}

/// The first provider of a plan is that of the candidate, and is required.
pub proof fn law_the_candidate_comes_first(
    options: OnnxOptions,
    index: int,
    is_ep_context: bool,
    cuda_graph: bool,
    build_directory: Option<HostText>,
    tf32_override: Option<HostText>,
    tensorrt_cache: Option<HostText>,
)
    requires
        0 <= index < options.backend.list().len(),
    ensures
        planned_providers(
            options,
            index,
            is_ep_context,
            cuda_graph,
            build_directory,
            tf32_override,
            tensorrt_cache,
        ) matches Ok(plan) ==> plan.len() >= 1 && match plan[0] {
            ProviderView::TensorRt { .. } => options.backend.list()[index] is TensorRt,
            ProviderView::Cuda { settings, cuda_graph: graph, required } => {
                options.backend.list()[index] is Cuda && required
            },
            ProviderView::CoreMl => options.backend.list()[index] is CoreMl,
            ProviderView::Cpu => options.backend.list()[index] is Cpu,
            ProviderView::Custom(id) => options.backend.list()[index] matches Backend::Custom {
                name,
                provider,
            } && provider.id == id,
        },
{
}

/// Which candidates may place every node on the CPU, and which custom providers are
/// GPU providers, goes by what the caller says that they are.
pub proof fn law_targets_are_what_they_are_declared_to_be(backend: Backend)
    ensures
        is_cpu_target(backend) <==> backend is Cpu || (backend matches Backend::Custom {
            name,
            provider,
        } && provider.kind == ProviderKind::Cpu),
        is_raw_gpu_provider(backend) <==> (backend matches Backend::Custom { name, provider } && (
        provider.kind == ProviderKind::Cuda || provider.kind == ProviderKind::TensorRt)),
{
}

/// The sizes handed to a session are those of the options, each name once, in the
/// order of the names.
pub proof fn law_every_size_is_handed_on(
    list: Seq<(String, i64)>,
    overrides: Map<Seq<char>, usize>,
)
    requires
        lists_overrides(list, overrides),
        forall|name: Seq<char>|
            overrides.contains_key(name) ==> #[trigger] overrides[name] <= i64::MAX,
    ensures
        forall|name: Seq<char>|
            overrides.contains_key(name) <==> exists|i: int|
                0 <= i < list.len() && (#[trigger] list[i]).0@ == name,
        forall|i: int|
            0 <= i < list.len() ==> (#[trigger] list[i]).1 as int == overrides[list[i].0@] as int,
        forall|i: int, j: int|
            0 <= i < j < list.len() ==> (#[trigger] list[i]).0@ != (#[trigger] list[j]).0@,
{
    assert forall|i: int, j: int| 0 <= i < j < list.len() implies (#[trigger] list[i]).0@ != (
    #[trigger] list[j]).0@ by {
        lemma_precedes_is_an_order(list[i].0@, list[j].0@, list[i].0@);
    }
}

/// A library path from the environment counts unless it is absent or empty. TF32 agrees
/// with the process setting when it is on and nothing is set, or off and the setting is
/// `0`.
pub proof fn law_environment_settings_count_when_set(
    configured: Option<HostText>,
    enabled: bool,
)
    ensures
        is_configured(configured) <==> match configured {
            None => false,
            Some(HostText::Other(_)) => true,
            Some(HostText::Unicode(text)) => text@.len() > 0,
        },
        tf32_agrees(enabled, configured) <==> match configured {
            None => enabled,
            Some(HostText::Other(_)) => false,
            Some(HostText::Unicode(text)) => !enabled && text@ == "0"@,
        },
{
}

/// Engines are cached in the build directory of a compilation, else in the configured
/// directory, else nowhere; a directory that is no Unicode text is refused.
pub proof fn law_engines_are_cached_where_configured(
    build_directory: Option<HostText>,
    configured: Option<HostText>,
)
    ensures
        match build_directory {
            Some(HostText::Unicode(path)) => engine_cache(build_directory, configured) == Ok::<
                Option<Seq<char>>,
                ErrorView,
            >(Some(path@)),
            Some(HostText::Other(_)) => engine_cache(build_directory, configured) is Err,
            None => match configured {
                None => engine_cache(build_directory, configured) == Ok::<
                    Option<Seq<char>>,
                    ErrorView,
                >(None),
                Some(HostText::Other(_)) => engine_cache(build_directory, configured) is Err,
                Some(HostText::Unicode(path)) => engine_cache(build_directory, configured) == Ok::<
                    Option<Seq<char>>,
                    ErrorView,
                >(
                    if path@.len() == 0 {
                        None
                    } else {
                        Some(path@)
                    },
                ),
            },
        },
{
}

/// A session is strict exactly when its provider is required or its model is compiled
/// state.
pub proof fn law_strictness_is_chosen(options: OnnxOptions, is_ep_context: bool)
    ensures
        is_strict(options, is_ep_context) <==> match options.backend {
            BackendSelection::Require(_) => true,
            BackendSelection::Auto(_) => is_ep_context,
        },
{
}

/// Options that configure the same sessions are accepted alike and give the same
/// candidates, streams, providers and captures.
pub proof fn law_same_configurations_give_the_same_sessions(
    a: OnnxOptions,
    b: OnnxOptions,
    index: int,
    is_ep_context: bool,
    cuda_graph: bool,
    build_directory: Option<HostText>,
    tf32_override: Option<HostText>,
    tensorrt_cache: Option<HostText>,
    declared: InfoView,
)
    requires
        same_configuration(a, b),
        0 <= index < a.backend.list().len(),
    ensures
        a.backend.list() == b.backend.list(),
        a.backend is Require <==> b.backend is Require,
        a.tensorrt == b.tensorrt,
        a.cuda == b.cuda,
        a.intra_threads == b.intra_threads,
        a.inter_threads == b.inter_threads,
        a.parallel_execution == b.parallel_execution,
        a.dimension_overrides@ == b.dimension_overrides@,
        a.fault() == b.fault(),
        stream_device(a, index, tf32_override) == stream_device(b, index, tf32_override),
        planned_providers(
            a,
            index,
            is_ep_context,
            cuda_graph,
            build_directory,
            tf32_override,
            tensorrt_cache,
        ) == planned_providers(
            b,
            index,
            is_ep_context,
            cuda_graph,
            build_directory,
            tf32_override,
            tensorrt_cache,
        ),
        captures_graph(a, index, is_ep_context, declared) == captures_graph(
            b,
            index,
            is_ep_context,
            declared,
        ),
{
}

// ---------------------------------------------------------------------------
// Open sessions

/// Whether every dimension of a specification is a known number above zero.
pub open spec fn is_fixed(spec: SpecView) -> bool {
    spec.shape matches Some(dims) && forall|k: int|
        0 <= k < dims.len() ==> (#[trigger] dims[k] matches Some(n) && n >= 1)
}

/// Whether a model has inputs and outputs and all are fixed.
pub open spec fn is_fixed_model(info: InfoView) -> bool {
    &&& info.inputs.len() > 0
    &&& info.outputs.len() > 0
    &&& forall|i: int| 0 <= i < info.inputs.len() ==> is_fixed(#[trigger] info.inputs[i])
    &&& forall|i: int| 0 <= i < info.outputs.len() ==> is_fixed(#[trigger] info.outputs[i])
}

/// Tensors can be kept exactly for models with inputs and outputs, all of whose
/// dimensions are known and above zero.
pub proof fn law_only_fixed_models_keep_tensors(info: InfoView)
    ensures
        is_eligible(info) <==> is_fixed_model(info),
{
    if is_fixed_model(info) {
        assert forall|i: int| 0 <= i < info.inputs.len() implies is_fixed_positive(
            #[trigger] info.inputs[i],
        ) by {
            assert(is_fixed(info.inputs[i]));
        }
        assert forall|i: int| 0 <= i < info.outputs.len() implies is_fixed_positive(
            #[trigger] info.outputs[i],
        ) by {
            assert(is_fixed(info.outputs[i]));
        }
    }
    if is_eligible(info) {
        assert forall|i: int| 0 <= i < info.inputs.len() implies is_fixed(
            #[trigger] info.inputs[i],
        ) by {
            assert(is_fixed_positive(info.inputs[i]));
        }
        assert forall|i: int| 0 <= i < info.outputs.len() implies is_fixed(
            #[trigger] info.outputs[i],
        ) by {
            assert(is_fixed_positive(info.outputs[i]));
        }
    }
}

/// Graphs are captured exactly where a GPU candidate's settings ask for it, the model
/// is fixed, operators run one after another, and the session is strict.
pub proof fn law_graphs_are_captured_where_asked(
    options: OnnxOptions,
    index: int,
    is_ep_context: bool,
    declared: InfoView,
)
    requires
        0 <= index < options.backend.list().len(),
    ensures
        captures_graph(options, index, is_ep_context, declared) <==> {
            &&& is_fixed_model(declared)
            &&& !options.parallel_execution
            &&& is_ep_context || options.backend is Require
            &&& match options.backend.list()[index] {
                Backend::Cuda => options.cuda matches Some(own) ==> own.cuda_graph,
                Backend::TensorRt => options.tensorrt matches Some(own) ==> own.cuda_graph,
                _ => false,
            }
        },
{
    law_only_fixed_models_keep_tensors(declared);
}

/// An open session reports what its outlets are; it keeps tensors exactly where the
/// model is fixed and the provider built in; it captures graphs where asked, the first
/// capture being still to come. Its kept inputs and outputs have the names of the
/// outlets, inputs start as zeros, nothing can be read yet, inputs are bound anew for
/// each run unless the session is strict, and copies go to the device of the settings.
pub proof fn law_sessions_open_as_configured(
    options: OnnxOptions,
    index: int,
    is_ep_context: bool,
    declared: InfoView,
    inputs: Seq<OutletView>,
    outputs: Seq<OutletView>,
)
    requires
        0 <= index < options.backend.list().len(),
    ensures
        opened(options, index, is_ep_context, declared, inputs, outputs) matches Ok((session, info))
            ==> {
            let backend = options.backend.list()[index];
            &&& session_info(inputs, outputs, declared) == Ok::<InfoView, ErrorView>(info)
            &&& session.backend_index == index
            &&& session.buffers is Some <==> is_fixed_model(info) && !(backend is Custom)
            &&& session.graph_enabled == captures_graph(options, index, is_ep_context, declared)
            &&& session.capture_pending == session.graph_enabled
            &&& session.buffers matches Some(buffers) ==> {
                &&& buffers.inputs.len() == inputs.len()
                &&& buffers.outputs.len() == outputs.len()
                &&& forall|i: int|
                    0 <= i < inputs.len() ==> (#[trigger] buffers.inputs[i]).name == inputs[i].name
                &&& forall|i: int|
                    0 <= i < outputs.len() ==> (#[trigger] buffers.outputs[i]).name
                        == outputs[i].name
                &&& !buffers.outputs_valid && !buffers.outputs_held && !buffers.inputs_bound
                &&& buffers.rebind_inputs <==> !is_ep_context && options.backend is Auto
                &&& match backend {
                    Backend::Cuda => buffers.device_id == Some(
                        match options.cuda {
                            Some(own) => own.device_id,
                            None => 0i32,
                        },
                    ),
                    Backend::TensorRt => buffers.device_id == Some(
                        match options.tensorrt {
                            Some(own) => own.device_id,
                            None => 0i32,
                        },
                    ),
                    _ => buffers.device_id is None,
                }
                &&& buffers.plan().device_id == buffers.device_id
                &&& buffers.plan().bind_inputs
            }
        },
{
    if let Ok((session, info)) = opened(
        options,
        index,
        is_ep_context,
        declared,
        inputs,
        outputs,
    ) {
        law_only_fixed_models_keep_tensors(info);
        law_session_metadata_is_what_was_reported(inputs, outputs, declared);
        if let Some(buffers) = session.buffers {
            assert forall|i: int| 0 <= i < inputs.len() implies (#[trigger] buffers.inputs[i]).name
                == inputs[i].name by {
                assert(describes(info.inputs[i], inputs[i], declared.inputs));
            }
            assert forall|i: int| 0 <= i < outputs.len() implies (
            #[trigger] buffers.outputs[i]).name == outputs[i].name by {
                assert(describes(info.outputs[i], outputs[i], declared.outputs));
            }
        }
    }
}

/// A session opens exactly when its metadata can be read, what it captures is fixed,
/// and the elements of the tensors to be kept can be counted.
pub proof fn law_sessions_open_unless_refused(
    options: OnnxOptions,
    index: int,
    is_ep_context: bool,
    declared: InfoView,
    inputs: Seq<OutletView>,
    outputs: Seq<OutletView>,
)
    requires
        0 <= index < options.backend.list().len(),
    ensures
        session_info(inputs, outputs, declared) matches Ok(info) && (!is_fixed_model(info)
            || options.backend.list()[index] is Custom) && !captures_graph(
            options,
            index,
            is_ep_context,
            declared,
        ) ==> opened(options, index, is_ep_context, declared, inputs, outputs) is Ok,
        session_info(inputs, outputs, declared) matches Err(error) ==> opened(
            options,
            index,
            is_ep_context,
            declared,
            inputs,
            outputs,
        ) == Err::<(SessionView, InfoView), ErrorView>(error),
        session_info(inputs, outputs, declared) matches Ok(info) && !is_fixed_model(info)
            && captures_graph(options, index, is_ep_context, declared) ==> opened(
            options,
            index,
            is_ep_context,
            declared,
            inputs,
            outputs,
        ) == Err::<(SessionView, InfoView), ErrorView>(ErrorView::Fault(Fault::GraphShapes)),
        session_info(inputs, outputs, declared) matches Ok(info) ==> is_fixed_model(info) && !(
        options.backend.list()[index] is Custom) ==> (opened(
            options,
            index,
            is_ep_context,
            declared,
            inputs,
            outputs,
        ) is Ok <==> are_countable(info.inputs) && are_countable(info.outputs)),
        session_info(inputs, outputs, declared) matches Ok(info) ==> is_fixed_model(info)
            ==> (opened(options, index, is_ep_context, declared, inputs, outputs) matches Err(error)
            ==> error == ErrorView::Fault(Fault::ElementCountOverflow)),
{
    if let Ok(info) = session_info(inputs, outputs, declared) {
        law_only_fixed_models_keep_tensors(info);
        if is_fixed_model(info) {
            lemma_countable(info.inputs);
            lemma_countable(info.outputs);
        }
    }
}

/// Whether the elements of each fixed shape can be counted.
pub open spec fn are_countable(specs: Seq<SpecView>) -> bool {
    forall|i: int, shape: Seq<usize>|
        0 <= i < specs.len() && #[trigger] is_shape_of(shape, specs[i]) ==> product(shape)
            <= usize::MAX
}

/// Whether these are the sizes of a specification's dimensions.
pub open spec fn is_shape_of(shape: Seq<usize>, spec: SpecView) -> bool {
    &&& spec.shape is Some
    &&& shape.len() == (spec.shape->0).len()
    &&& forall|k: int| 0 <= k < shape.len() ==> (spec.shape->0)[k] == Some(#[trigger] shape[k])
}

proof fn lemma_countable(specs: Seq<SpecView>)
    requires
        forall|i: int| 0 <= i < specs.len() ==> is_fixed(#[trigger] specs[i]),
    ensures
        all_countable(specs) <==> are_countable(specs),
{
    assert forall|i: int| 0 <= i < specs.len() implies {
        let shape = #[trigger] fixed_dims(specs[i].shape);
        &&& shape is Some
        &&& is_shape_of(shape->0, specs[i])
        &&& forall|other: Seq<usize>| #[trigger] is_shape_of(other, specs[i]) ==> other == shape->0
    } by {
        assert(is_fixed(specs[i]));
        let dims = specs[i].shape->0;
        assert forall|k: int| 0 <= k < dims.len() implies dims[k] is Some by {
            assert(dims[k] matches Some(n) && n >= 1);
        }
        let shape = fixed_dims(specs[i].shape)->0;
        assert forall|other: Seq<usize>| #[trigger] is_shape_of(other, specs[i]) implies other
            == shape by {
            assert(other =~= shape);
        }
    }
    if are_countable(specs) {
        assert forall|i: int| 0 <= i < specs.len() implies count_fault(
            fixed_dims((#[trigger] specs[i]).shape)->0,
        ) is None by {
            assert(is_shape_of(fixed_dims(specs[i].shape)->0, specs[i]));
        }
    }
    if all_countable(specs) {
        assert forall|i: int, shape: Seq<usize>|
            0 <= i < specs.len() && #[trigger] is_shape_of(shape, specs[i]) implies product(shape)
            <= usize::MAX by {
            assert(shape == fixed_dims(specs[i].shape)->0);
            assert(count_fault(fixed_dims(specs[i].shape)->0) is None);
        }
    }
}

/// Beginning a run and invalidating outputs change nothing but their readiness: they
/// cannot be read, and a beginning run holds those that could be.
pub proof fn law_beginning_hides_the_outputs(session: SessionView)
    ensures
        session.begun().backend_index == session.backend_index,
        session.begun().graph_enabled == session.graph_enabled,
        session.begun().capture_pending == session.capture_pending,
        session.invalidated().backend_index == session.backend_index,
        session.invalidated().graph_enabled == session.graph_enabled,
        session.invalidated().capture_pending == session.capture_pending,
        match session.buffers {
            None => session.begun() == session && session.invalidated() == session,
            Some(buffers) => {
                &&& session.begun().buffers matches Some(begun) && !begun.outputs_valid
                    && begun.outputs_held == buffers.outputs_valid && begun.inputs
                    == buffers.inputs && begun.outputs == buffers.outputs
                &&& session.invalidated().buffers matches Some(hidden) && !hidden.outputs_valid
                    && !hidden.outputs_held && hidden.inputs == buffers.inputs && hidden.outputs
                    == buffers.outputs
            },
        },
{
}

/// A session with kept tensors runs them, alone exactly while a capture is pending;
/// one without runs on the given inputs. Only a completed run ends the wait for the
/// capture.
pub proof fn law_captures_run_alone(session: SessionView, outcome: OutcomeView)
    ensures
        match session.native_run() {
            NativeRun::Dynamic => session.buffers is None,
            NativeRun::Prepared { access, plan } => {
                &&& session.buffers is Some
                &&& access == Access::Exclusive <==> session.capture_pending
                &&& plan.device_id == (session.buffers->0).device_id
                &&& plan.bind_inputs <==> (session.buffers->0).rebind_inputs
                    || !(session.buffers->0).inputs_bound
            },
        },
        session.finished(outcome).capture_pending <==> session.capture_pending && !(outcome
            is Done),
        session.finished(outcome).graph_enabled == session.graph_enabled,
        session.finished(outcome).backend_index == session.backend_index,
        session.finished(outcome).buffers is Some <==> session.buffers is Some,
{
}

// ---------------------------------------------------------------------------
// Views

/// What contracts say of the native values and plans is what their fields hold.
pub proof fn law_native_values_are_seen_as_they_are(
    value: RawOutput,
    outlet: Outlet,
    plan: ProviderPlan,
)
    ensures
        value@.shape == value.shape@,
        value@.data == value.data.contents(),
        outlet@.name == outlet.name@,
        outlet@.element_type == outlet.element_type,
        outlet@.shape == outlet.shape@,
        match plan {
            ProviderPlan::TensorRt { settings, cuda_graph, engine_cache } => plan@
                matches ProviderView::TensorRt {
                settings: s,
                cuda_graph: g,
                engine_cache: c,
            } && s == settings && g == cuda_graph && match engine_cache {
                None => c is None,
                Some(path) => c == Some(path@),
            },
            ProviderPlan::Cuda { settings, cuda_graph, required } => plan@ == (
            ProviderView::Cuda { settings, cuda_graph, required }),
            ProviderPlan::CoreMl => plan@ is CoreMl,
            ProviderPlan::Cpu => plan@ is Cpu,
            ProviderPlan::Custom(id) => plan@ == ProviderView::Custom(id),
        },
{
}

/// Sequences of native values and plans are seen item by item, and results as they are.
pub proof fn law_native_sequences_are_seen_item_by_item(
    outlets: Seq<Outlet>,
    values: Seq<RawOutput>,
    plans: Seq<ProviderPlan>,
    planned: Result<Vec<ProviderPlan>, Error>,
    tensor: Result<Tensor, Error>,
    tensors: Result<Vec<Tensor>, Error>,
    info: Result<ModelInfo, Error>,
    device: Result<Option<i32>, Error>,
    session: Result<(ActiveSession, ModelInfo), Error>,
)
    ensures
        outlet_views(outlets).len() == outlets.len(),
        forall|i: int|
            0 <= i < outlets.len() ==> #[trigger] outlet_views(outlets)[i] == outlets[i]@,
        raw_views(values).len() == values.len(),
        forall|i: int| 0 <= i < values.len() ==> #[trigger] raw_views(values)[i] == values[i]@,
        provider_views(plans).len() == plans.len(),
        forall|i: int| 0 <= i < plans.len() ==> #[trigger] provider_views(plans)[i] == plans[i]@,
        match planned {
            Ok(own) => plans_result(planned) == Ok::<Seq<ProviderView>, ErrorView>(
                provider_views(own@),
            ),
            Err(error) => plans_result(planned) == Err::<Seq<ProviderView>, ErrorView>(error@),
        },
        match tensor {
            Ok(own) => tensor_result(tensor) == Ok::<TensorModel, ErrorView>(own.model()),
            Err(error) => tensor_result(tensor) == Err::<TensorModel, ErrorView>(error@),
        },
        match tensors {
            Ok(own) => tensors_result(tensors) matches Ok(models) && models.len() == own@.len()
                && forall|i: int|
                0 <= i < models.len() ==> #[trigger] models[i] == own@[i].model(),
            Err(error) => tensors_result(tensors) == Err::<Seq<TensorModel>, ErrorView>(error@),
        },
        match info {
            Ok(own) => info_result(info) == Ok::<InfoView, ErrorView>(own@),
            Err(error) => info_result(info) == Err::<InfoView, ErrorView>(error@),
        },
        match device {
            Ok(own) => device_result(device) == Ok::<Option<i32>, ErrorView>(own),
            Err(error) => device_result(device) == Err::<Option<i32>, ErrorView>(error@),
        },
        match session {
            Ok(own) => session_result(session) == Ok::<(SessionView, InfoView), ErrorView>(
                (own.0@, own.1@),
            ),
            Err(error) => session_result(session) == Err::<(SessionView, InfoView), ErrorView>(
                error@,
            ),
        },
{
}

/// Native element types and tensor types stand for each other by their kind and width.
pub proof fn law_element_types_keep_their_kind(element_type: ElementType)
    ensures
        match element_type.tensor_type() {
            Some(dtype) => match dtype {
                DType::F32 => element_type is Float32,
                DType::F64 => element_type is Float64,
                DType::F16 => element_type is Float16,
                DType::BF16 => element_type is Bfloat16,
                DType::I64 => element_type is Int64,
                DType::I32 => element_type is Int32,
                DType::I16 => element_type is Int16,
                DType::I8 => element_type is Int8,
                DType::U64 => element_type is Uint64,
                DType::U32 => element_type is Uint32,
                DType::U16 => element_type is Uint16,
                DType::U8 => element_type is Uint8,
                DType::Bool => element_type is Bool,
            },
            None => forall|dtype| element_type != #[trigger] ElementType::native_type(dtype),
        },
{
}

} // verus!
