//! What holds of model files: their declarations, profiles and exports.
use crate::api::{InfoView, ModelInfo};
use crate::engine::{
    all_fit, declared_spec, declared_specs, event_views, events_result, exported, fits_format,
    graph_result, inspected_graph, inspected_model, inspection, is_engine_file, is_only_engine,
    parsed_model, partition_fault, profile_fault, profiled_nodes, read_model, required_inputs,
    spec_result, supported_type, symbol, type_code, AttributeDecl, AttributeView, ContextModel,
    DimensionDecl, DimensionView, EventView, GraphDecl, GraphView, ModelFormat, ProfileEvent,
    ValueDecl, ValueView,
};
use crate::error::{Error, ErrorView, Fault, NamedFault};
use crate::tensor::{DType, SpecView, TensorSpec};
use crate::text::{decimal, law_decimals_differ};
use crate::wire::nesting;
use vstd::prelude::*;

verus! {

// ---------------------------------------------------------------------------
// Declarations

/// Whether the format numbers this element type so.
pub open spec fn is_numbered(dtype: DType, code: int) -> bool {
    match dtype {
        DType::F32 => code == 1,
        DType::U8 => code == 2,
        DType::I8 => code == 3,
        DType::U16 => code == 4,
        DType::I16 => code == 5,
        DType::I32 => code == 6,
        DType::I64 => code == 7,
        DType::Bool => code == 9,
        DType::F16 => code == 10,
        DType::F64 => code == 11,
        DType::U32 => code == 12,
        DType::U64 => code == 13,
        DType::BF16 => code == 16,
    }
}

/// Element types are read and written under the numbers of the format, and no other
/// number is read.
pub proof fn law_element_types_keep_their_numbers(dtype: DType, code: i32)
    ensures
        supported_type(code) == Some(dtype) <==> is_numbered(dtype, code as int),
        supported_type(code) is None <==> forall|other: DType|
            !#[trigger] is_numbered(other, code as int),
        type_code(dtype) == code <==> is_numbered(dtype, code as int),
{
    if let Some(found) = supported_type(code) {
        assert(is_numbered(found, code as int));
    }
}

/// Whether a dimension is read as it is declared: a number that is a size stays that
/// number, a name takes the size given for it, and anything else is unknown.
pub open spec fn reads_dimension(
    read: Option<usize>,
    declared: DimensionView,
    overrides: Map<Seq<char>, usize>,
) -> bool {
    match (declared, read) {
        (DimensionView::Value(n), Some(size)) => size as int == n as int,
        (DimensionView::Value(n), None) => n < 0 || n > usize::MAX,
        (DimensionView::Param(name), Some(size)) => overrides.contains_key(name) && overrides[name]
            == size,
        (DimensionView::Param(name), None) => !overrides.contains_key(name),
    }
}

/// Whether a specification says what a value is declared to be.
pub open spec fn reads_declaration(
    spec: SpecView,
    value: ValueView,
    overrides: Map<Seq<char>, usize>,
) -> bool {
    &&& spec.name == value.name
    &&& value.elem_type is Some
    &&& is_numbered(spec.dtype, value.elem_type->0 as int)
    &&& match (spec.shape, value.shape) {
        (None, None) => true,
        (Some(dims), Some(declared)) => {
            &&& dims.len() == declared.len()
            &&& forall|k: int|
                0 <= k < declared.len() ==> reads_dimension(
                    #[trigger] dims[k],
                    declared[k],
                    overrides,
                )
        },
        _ => false,
    }
}

/// Whether a value is declared as a tensor of a supported type.
pub open spec fn is_readable(value: ValueView) -> bool {
    value.elem_type matches Some(code) && exists|dtype: DType| #[trigger]
        is_numbered(dtype, code as int)
}

/// Whether this is what an unsupported element type is called.
pub open spec fn names_type(name: Seq<char>, code: int) -> bool {
    &&& code == 8 ==> name == "String"@
    &&& code == 14 ==> name == "Complex64"@
    &&& code == 15 ==> name == "Complex128"@
    &&& code == 17 ==> name == "Float8e4m3fn"@
    &&& code == 18 ==> name == "Float8e4m3fnuz"@
    &&& code == 19 ==> name == "Float8e5m2"@
    &&& code == 20 ==> name == "Float8e5m2fnuz"@
    &&& code == 21 ==> name == "Uint4"@
    &&& code == 22 ==> name == "Int4"@
    &&& code == 23 ==> name == "Float4e2m1"@
    &&& code <= 0 || code > 23 ==> name == "Undefined"@
}

/// A declaration is read dimension by dimension, under its name and with its element
/// type, exactly when it is a tensor of a supported type.
pub proof fn law_declarations_are_read_dimension_by_dimension(
    value: ValueView,
    overrides: Map<Seq<char>, usize>,
)
    ensures
        match declared_spec(value, overrides) {
            Ok(spec) => is_readable(value) && reads_declaration(spec, value, overrides),
            Err(error) => !is_readable(value) && match error {
                ErrorView::Named { fault, name } => {
                    &&& value.elem_type is None
                    &&& fault == NamedFault::NotDense
                    &&& name == value.name
                },
                ErrorView::UnsupportedType { element_type, name } => {
                    &&& value.elem_type is Some
                    &&& name == Some(value.name)
                    &&& names_type(element_type, value.elem_type->0 as int)
                },
                _ => false,
            },
        },
{
    if let Some(code) = value.elem_type {
        law_element_types_keep_their_numbers(DType::F32, code);
        if let Some(dtype) = supported_type(code) {
            assert(is_numbered(dtype, code as int));
        }
    }
}

/// Declarations are read one by one, in their order.
pub proof fn law_declarations_are_read_in_order(
    values: Seq<ValueView>,
    overrides: Map<Seq<char>, usize>,
)
    ensures
        match declared_specs(values, overrides) {
            Ok(specs) => {
                &&& specs.len() == values.len()
                &&& forall|i: int|
                    #![trigger specs[i]]
                    #![trigger values[i]]
                    0 <= i < values.len() ==> reads_declaration(specs[i], values[i], overrides)
            },
            Err(_) => exists|i: int| 0 <= i < values.len() && !is_readable(#[trigger] values[i]),
        },
        declared_specs(values, overrides) is Ok ==> forall|i: int|
            0 <= i < values.len() ==> is_readable(#[trigger] values[i]),
    decreases values.len(),
{
    if values.len() > 0 {
        let front = values.drop_last();
        law_declarations_are_read_in_order(front, overrides);
        law_declarations_are_read_dimension_by_dimension(values.last(), overrides);
        assert(values.last() == values[values.len() - 1]);
        match declared_specs(front, overrides) {
            Err(_) => {
                let i = choose|i: int| 0 <= i < front.len() && !is_readable(#[trigger] front[i]);
                assert(!is_readable(values[i]));
            },
            Ok(before) => {
                assert forall|i: int| 0 <= i < front.len() implies #[trigger] values[i]
                    == front[i] by {}
                if let Ok(specs) = declared_specs(values, overrides) {
                    assert forall|i: int|
                        #![trigger specs[i]]
                        #![trigger values[i]]
                        0 <= i < values.len() implies reads_declaration(
                        specs[i],
                        values[i],
                        overrides,
                    ) by {
                        if i < front.len() {
                            assert(specs[i] == before[i]);
                            assert(reads_declaration(before[i], front[i], overrides));
                        }
                    }
                }
            },
        }
    }
}

/// What is left of the inputs without those that have an initializer, in their order.
pub open spec fn without_initializers(
    values: Seq<ValueView>,
    initializers: Seq<Option<Seq<char>>>,
) -> Seq<ValueView> {
    values.filter(|value: ValueView| !initializers.contains(Some(value.name)))
}

/// Required inputs are the declared ones without an initializer, in the declared order.
pub proof fn law_required_inputs_keep_their_order(
    values: Seq<ValueView>,
    initializers: Seq<Option<Seq<char>>>,
)
    ensures
        required_inputs(values, initializers) == without_initializers(values, initializers),
    decreases values.len(),
{
    reveal(Seq::filter);
    if values.len() > 0 {
        law_required_inputs_keep_their_order(values.drop_last(), initializers);
        let name = values.last().name;
        if initializers.contains(Some(name)) {
            let i = choose|i: int| 0 <= i < initializers.len() && initializers[i] == Some(name);
            assert(initializers[i] == Some(name));
        }
    }
}

/// Inspection tells what a graph declares: the inputs without an initializer and the
/// outputs, each in the declared order and dimension by dimension. It is a provider's
/// compiled state exactly when some node is Microsoft's `EPContext` operator. Only
/// values that are no tensors of a supported type are refused.
pub proof fn law_graphs_are_read_as_declared(
    graph: GraphView,
    overrides: Map<Seq<char>, usize>,
)
    ensures
        match inspected_graph(graph, overrides) {
            Ok((format, info)) => {
                let inputs = without_initializers(graph.inputs, graph.initializers);
                &&& info.inputs.len() == inputs.len()
                &&& forall|i: int|
                    0 <= i < inputs.len() ==> reads_declaration(
                        #[trigger] info.inputs[i],
                        inputs[i],
                        overrides,
                    )
                &&& info.outputs.len() == graph.outputs.len()
                &&& forall|i: int|
                    0 <= i < graph.outputs.len() ==> reads_declaration(
                        #[trigger] info.outputs[i],
                        graph.outputs[i],
                        overrides,
                    )
                &&& format is EpContext <==> exists|i: int|
                    0 <= i < graph.operators.len() && (#[trigger] graph.operators[i]).0
                        == "com.microsoft"@ && graph.operators[i].1 == "EPContext"@
            },
            Err(_) => {
                ||| exists|i: int|
                    0 <= i < graph.outputs.len() && !is_readable(#[trigger] graph.outputs[i])
                ||| exists|i: int|
                    0 <= i < without_initializers(graph.inputs, graph.initializers).len()
                        && !is_readable(
                        #[trigger] without_initializers(graph.inputs, graph.initializers)[i],
                    )
            },
        },
{
    let inputs = without_initializers(graph.inputs, graph.initializers);
    law_required_inputs_keep_their_order(graph.inputs, graph.initializers);
    law_declarations_are_read_in_order(inputs, overrides);
    law_declarations_are_read_in_order(graph.outputs, overrides);
    if let Ok((format, info)) = inspected_graph(graph, overrides) {
        if exists|i: int|
            0 <= i < graph.operators.len() && (#[trigger] graph.operators[i]).0
                == "com.microsoft"@ && graph.operators[i].1 == "EPContext"@ {
            let i = choose|i: int|
                0 <= i < graph.operators.len() && (#[trigger] graph.operators[i]).0
                    == "com.microsoft"@ && graph.operators[i].1 == "EPContext"@;
            assert(graph.operators[i] == ("com.microsoft"@, "EPContext"@));
        }
    }
}

/// A model file that cannot be parsed is refused with its path and the parser's words,
/// one without a graph is refused, and any other is its graph.
pub proof fn law_models_are_read_as_parsed(
    model: Result<Option<GraphView>, Seq<char>>,
    path: Seq<char>,
    overrides: Map<Seq<char>, usize>,
)
    ensures
        match model {
            Err(text) => inspected_model(model, path, overrides) matches Err(error)
                && error.report() == "Parse ONNX model "@ + path + ": "@ + text,
            Ok(None) => inspected_model(model, path, overrides) == Err::<
                (ModelFormat, InfoView),
                ErrorView,
            >(ErrorView::Fault(Fault::MissingGraph)),
            Ok(Some(graph)) => inspected_model(model, path, overrides) == inspected_graph(
                graph,
                overrides,
            ),
        },
{
    if let Err(text) = model {
        let cause = ErrorView::External(text);
        assert(cause.report() == text);
        assert((inspected_model(model, path, overrides)->Err_0).report() == "Parse ONNX model "@
            + path + ": "@ + cause.report());
    }
}

/// A file is read as it parses unless its messages are nested too deeply to be parsed.
pub proof fn law_files_are_read_unless_nested_too_deeply(bytes: Seq<u8>)
    ensures
        nesting(bytes) <= 100 ==> read_model(bytes) == parsed_model(bytes, usize::MAX),
        nesting(bytes) > 100 ==> read_model(bytes) is Err,
{
}

// ---------------------------------------------------------------------------
// Profiles

/// Whether an event is the run of a node by TensorRT under this name.
pub open spec fn ran_on_tensorrt(event: EventView, name: Seq<char>) -> bool {
    &&& event.provider == Some("TensorrtExecutionProvider"@)
    &&& event.name == Some(name)
}

/// Whether an event is the run of a node that no engine of TensorRT explains, and
/// `error` says why: another provider ran it, or it has no name.
pub open spec fn spoils_profile(event: EventView, error: ErrorView) -> bool {
    &&& event.category == Some("Node"@)
    &&& event.provider is Some
    &&& if event.provider != Some("TensorrtExecutionProvider"@) {
        error == ErrorView::Fault(Fault::ProfileProvider)
    } else {
        event.name is None && error == ErrorView::Fault(Fault::ProfileNodeName)
    }
}

proof fn lemma_profiled_nodes(events: Seq<EventView>)
    ensures
        match profiled_nodes(events) {
            Ok(names) => {
                &&& forall|i: int|
                    0 <= i < events.len() && (#[trigger] events[i]).category == Some("Node"@)
                        && events[i].provider is Some ==> events[i].name is Some
                        && ran_on_tensorrt(events[i], events[i].name->0) && names.contains(
                        events[i].name->0,
                    )
                &&& forall|name: Seq<char>| #[trigger]
                    names.contains(name) ==> exists|i: int|
                        0 <= i < events.len() && (#[trigger] events[i]).category == Some("Node"@)
                            && ran_on_tensorrt(events[i], name)
            },
            Err(error) => exists|i: int|
                0 <= i < events.len() && #[trigger] spoils_profile(events[i], error),
        },
    decreases events.len(),
{
    if events.len() > 0 {
        let front = events.drop_last();
        lemma_profiled_nodes(front);
        assert(events[events.len() - 1] == events.last());
        assert forall|i: int| 0 <= i < front.len() implies #[trigger] events[i] == front[i] by {}
        match profiled_nodes(front) {
            Err(error) => {
                let i = choose|i: int|
                    0 <= i < front.len() && #[trigger] spoils_profile(front[i], error);
                assert(spoils_profile(events[i], error));
            },
            Ok(before) => {
                if let Err(error) = profiled_nodes(events) {
                    assert(spoils_profile(events[events.len() - 1], error));
                }
                if let Ok(names) = profiled_nodes(events) {
                    assert forall|name: Seq<char>| #[trigger] names.contains(name) implies exists|
                        i: int,
                    |
                        0 <= i < events.len() && (#[trigger] events[i]).category == Some("Node"@)
                            && ran_on_tensorrt(events[i], name) by {
                        if before.contains(name) {
                            let i = choose|i: int|
                                0 <= i < front.len() && (#[trigger] front[i]).category == Some(
                                    "Node"@,
                                ) && ran_on_tensorrt(front[i], name);
                            assert(events[i] == front[i]);
                        } else {
                            assert(ran_on_tensorrt(events[events.len() - 1], name));
                        }
                    }
                }
            },
        }
    }
}

/// Whether some node ran, and every node that ran on a provider ran on TensorRT under
/// this name.
pub open spec fn ran_as_one(events: Seq<EventView>, name: Seq<char>) -> bool {
    &&& exists|i: int|
        0 <= i < events.len() && (#[trigger] events[i]).category == Some("Node"@)
            && ran_on_tensorrt(events[i], name)
    &&& forall|i: int|
        0 <= i < events.len() && (#[trigger] events[i]).category == Some("Node"@)
            && events[i].provider is Some ==> ran_on_tensorrt(events[i], name)
}

/// A profile shows one compiled engine exactly when some node ran, and every node that
/// ran on a provider ran on TensorRT under one and the same name.
pub proof fn law_one_engine_runs_every_node(events: Seq<EventView>)
    ensures
        partition_fault(events) is None <==> exists|name: Seq<char>| #[trigger]
            ran_as_one(events, name),
        partition_fault(events) matches Some(error) ==> error == ErrorView::Fault(
            Fault::PartitionCount,
        ) || exists|i: int| 0 <= i < events.len() && #[trigger] spoils_profile(events[i], error),
        (exists|i: int, error: ErrorView|
            0 <= i < events.len() && #[trigger] spoils_profile(events[i], error))
            ==> partition_fault(events) != Some(ErrorView::Fault(Fault::PartitionCount)),
        profile_fault(Ok(events)) == partition_fault(events),
        forall|text: Seq<char>|
            (#[trigger] profile_fault(Err::<Seq<EventView>, Seq<char>>(text))) matches Some(error)
                && error.report() == text,
{
    lemma_profiled_nodes(events);
    assert forall|text: Seq<char>|
        (#[trigger] profile_fault(Err::<Seq<EventView>, Seq<char>>(text))) matches Some(error)
            && error.report() == text by {
        assert(ErrorView::External(text).report() == text);
    }
    if exists|i: int, error: ErrorView|
        0 <= i < events.len() && #[trigger] spoils_profile(events[i], error) {
        let (i, error) = choose|i: int, error: ErrorView|
            0 <= i < events.len() && #[trigger] spoils_profile(events[i], error);
        assert(events[i].category == Some("Node"@));
        assert(profiled_nodes(events) is Err);
        let fault = profiled_nodes(events)->Err_0;
        let k = choose|k: int|
            0 <= k < events.len() && #[trigger] spoils_profile(events[k], fault);
        assert(fault != ErrorView::Fault(Fault::PartitionCount));
    }
    if let Ok(names) = profiled_nodes(events) {
        if partition_fault(events) is None {
            let name = choose|name: Seq<char>| #[trigger]
                names.contains(name) && names == Set::<Seq<char>>::empty().insert(name);
            assert forall|i: int|
                0 <= i < events.len() && (#[trigger] events[i]).category == Some("Node"@)
                    && events[i].provider is Some implies ran_on_tensorrt(events[i], name) by {
                assert(names.contains(events[i].name->0));
            }
            assert(ran_as_one(events, name));
        }
        if exists|name: Seq<char>| #[trigger] ran_as_one(events, name) {
            let name = choose|name: Seq<char>| #[trigger] ran_as_one(events, name);
            assert forall|other: Seq<char>| #[trigger] names.contains(other) implies other
                == name by {
                let i = choose|i: int|
                    0 <= i < events.len() && (#[trigger] events[i]).category == Some("Node"@)
                        && ran_on_tensorrt(events[i], other);
                assert(ran_on_tensorrt(events[i], name));
            }
            let i = choose|i: int|
                0 <= i < events.len() && (#[trigger] events[i]).category == Some("Node"@)
                    && ran_on_tensorrt(events[i], name);
            assert(names.contains(events[i].name->0));
            assert(names.contains(name));
            assert(names =~= Set::<Seq<char>>::empty().insert(name));
        }
    }
}

// ---------------------------------------------------------------------------
// Engines and exports

/// Engine files are those whose name is something followed by `.engine`, and a
/// directory's engine is the only one of them.
pub proof fn law_engines_are_found_by_their_ending(name: Seq<char>, entries: Seq<String>, i: int)
    ensures
        is_engine_file(name) <==> exists|stem: Seq<char>|
            stem.len() > 0 && name == #[trigger] (stem + ".engine"@),
        is_only_engine(entries, i) ==> 0 <= i < entries.len() && is_engine_file(entries[i]@)
            && forall|j: int| is_only_engine(entries, j) ==> j == i,
        is_only_engine(entries, i) ==> forall|j: int|
            0 <= j < entries.len() && is_engine_file((#[trigger] entries[j])@) ==> j == i,
        0 <= i < entries.len() && is_engine_file(entries[i]@) && (forall|j: int|
            0 <= j < entries.len() && is_engine_file((#[trigger] entries[j])@) ==> j == i)
            ==> is_only_engine(entries, i),
{
    let ending = ".engine"@;
    if is_engine_file(name) {
        let stem = name.subrange(0, name.len() - ending.len());
        assert(name =~= stem + ending);
        assert(stem.len() > 0);
    }
    if exists|stem: Seq<char>| stem.len() > 0 && name == #[trigger] (stem + ending) {
        let stem = choose|stem: Seq<char>| stem.len() > 0 && name == #[trigger] (stem + ending);
        assert(name.subrange(name.len() - ending.len(), name.len() as int) =~= ending);
    }
}

/// Whether a dimension is declared as it is: a known size by its number, an unknown one
/// by the value's name and the dimension's place.
pub open spec fn declares_dimension(
    declared: DimensionView,
    size: Option<usize>,
    value: Seq<char>,
    k: int,
) -> bool {
    match (declared, size) {
        (DimensionView::Value(n), Some(size)) => n as int == size as int,
        (DimensionView::Param(name), None) => name == value + "_d"@ + decimal(k as nat),
        _ => false,
    }
}

/// Whether a value is declared as a specification says.
pub open spec fn declares(value: ValueView, spec: SpecView) -> bool {
    &&& value.name == spec.name
    &&& value.elem_type is Some
    &&& is_numbered(spec.dtype, value.elem_type->0 as int)
    &&& match (value.shape, spec.shape) {
        (None, None) => true,
        (Some(declared), Some(dims)) => {
            &&& declared.len() == dims.len()
            &&& forall|k: int|
                0 <= k < dims.len() ==> declares_dimension(
                    #[trigger] declared[k],
                    dims[k],
                    spec.name,
                    k,
                )
        },
        _ => false,
    }
}

/// An exported model holds the engine byte for byte as the embedded context of one
/// `EPContext` node of TensorRT, and declares the inputs and outputs of the model in
/// their order.
pub proof fn law_exports_hold_the_engine(info: InfoView, engine: Seq<u8>)
    requires
        all_fit(info.inputs),
        all_fit(info.outputs),
    ensures
        ({
            let model = exported(info, engine);
            &&& model.attributes.contains(
                AttributeView::Bytes { name: "ep_cache_context"@, value: engine },
            )
            &&& model.attributes.contains(AttributeView::Int { name: "embed_mode"@, value: 1 })
            &&& forall|i: int|
                0 <= i < model.attributes.len() ==> (#[trigger] model.attributes[i]
                    matches AttributeView::Bytes { name, value } ==> {
                    ||| name == "ep_cache_context"@ && value == engine
                    ||| {
                        &&& name == "source"@
                        &&& value.len() == "TensorrtExecutionProvider"@.len()
                        &&& forall|k: int|
                            0 <= k < value.len() ==> (#[trigger] value[k]) as int
                                == "TensorrtExecutionProvider"@[k] as int
                    }
                })
            &&& model.attributes.len() == 3
            &&& model.domain == "com.microsoft"@
            &&& model.operator == "EPContext"@
            &&& model.graph().operators.len() == 1
            &&& model.graph().operators[0] == (model.domain, model.operator)
            &&& model.graph().initializers.len() == 0
            &&& model.graph().inputs == model.inputs
            &&& model.graph().outputs == model.outputs
            &&& model.inputs.len() == info.inputs.len()
            &&& model.outputs.len() == info.outputs.len()
            &&& forall|i: int|
                0 <= i < info.inputs.len() ==> declares(#[trigger] model.inputs[i], info.inputs[i])
            &&& forall|i: int|
                0 <= i < info.outputs.len() ==> declares(
                    #[trigger] model.outputs[i],
                    info.outputs[i],
                )
            &&& model.opset_import.contains((""@, 17i64))
            &&& model.opset_import.contains((model.domain, 1i64))
            &&& model.opset_import.len() == 2
            &&& model.ir_version == 8
            &&& model.producer_name == "native-onnx"@
        }),
{
    let model = exported(info, engine);
    reveal_strlit("TensorrtExecutionProvider");
    assert(model.attributes[0] == (AttributeView::Int { name: "embed_mode"@, value: 1 }));
    assert(model.attributes[1] == (AttributeView::Bytes {
        name: "ep_cache_context"@,
        value: engine,
    }));
    assert(model.opset_import[0] == (""@, 17i64));
    assert(model.opset_import[1] == (model.domain, 1i64));
    assert forall|i: int| 0 <= i < info.inputs.len() implies declares(
        #[trigger] model.inputs[i],
        info.inputs[i],
    ) by {
        assert(fits_format(info.inputs[i]));
    }
    assert forall|i: int| 0 <= i < info.outputs.len() implies declares(
        #[trigger] model.outputs[i],
        info.outputs[i],
    ) by {
        assert(fits_format(info.outputs[i]));
    }
}

/// Different unknown dimensions of one value are exported under different names.
pub proof fn law_exported_symbols_differ(name: Seq<char>, i: int, j: int)
    requires
        0 <= i,
        0 <= j,
        symbol(name, i) == symbol(name, j),
    ensures
        i == j,
{
    let prefix = name + "_d"@;
    let a = decimal(i as nat);
    let b = decimal(j as nat);
    assert((prefix + a).skip(prefix.len() as int) =~= a);
    assert((prefix + b).skip(prefix.len() as int) =~= b);
    law_decimals_differ(i as nat, j as nat);
}

// ---------------------------------------------------------------------------
// Views

/// What contracts say of declarations, profiles and exports is what their fields hold.
pub proof fn law_declarations_are_seen_as_they_are(
    dimension: DimensionDecl,
    value: ValueDecl,
    graph: GraphDecl,
    event: ProfileEvent,
    attribute: AttributeDecl,
    model: ContextModel,
)
    ensures
        match dimension {
            DimensionDecl::Value(n) => dimension@ == DimensionView::Value(n),
            DimensionDecl::Param(name) => dimension@ == DimensionView::Param(name@),
        },
        value@.name == value.name@,
        value@.elem_type == value.elem_type,
        match value.shape {
            None => value@.shape is None,
            Some(dims) => value@.shape matches Some(views) && views.len() == dims@.len()
                && forall|k: int| 0 <= k < dims@.len() ==> #[trigger] views[k] == dims@[k]@,
        },
        graph@.operators.len() == graph.operators@.len(),
        forall|i: int|
            0 <= i < graph.operators@.len() ==> (#[trigger] graph@.operators[i]).0
                == graph.operators@[i].0@ && graph@.operators[i].1 == graph.operators@[i].1@,
        graph@.initializers.len() == graph.initializers@.len(),
        forall|i: int|
            0 <= i < graph.initializers@.len() ==> match graph.initializers@[i] {
                None => (#[trigger] graph@.initializers[i]) is None,
                Some(name) => graph@.initializers[i] == Some(name@),
            },
        graph@.inputs.len() == graph.inputs@.len(),
        forall|i: int|
            0 <= i < graph.inputs@.len() ==> #[trigger] graph@.inputs[i] == graph.inputs@[i]@,
        graph@.outputs.len() == graph.outputs@.len(),
        forall|i: int|
            0 <= i < graph.outputs@.len() ==> #[trigger] graph@.outputs[i] == graph.outputs@[i]@,
        event.category is None <==> event@.category is None,
        event.category matches Some(text) ==> event@.category == Some(text@),
        event.provider is None <==> event@.provider is None,
        event.provider matches Some(text) ==> event@.provider == Some(text@),
        event.name is None <==> event@.name is None,
        event.name matches Some(text) ==> event@.name == Some(text@),
        match attribute {
            AttributeDecl::Int { name, value } => attribute@ == (AttributeView::Int {
                name: name@,
                value,
            }),
            AttributeDecl::Bytes { name, value } => attribute@ == (AttributeView::Bytes {
                name: name@,
                value: value@,
            }),
        },
        model@.ir_version == model.ir_version,
        model@.producer_name == model.producer_name@,
        model@.name == model.name@,
        model@.domain == model.domain@,
        model@.operator == model.operator@,
        model@.attributes.len() == model.attributes@.len(),
        forall|i: int|
            0 <= i < model.attributes@.len() ==> #[trigger] model@.attributes[i]
                == model.attributes@[i]@,
        model@.inputs.len() == model.inputs@.len(),
        forall|i: int|
            0 <= i < model.inputs@.len() ==> #[trigger] model@.inputs[i] == model.inputs@[i]@,
        model@.outputs.len() == model.outputs@.len(),
        forall|i: int|
            0 <= i < model.outputs@.len() ==> #[trigger] model@.outputs[i] == model.outputs@[i]@,
{
}

/// Results of reading are seen as they are.
pub proof fn law_readings_are_seen_as_they_are(
    spec: Result<TensorSpec, Error>,
    found: Result<(ModelFormat, ModelInfo), Error>,
    graph: Result<Option<GraphDecl>, String>,
    profile: Result<Vec<ProfileEvent>, String>,
    events: Seq<ProfileEvent>,
)
    ensures
        match spec {
            Ok(own) => spec_result(spec) == Ok::<SpecView, ErrorView>(own@),
            Err(error) => spec_result(spec) == Err::<SpecView, ErrorView>(error@),
        },
        match found {
            Ok(own) => inspection(found) == Ok::<(ModelFormat, InfoView), ErrorView>(
                (own.0, own.1@),
            ),
            Err(error) => inspection(found) == Err::<(ModelFormat, InfoView), ErrorView>(error@),
        },
        match graph {
            Ok(None) => graph_result(graph) == Ok::<Option<GraphView>, Seq<char>>(None),
            Ok(Some(own)) => graph_result(graph) == Ok::<Option<GraphView>, Seq<char>>(Some(own@)),
            Err(text) => graph_result(graph) == Err::<Option<GraphView>, Seq<char>>(text@),
        },
        match profile {
            Ok(own) => events_result(profile) == Ok::<Seq<EventView>, Seq<char>>(
                event_views(own@),
            ),
            Err(text) => events_result(profile) == Err::<Seq<EventView>, Seq<char>>(text@),
        },
        event_views(events).len() == events.len(),
        forall|i: int| 0 <= i < events.len() ==> #[trigger] event_views(events)[i] == events[i]@,
{
}

} // verus!
