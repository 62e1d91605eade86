//! What holds of tensors: counts, elements, copies, and how errors read.
use crate::api::InfoView;
use crate::buffers::{zero_slot, BuffersView};
use crate::diagnostics::{explained, install_advice, provider_context};
use crate::error::{
    declared_dims_text, declared_shape_text, dims_text, failure, optional_items, Error, ErrorView,
    Fault, NamedFault,
};
use crate::laws::distinct_names;
use crate::options::Backend;
use crate::session_laws::{is_fixed, is_fixed_model};
use crate::tensor::{
    copied_targets, copy_fault, count_fault, fixed_dims, product, repeated, same_layout,
    target_fault, targets_fault, targets_fault_from, tensor_names, BFloat16, DType, Elements,
    Float16, Float32, Float64, SpecView, Tensor, TensorBuffer, TensorData, TensorDataMut,
    TensorModel, TensorSpec, TensorView, TensorViewMut,
};
use crate::text::{decimal, first_index, lemma_first_index, lowercase, occurs};
use vstd::prelude::*;
use vstd::std_specs::cmp::PartialEqSpec;

verus! {

// ---------------------------------------------------------------------------
// Counts

/// The elements of a shape are those of its parts, multiplied: a dimension counts as its
/// size, and dimensions behind others multiply with them.
pub proof fn law_element_counts_multiply(shape: Seq<usize>, more: Seq<usize>, n: usize)
    ensures
        product(seq![n]) == n,
        product(shape.push(n)) == product(shape) * n,
        product(shape + more) == product(shape) * product(more),
        count_fault(shape) is None <==> product(shape) <= usize::MAX,
    decreases more.len(),
{
    assert(seq![n].drop_last() =~= Seq::<usize>::empty());
    assert(product(Seq::<usize>::empty()) == 1);
    assert(shape.push(n).drop_last() =~= shape);
    if more.len() == 0 {
        assert(shape + more =~= shape);
        assert(product(more) == 1);
        assert(product(shape) * 1 == product(shape)) by (nonlinear_arith);
    } else {
        let front = more.drop_last();
        law_element_counts_multiply(shape, front, n);
        assert((shape + more).drop_last() =~= shape + front);
        assert((shape + more).last() == more.last());
        let a = product(shape);
        let b = product(front);
        let c = more.last() as nat;
        assert(product(more) == b * c);
        assert(product(shape + more) == (a * b) * c);
        assert((a * b) * c == a * (b * c)) by (nonlinear_arith);
    }
}

/// A shape is fixed exactly when its rank and every dimension are known, and is then
/// the sizes of its dimensions.
pub proof fn law_fixed_shapes_are_their_dimensions(shape: Option<Seq<Option<usize>>>)
    ensures
        match fixed_dims(shape) {
            Some(fixed) => {
                &&& shape matches Some(dims) && dims.len() == fixed.len() && forall|k: int|
                    0 <= k < fixed.len() ==> #[trigger] dims[k] == Some(fixed[k])
            },
            None => shape matches Some(dims) ==> exists|k: int|
                0 <= k < dims.len() && (#[trigger] dims[k]) is None,
        },
{
    if fixed_dims(shape) is None && shape is Some {
        let dims = shape->0;
        let k = choose|k: int| 0 <= k < dims.len() && !(dims[k] is Some);
        assert(dims[k] is None);
    }
}

// ---------------------------------------------------------------------------
// Elements

/// Elements have the type and number of what holds them.
pub proof fn law_elements_are_typed(data: Elements)
    ensures
        match data {
            Elements::F32(x) => data.dtype() is F32 && data.len() == x.len(),
            Elements::F64(x) => data.dtype() is F64 && data.len() == x.len(),
            Elements::F16(x) => data.dtype() is F16 && data.len() == x.len(),
            Elements::BF16(x) => data.dtype() is BF16 && data.len() == x.len(),
            Elements::I64(x) => data.dtype() is I64 && data.len() == x.len(),
            Elements::I32(x) => data.dtype() is I32 && data.len() == x.len(),
            Elements::I16(x) => data.dtype() is I16 && data.len() == x.len(),
            Elements::I8(x) => data.dtype() is I8 && data.len() == x.len(),
            Elements::U64(x) => data.dtype() is U64 && data.len() == x.len(),
            Elements::U32(x) => data.dtype() is U32 && data.len() == x.len(),
            Elements::U16(x) => data.dtype() is U16 && data.len() == x.len(),
            Elements::U8(x) => data.dtype() is U8 && data.len() == x.len(),
            Elements::Bool(x) => data.dtype() is Bool && data.len() == x.len(),
        },
{
}

/// Fresh elements are of the wanted type and number, and all zero.
pub proof fn law_fresh_elements_are_zero(dtype: DType, n: nat)
    ensures
        Elements::zeros(dtype, n).dtype() == dtype,
        Elements::zeros(dtype, n).len() == n,
        match Elements::zeros(dtype, n) {
            Elements::F32(x) => forall|i: int| 0 <= i < n ==> (#[trigger] x[i]).bits == 0,
            Elements::F64(x) => forall|i: int| 0 <= i < n ==> (#[trigger] x[i]).bits == 0,
            Elements::F16(x) => forall|i: int| 0 <= i < n ==> (#[trigger] x[i]).bits == 0,
            Elements::BF16(x) => forall|i: int| 0 <= i < n ==> (#[trigger] x[i]).bits == 0,
            Elements::I64(x) => forall|i: int| 0 <= i < n ==> #[trigger] x[i] == 0,
            Elements::I32(x) => forall|i: int| 0 <= i < n ==> #[trigger] x[i] == 0,
            Elements::I16(x) => forall|i: int| 0 <= i < n ==> #[trigger] x[i] == 0,
            Elements::I8(x) => forall|i: int| 0 <= i < n ==> #[trigger] x[i] == 0,
            Elements::U64(x) => forall|i: int| 0 <= i < n ==> #[trigger] x[i] == 0,
            Elements::U32(x) => forall|i: int| 0 <= i < n ==> #[trigger] x[i] == 0,
            Elements::U16(x) => forall|i: int| 0 <= i < n ==> #[trigger] x[i] == 0,
            Elements::U8(x) => forall|i: int| 0 <= i < n ==> #[trigger] x[i] == 0,
            Elements::Bool(x) => forall|i: int| 0 <= i < n ==> !#[trigger] x[i],
        },
{
}

/// Kept tensors start with the names, shapes and types of the model, in its order, and
/// with one zero for each place.
pub proof fn law_kept_tensors_start_as_declared(
    info: InfoView,
    device_id: Option<i32>,
    rebind_inputs: bool,
)
    requires
        is_fixed_model(info),
    ensures
        ({
            let buffers = BuffersView::fresh(info, device_id, rebind_inputs);
            &&& buffers.inputs.len() == info.inputs.len()
            &&& buffers.outputs.len() == info.outputs.len()
            &&& forall|i: int|
                0 <= i < info.inputs.len() ==> starts_as(
                    #[trigger] buffers.inputs[i],
                    info.inputs[i],
                )
            &&& forall|i: int|
                0 <= i < info.outputs.len() ==> starts_as(
                    #[trigger] buffers.outputs[i],
                    info.outputs[i],
                )
            &&& buffers.device_id == device_id
            &&& buffers.rebind_inputs == rebind_inputs
            &&& !buffers.inputs_bound && !buffers.outputs_valid && !buffers.outputs_held
        }),
{
    let buffers = BuffersView::fresh(info, device_id, rebind_inputs);
    assert forall|i: int| 0 <= i < info.inputs.len() implies starts_as(
        #[trigger] buffers.inputs[i],
        info.inputs[i],
    ) by {
        lemma_starts_as(info.inputs[i]);
    }
    assert forall|i: int| 0 <= i < info.outputs.len() implies starts_as(
        #[trigger] buffers.outputs[i],
        info.outputs[i],
    ) by {
        lemma_starts_as(info.outputs[i]);
    }
}

/// Whether a tensor is that of a specification, with its fixed dimensions and zeros.
pub open spec fn starts_as(tensor: TensorModel, spec: SpecView) -> bool {
    &&& tensor.name == spec.name
    &&& spec.shape is Some
    &&& tensor.shape.len() == (spec.shape->0).len()
    &&& forall|k: int|
        0 <= k < tensor.shape.len() ==> (spec.shape->0)[k] == Some(#[trigger] tensor.shape[k])
    &&& tensor.data.dtype() == spec.dtype
    &&& tensor.data == Elements::zeros(spec.dtype, product(tensor.shape))
}

proof fn lemma_starts_as(spec: SpecView)
    requires
        is_fixed(spec),
    ensures
        starts_as(zero_slot(spec), spec),
{
    let dims = spec.shape->0;
    assert forall|k: int| 0 <= k < dims.len() implies dims[k] is Some by {
        assert(dims[k] matches Some(n) && n >= 1);
    }
    law_fixed_shapes_are_their_dimensions(spec.shape);
}

// ---------------------------------------------------------------------------
// Numbers

/// Single-precision numbers are equal when their bits are or both are zero; what is not
/// a number, an exponent of ones with a fraction, equals nothing.
pub proof fn law_single_precision_equality(a: Float32, b: Float32)
    ensures
        ({
            let size_a = a.bits as int % 0x8000_0000;
            let size_b = b.bits as int % 0x8000_0000;
            &&& size_a > 0x7f80_0000 || size_b > 0x7f80_0000 ==> !a.same_number(b)
            &&& size_a <= 0x7f80_0000 ==> a.same_number(a)
            &&& size_a == 0 && size_b == 0 ==> a.same_number(b)
            &&& size_a != 0 && a.bits != b.bits ==> !a.same_number(b)
            &&& a.same_number(b) == b.same_number(a)
            &&& a.eq_spec(&b) == a.same_number(b)
        }),
{
}

/// Double-precision numbers are equal when their bits are or both are zero; what is not
/// a number equals nothing.
pub proof fn law_double_precision_equality(a: Float64, b: Float64)
    ensures
        ({
            let size_a = a.bits as int % 0x8000_0000_0000_0000;
            let size_b = b.bits as int % 0x8000_0000_0000_0000;
            &&& size_a > 0x7ff0_0000_0000_0000 || size_b > 0x7ff0_0000_0000_0000
                ==> !a.same_number(b)
            &&& size_a <= 0x7ff0_0000_0000_0000 ==> a.same_number(a)
            &&& size_a == 0 && size_b == 0 ==> a.same_number(b)
            &&& size_a != 0 && a.bits != b.bits ==> !a.same_number(b)
            &&& a.same_number(b) == b.same_number(a)
            &&& a.eq_spec(&b) == a.same_number(b)
        }),
{
}

/// Half-precision numbers are equal when their bits are or both are zero; what is not a
/// number equals nothing.
pub proof fn law_half_precision_equality(a: Float16, b: Float16)
    ensures
        ({
            let size_a = a.bits as int % 0x8000;
            let size_b = b.bits as int % 0x8000;
            &&& size_a > 0x7c00 || size_b > 0x7c00 ==> !a.same_number(b)
            &&& size_a <= 0x7c00 ==> a.same_number(a)
            &&& size_a == 0 && size_b == 0 ==> a.same_number(b)
            &&& size_a != 0 && a.bits != b.bits ==> !a.same_number(b)
            &&& a.same_number(b) == b.same_number(a)
            &&& a.eq_spec(&b) == a.same_number(b)
        }),
{
}

/// Brain floating-point numbers are equal when their bits are or both are zero; what is
/// not a number equals nothing.
pub proof fn law_brain_float_equality(a: BFloat16, b: BFloat16)
    ensures
        ({
            let size_a = a.bits as int % 0x8000;
            let size_b = b.bits as int % 0x8000;
            &&& size_a > 0x7f80 || size_b > 0x7f80 ==> !a.same_number(b)
            &&& size_a <= 0x7f80 ==> a.same_number(a)
            &&& size_a == 0 && size_b == 0 ==> a.same_number(b)
            &&& size_a != 0 && a.bits != b.bits ==> !a.same_number(b)
            &&& a.same_number(b) == b.same_number(a)
            &&& a.eq_spec(&b) == a.same_number(b)
        }),
{
}

// ---------------------------------------------------------------------------
// Copies

/// Whether a buffer has the name and the layout of a tensor.
pub open spec fn is_buffer_for(target: TensorModel, source: TensorModel) -> bool {
    &&& target.name == source.name
    &&& target.shape == source.shape
    &&& target.data.dtype() == source.data.dtype()
    &&& target.data.len() == source.data.len()
}

/// Elements are copied exactly where type and number agree.
pub proof fn law_elements_are_copied_alike(target: Elements, source: Elements)
    ensures
        copy_fault(target, source) is None <==> target.dtype() == source.dtype() && target.len()
            == source.len(),
        target.len() != source.len() ==> copy_fault(target, source) == Some(
            ErrorView::Fault(Fault::OutputBufferLength),
        ),
        target.len() == source.len() && target.dtype() != source.dtype() ==> copy_fault(
            target,
            source,
        ) == Some(ErrorView::Fault(Fault::OutputBufferType)),
{
}

proof fn lemma_no_target_faults(source: Seq<TensorModel>, targets: Seq<TensorModel>, from: int)
    requires
        0 <= from,
    ensures
        targets_fault_from(source, targets, from) is None <==> forall|i: int|
            from <= i < targets.len() ==> #[trigger] target_fault(source, targets, i) is None,
    decreases targets.len() - from,
{
    if from < targets.len() {
        lemma_no_target_faults(source, targets, from + 1);
        if targets_fault_from(source, targets, from) is None {
            assert forall|i: int| from <= i < targets.len() implies #[trigger] target_fault(
                source,
                targets,
                i,
            ) is None by {
                if i > from {
                    assert(targets_fault_from(source, targets, from + 1) is None);
                }
            }
        }
    }
}

/// Tensors are copied to buffers exactly when there is one buffer for each, no name
/// occurs twice, and each buffer has the layout of the tensor of its name. Each buffer
/// then holds the elements of that tensor, under its own name and shape; otherwise none
/// is touched.
pub proof fn law_buffers_receive_their_tensors(
    source: Seq<TensorModel>,
    targets: Seq<TensorModel>,
)
    requires
        distinct_names(source),
    ensures
        targets_fault(source, targets) is None <==> {
            &&& source.len() == targets.len()
            &&& distinct_names(targets)
            &&& forall|i: int|
                0 <= i < targets.len() ==> exists|s: int|
                    0 <= s < source.len() && is_buffer_for(
                        #[trigger] targets[i],
                        #[trigger] source[s],
                    )
        },
        copied_targets(source, targets).len() == targets.len(),
        targets_fault(source, targets) is Some ==> copied_targets(source, targets) == targets,
        targets_fault(source, targets) is None ==> forall|i: int, s: int|
            0 <= i < targets.len() && 0 <= s < source.len() && (#[trigger] targets[i]).name == (
            #[trigger] source[s]).name ==> {
                &&& copied_targets(source, targets)[i].data == source[s].data
                &&& copied_targets(source, targets)[i].name == targets[i].name
                &&& copied_targets(source, targets)[i].shape == targets[i].shape
            },
{
    let names = tensor_names(source);
    lemma_no_target_faults(source, targets, 0);
    assert forall|i: int, s: int|
        0 <= i < targets.len() && 0 <= s < source.len() && (#[trigger] targets[i]).name == (
        #[trigger] source[s]).name implies first_index(names, targets[i].name, 0) == Some(s) by {
        lemma_first_index(names, targets[i].name, 0);
        assert(names[s] == source[s].name);
        let at = first_index(names, targets[i].name, 0)->0;
        assert(names[at] == source[at].name);
    }
    if targets_fault(source, targets) is None {
        assert forall|i: int, j: int| 0 <= i < j < targets.len() implies (
        #[trigger] targets[i]).name != (#[trigger] targets[j]).name by {
            assert(target_fault(source, targets, j) is None);
        }
        assert forall|i: int| 0 <= i < targets.len() implies exists|s: int|
            0 <= s < source.len() && is_buffer_for(#[trigger] targets[i], #[trigger] source[s]) by {
            assert(target_fault(source, targets, i) is None);
            lemma_first_index(names, targets[i].name, 0);
            let s = first_index(names, targets[i].name, 0)->0;
            assert(names[s] == source[s].name);
            assert(is_buffer_for(targets[i], source[s]));
        }
    } else if source.len() == targets.len() && distinct_names(targets) {
        let i = choose|i: int|
            0 <= i < targets.len() && #[trigger] target_fault(source, targets, i) is Some;
        if exists|s: int|
            0 <= s < source.len() && is_buffer_for(#[trigger] targets[i], #[trigger] source[s]) {
            let s = choose|s: int|
                0 <= s < source.len() && is_buffer_for(#[trigger] targets[i], #[trigger] source[s]);
            assert(first_index(names, targets[i].name, 0) == Some(s));
            assert(same_layout(targets[i], source[s]));
            assert(repeated(targets, i));
        }
    }
}

proof fn lemma_first_target_fault(source: Seq<TensorModel>, targets: Seq<TensorModel>, from: int)
    requires
        0 <= from,
    ensures
        match targets_fault_from(source, targets, from) {
            None => true,
            Some(error) => exists|i: int|
                from <= i < targets.len() && #[trigger] target_fault(source, targets, i) == Some(
                    error,
                ) && forall|j: int|
                    from <= j < i ==> #[trigger] target_fault(source, targets, j) is None,
        },
    decreases targets.len() - from,
{
    if from < targets.len() {
        lemma_first_target_fault(source, targets, from + 1);
        if target_fault(source, targets, from) is None {
            if let Some(error) = targets_fault_from(source, targets, from) {
                let i = choose|i: int|
                    from + 1 <= i < targets.len() && #[trigger] target_fault(source, targets, i)
                        == Some(error) && forall|j: int|
                        from + 1 <= j < i ==> #[trigger] target_fault(source, targets, j) is None;
                assert(target_fault(source, targets, i) == Some(error));
            }
        }
    }
}

/// Whether `error` says what is wrong with buffer `i`: that an earlier one has its name,
/// that there is no such tensor, or that it has another layout.
pub open spec fn explains_target(
    error: ErrorView,
    source: Seq<TensorModel>,
    targets: Seq<TensorModel>,
    i: int,
) -> bool {
    let name = targets[i].name;
    if exists|j: int| 0 <= j < i && (#[trigger] targets[j]).name == name {
        error == ErrorView::Named { fault: NamedFault::DuplicateOutput, name }
    } else if forall|s: int| 0 <= s < source.len() ==> (#[trigger] source[s]).name != name {
        error == ErrorView::Named { fault: NamedFault::UnknownOutput, name }
    } else {
        error == ErrorView::Named { fault: NamedFault::OutputMismatch, name }
    }
}

/// Buffers are refused for their number, or else for the first of them that is wrong,
/// and for what is wrong with it.
pub proof fn law_buffer_refusals_name_the_first(
    source: Seq<TensorModel>,
    targets: Seq<TensorModel>,
)
    requires
        targets_fault(source, targets) is Some,
    ensures
        targets.len() != source.len() ==> targets_fault(source, targets) == Some(
            ErrorView::Fault(Fault::OutputCount),
        ),
        targets.len() == source.len() ==> exists|i: int|
            0 <= i < targets.len() && #[trigger] explains_target(
                targets_fault(source, targets)->0,
                source,
                targets,
                i,
            ) && forall|j: int| 0 <= j < i ==> #[trigger] target_fault(source, targets, j) is None,
{
    if targets.len() == source.len() {
        let error = targets_fault(source, targets)->0;
        lemma_first_target_fault(source, targets, 0);
        let i = choose|i: int|
            0 <= i < targets.len() && #[trigger] target_fault(source, targets, i) == Some(error)
                && forall|j: int|
                0 <= j < i ==> #[trigger] target_fault(source, targets, j) is None;
        let names = tensor_names(source);
        let name = targets[i].name;
        lemma_first_index(names, name, 0);
        if let Some(at) = first_index(names, name, 0) {
            assert(names[at] == source[at].name);
        } else if !repeated(targets, i) {
            assert forall|s: int| 0 <= s < source.len() implies (#[trigger] source[s]).name
                != name by {
                assert(names[s] == source[s].name);
            }
        }
        assert(explains_target(error, source, targets, i));
    }
}

// ---------------------------------------------------------------------------
// Errors

/// An error reads as its message; with explanations in front, each is followed by a
/// colon and what it explains. What native code said is kept word for word.
pub proof fn law_errors_read_from_the_outside_in(
    context: Seq<char>,
    cause: ErrorView,
    text: Seq<char>,
)
    ensures
        (ErrorView::Context { context, cause: Box::new(cause) }).report() == context + ": "@
            + cause.report(),
        (ErrorView::Context { context, cause: Box::new(cause) }).message() == context,
        ErrorView::External(text).report() == text,
        !(cause is Context) ==> cause.report() == cause.message(),
        cause matches ErrorView::BackendsFailed { ep_context, report } ==> cause.message()
            == if ep_context {
            "No configured backend could load the EPContext:\n"@ + report
        } else {
            "All configured ONNX backends failed:\n"@ + report
        },
        cause matches ErrorView::UnsupportedType { element_type, name } ==> cause.message()
            == match name {
            None => "Unsupported I/O dtype "@ + element_type,
            Some(name) => "Unsupported I/O dtype "@ + element_type + ": "@ + name,
        },
        cause matches ErrorView::Named { fault, name } ==> cause.message() == fault.prefix() + name,
        cause matches ErrorView::Shape { name, expected, actual } ==> cause.message() == "Tensor "@
            + name + " expects shape "@ + declared_shape_text(expected) + ", got ["@ + dims_text(
            actual,
        ) + "]"@,
        cause matches ErrorView::ElementType { name, expected, actual } ==> cause.message()
            == "Tensor "@ + name + " expects "@ + expected.name() + ", got "@ + actual.name(),
{
}

/// Element types are called by their kind and the number of their bits.
pub proof fn law_element_types_are_named(dtype: DType)
    ensures
        dtype.name() == match dtype {
            DType::F64 => "F64"@,
            DType::F32 => "F32"@,
            DType::F16 => "F16"@,
            DType::BF16 => "BF16"@,
            DType::I64 => "I64"@,
            DType::I32 => "I32"@,
            DType::I16 => "I16"@,
            DType::I8 => "I8"@,
            DType::U64 => "U64"@,
            DType::U32 => "U32"@,
            DType::U16 => "U16"@,
            DType::U8 => "U8"@,
            DType::Bool => "Bool"@,
        },
{
}

/// Dimensions read from the first to the last, in decimal notation, with commas between.
pub proof fn law_dimensions_read_in_order(dims: Seq<usize>, n: usize)
    ensures
        dims.len() == 0 ==> dims_text(dims).len() == 0,
        dims.len() == 0 ==> dims_text(dims.push(n)) == decimal(n as nat),
        dims.len() > 0 ==> dims_text(dims.push(n)) == dims_text(dims) + ", "@ + decimal(n as nat),
{
    assert(dims.push(n).drop_last() =~= dims);
}

/// Declared dimensions read from the first to the last too, each as a size or as
/// unknown.
pub proof fn law_declared_dimensions_read_in_order(
    dims: Seq<Option<usize>>,
    dim: Option<usize>,
)
    ensures
        ({
            let own = match dim {
                None => "None"@,
                Some(n) => "Some("@ + decimal(n as nat) + ")"@,
            };
            &&& dims.len() == 0 ==> declared_dims_text(dims.push(dim)) == own
            &&& dims.len() > 0 ==> declared_dims_text(dims.push(dim)) == declared_dims_text(dims)
                + ", "@ + own
        }),
        declared_shape_text(Some(dims)) == "Some(["@ + declared_dims_text(dims) + "])"@,
        declared_shape_text(None) == "None"@,
{
    assert(dims.push(dim).drop_last() =~= dims);
}

/// A refused tensor is refused for its first deviation: its name, its element type, its
/// shape, or its number of elements, and the error names the tensor and, of type and
/// shape, both sides.
pub proof fn law_refusals_name_the_deviation(spec: SpecView, tensor: TensorModel)
    requires
        tensor.data.len() <= usize::MAX,
        spec.fault(tensor) is Some,
    ensures
        match spec.fault(tensor)->0 {
            ErrorView::Named { fault, name } => {
                &&& name == tensor.name
                &&& spec.name != tensor.name || product(tensor.shape) != tensor.data.len()
            },
            ErrorView::ElementType { name, expected, actual } => {
                &&& name == tensor.name
                &&& expected == spec.dtype
                &&& actual == tensor.data.dtype()
                &&& expected != actual
            },
            ErrorView::Shape { name, expected, actual } => {
                &&& name == tensor.name
                &&& expected == spec.shape
                &&& actual == tensor.shape
                &&& expected matches Some(dims) && (dims.len() != actual.len() || exists|k: int|
                    0 <= k < dims.len() && #[trigger] dims[k] != Some(actual[k]) && dims[k] is Some)
            },
            ErrorView::Fault(_) => product(tensor.shape) > usize::MAX,
            _ => false,
        },
        spec.fault(tensor)->0 == (ErrorView::Named {
            fault: NamedFault::TensorName,
            name: tensor.name,
        }) <==> spec.name != tensor.name,
        spec.fault(tensor)->0 is ElementType <==> spec.name == tensor.name && spec.dtype
            != tensor.data.dtype(),
        spec.fault(tensor)->0 is Shape ==> spec.name == tensor.name && spec.dtype
            == tensor.data.dtype(),
        spec.fault(tensor)->0 is Fault || spec.fault(tensor)->0 == (ErrorView::Named {
            fault: NamedFault::TensorLength,
            name: tensor.name,
        }) ==> {
            &&& spec.name == tensor.name
            &&& spec.dtype == tensor.data.dtype()
            &&& spec.shape matches Some(dims) ==> dims.len() == tensor.shape.len() && forall|k: int|
                0 <= k < dims.len() ==> (#[trigger] dims[k] matches Some(n) ==> n
                    == tensor.shape[k])
        },
{
    if spec.fault(tensor)->0 is Shape {
        let dims = spec.shape->0;
        if dims.len() == tensor.shape.len() {
            let k = choose|k: int|
                0 <= k < dims.len() && !((#[trigger] dims[k]) matches Some(n) ==> n
                    == tensor.shape[k]);
            assert(dims[k] != Some(tensor.shape[k]) && dims[k] is Some);
        }
    }
}

// ---------------------------------------------------------------------------
// Advice

/// Whether a text holds a part, whatever the case of its letters.
pub open spec fn mentions(text: Seq<char>, part: Seq<char>) -> bool {
    occurs(lowercase(text), part)
}

/// Whether native code says that the driver finds no GPU.
pub open spec fn lacks_gpu(text: Seq<char>) -> bool {
    mentions(text, "no cuda-capable device"@) || mentions(
        text,
        "cuda driver version is insufficient"@,
    )
}

/// Whether native code says that a library could not be loaded or lacks a provider.
pub open spec fn lacks_library(text: Seq<char>) -> bool {
    ||| mentions(text, "failed to load"@)
    ||| mentions(text, "unable to load"@)
    ||| mentions(text, "could not load"@)
    ||| mentions(text, "loadlibrary"@)
    ||| mentions(text, "cannot open shared object"@)
    ||| mentions(text, "not enabled"@)
    ||| mentions(text, "not available"@)
    ||| mentions(text, "not supported in this build"@)
    ||| mentions(text, "error 126"@)
    ||| mentions(text, "error 127"@)
    ||| mentions(text, "code 126"@)
    ||| mentions(text, "code 127"@)
}

/// A provider's failure is explained by what native code says, in any case of letters:
/// where no GPU is found, with advice on the driver, the same for every provider; where
/// a library is missing, with advice on installing this provider; otherwise with the
/// provider's name alone. The cause follows in every case.
pub proof fn law_advice_fits_the_failure(backend: Backend, other: Backend, error: ErrorView)
    ensures
        explained(backend, error).report() == explained(backend, error).message() + ": "@
            + error.report(),
        lacks_gpu(error.report()) ==> explained(backend, error).message() == explained(
            other,
            error,
        ).message(),
        !lacks_gpu(error.report()) ==> explained(backend, error).message().take(
            backend.label().len() as int,
        ) == backend.label(),
        !lacks_gpu(error.report()) && lacks_library(error.report()) ==> explained(
            backend,
            error,
        ).message() == backend.label() + " native libraries are unavailable. "@ + install_advice(
            backend,
        ),
        !lacks_gpu(error.report()) && !lacks_library(error.report()) ==> explained(
            backend,
            error,
        ).message() == backend.label() + " provider"@,
{
    let label = backend.label();
    let message = provider_context(backend, error);
    if !lacks_gpu(error.report()) {
        assert(message.take(label.len() as int) =~= label);
    }
}

// ---------------------------------------------------------------------------
// Views

/// What contracts say of borrowed and owned tensors is what their fields hold.
pub proof fn law_tensors_are_seen_as_they_are(
    view: TensorView<'_>,
    tensor: Tensor,
    spec: TensorSpec,
)
    ensures
        view.model().name == view.name@,
        view.model().shape == view.shape@,
        view.model().data == view.data.contents(),
        tensor.model().name == tensor.name@,
        tensor.model().shape == tensor.shape@,
        tensor.model().data == tensor.data.contents(),
        spec@.name == spec.name@,
        spec@.dtype == spec.dtype,
        match spec.shape {
            None => spec@.shape is None,
            Some(dims) => spec@.shape == Some(dims@),
        },
{
}

/// What contracts say of elements is what the slices and vectors hold.
pub proof fn law_storage_is_seen_as_it_is(data: TensorData<'_>, buffer: TensorBuffer)
    ensures
        match data {
            TensorData::F32(x) => data.contents() == Elements::F32(x@),
            TensorData::F64(x) => data.contents() == Elements::F64(x@),
            TensorData::F16(x) => data.contents() == Elements::F16(x@),
            TensorData::BF16(x) => data.contents() == Elements::BF16(x@),
            TensorData::I64(x) => data.contents() == Elements::I64(x@),
            TensorData::I32(x) => data.contents() == Elements::I32(x@),
            TensorData::I16(x) => data.contents() == Elements::I16(x@),
            TensorData::I8(x) => data.contents() == Elements::I8(x@),
            TensorData::U64(x) => data.contents() == Elements::U64(x@),
            TensorData::U32(x) => data.contents() == Elements::U32(x@),
            TensorData::U16(x) => data.contents() == Elements::U16(x@),
            TensorData::U8(x) => data.contents() == Elements::U8(x@),
            TensorData::Bool(x) => data.contents() == Elements::Bool(x@),
        },
        match buffer {
            TensorBuffer::F32(x) => buffer.contents() == Elements::F32(x@),
            TensorBuffer::F64(x) => buffer.contents() == Elements::F64(x@),
            TensorBuffer::F16(x) => buffer.contents() == Elements::F16(x@),
            TensorBuffer::BF16(x) => buffer.contents() == Elements::BF16(x@),
            TensorBuffer::I64(x) => buffer.contents() == Elements::I64(x@),
            TensorBuffer::I32(x) => buffer.contents() == Elements::I32(x@),
            TensorBuffer::I16(x) => buffer.contents() == Elements::I16(x@),
            TensorBuffer::I8(x) => buffer.contents() == Elements::I8(x@),
            TensorBuffer::U64(x) => buffer.contents() == Elements::U64(x@),
            TensorBuffer::U32(x) => buffer.contents() == Elements::U32(x@),
            TensorBuffer::U16(x) => buffer.contents() == Elements::U16(x@),
            TensorBuffer::U8(x) => buffer.contents() == Elements::U8(x@),
            TensorBuffer::Bool(x) => buffer.contents() == Elements::Bool(x@),
        },
{
}

/// What contracts say of a mutable view and its elements is what they are now.
pub proof fn law_mutable_views_are_seen_as_they_are(view: TensorViewMut<'_>)
    ensures
        view.model().name == view.name@,
        view.model().shape == view.shape@,
        match view.data {
            TensorDataMut::F32(x) => view.model().data == Elements::F32(x@),
            TensorDataMut::F64(x) => view.model().data == Elements::F64(x@),
            TensorDataMut::F16(x) => view.model().data == Elements::F16(x@),
            TensorDataMut::BF16(x) => view.model().data == Elements::BF16(x@),
            TensorDataMut::I64(x) => view.model().data == Elements::I64(x@),
            TensorDataMut::I32(x) => view.model().data == Elements::I32(x@),
            TensorDataMut::I16(x) => view.model().data == Elements::I16(x@),
            TensorDataMut::I8(x) => view.model().data == Elements::I8(x@),
            TensorDataMut::U64(x) => view.model().data == Elements::U64(x@),
            TensorDataMut::U32(x) => view.model().data == Elements::U32(x@),
            TensorDataMut::U16(x) => view.model().data == Elements::U16(x@),
            TensorDataMut::U8(x) => view.model().data == Elements::U8(x@),
            TensorDataMut::Bool(x) => view.model().data == Elements::Bool(x@),
        },
{
}

/// A call failed exactly when its result is an error, with what the error holds.
pub proof fn law_failures_are_seen_as_they_are<T>(result: Result<T, Error>, error: Error)
    ensures
        failure(result) is None <==> result is Ok,
        result matches Err(own) ==> failure(result) == Some(own@),
        match error {
            Error::Fault(fault) => error@ == ErrorView::Fault(fault),
            Error::Named { fault, name } => error@ == (ErrorView::Named { fault, name: name@ }),
            Error::ElementType { name, expected, actual } => error@ == (ErrorView::ElementType {
                name: name@,
                expected,
                actual,
            }),
            Error::Shape { name, expected, actual } => error@ == (ErrorView::Shape {
                name: name@,
                expected: optional_items(expected),
                actual: actual@,
            }),
            Error::UnsupportedType { element_type, name } => error@
                matches ErrorView::UnsupportedType { element_type: own, name: own_name } && own
                == element_type@ && match name {
                None => own_name is None,
                Some(text) => own_name == Some(text@),
            },
            Error::BackendsFailed { ep_context, report } => error@ == (ErrorView::BackendsFailed {
                ep_context,
                report: report@,
            }),
            Error::External(text) => error@ == ErrorView::External(text@),
            Error::Context { context, cause } => error@ matches ErrorView::Context {
                context: own,
                cause: own_cause,
            } && own == context@ && *own_cause == (*cause)@,
        },
{
}

} // verus!
