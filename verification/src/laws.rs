//! What holds of the library as a whole, over all inputs and states.
use crate::api::{
    fits_candidate, input_fault, inputs_fault, inputs_fault_from, lemma_feeding_keeps_wf,
    lemma_outputs_come_in_model_order, lemma_recording_keeps_wf, output_fault, outputs_fault,
    outputs_fault_from, poured, poured_one, poured_up_to, report_text, spec_names, FailureView,
    InfoView, IntoStep, ResultView, RuntimeView, Step,
};
use crate::buffers::{fed, is_eligible, slot_matches, slots_match, BuffersView, OutcomeView};
use crate::error::ErrorView;
use crate::options::{Backend, HostText, OnnxOptions};
use crate::session::{
    captures_graph, is_rank_unknown, is_strict, opened, opened_buffers, outlet_spec,
    planned_providers, stream_device, OutletView, SessionView,
};
use crate::tensor::{
    copied_targets, copy_fault, count_fault, filled_target, lemma_zero_dimension, product,
    repeated, target_fault, targets_fault, targets_fault_from, tensor_names, Elements, SpecView,
    TensorModel,
};
use crate::text::{first_index, lemma_first_index};
use vstd::prelude::*;

verus! {

// ---------------------------------------------------------------------------
// Shapes

/// A scalar has one element. A tensor is empty exactly when one of its dimensions is
/// zero, however large the others are, and its elements can then be counted.
pub proof fn law_zero_dimensions_make_tensors_empty(shape: Seq<usize>)
    ensures
        shape.len() == 0 ==> product(shape) == 1,
        product(shape) == 0 <==> shape.contains(0),
        shape.contains(0) ==> count_fault(shape) is None,
    decreases shape.len(),
{
    if shape.contains(0) {
        let at = choose|i: int| 0 <= i < shape.len() && shape[i] == 0;
        lemma_zero_dimension(shape, at);
    } else if shape.len() > 0 {
        let front = shape.drop_last();
        law_zero_dimensions_make_tensors_empty(front);
        if front.contains(0) {
            let at = choose|i: int| 0 <= i < front.len() && front[i] == 0;
            assert(shape[at] == 0);
        }
        assert(shape[shape.len() - 1] != 0);
        let left = product(front);
        let right = shape.last() as nat;
        assert(left * right > 0) by (nonlinear_arith)
            requires
                left > 0,
                right > 0,
        ;
    }
}

// ---------------------------------------------------------------------------
// Validation of inputs

/// Whether a tensor fits the model's input of its name.
pub open spec fn is_accepted(specs: Seq<SpecView>, input: TensorModel) -> bool {
    match first_index(spec_names(specs), input.name, 0) {
        None => false,
        Some(at) => specs[at].accepts(input),
    }
}

/// Whether no two tensors have the same name.
pub open spec fn distinct_names(tensors: Seq<TensorModel>) -> bool {
    forall|i: int, j: int|
        0 <= i < j < tensors.len() ==> (#[trigger] tensors[i]).name != (#[trigger] tensors[j]).name
}

/// Whether every tensor has a countable number of elements in storage.
pub open spec fn storable(tensors: Seq<TensorModel>) -> bool {
    forall|i: int| 0 <= i < tensors.len() ==> (#[trigger] tensors[i]).data.len() <= usize::MAX
}

proof fn lemma_no_input_fault(specs: Seq<SpecView>, inputs: Seq<TensorModel>, from: int)
    requires
        0 <= from,
    ensures
        inputs_fault_from(specs, inputs, from) is None <==> forall|i: int|
            from <= i < inputs.len() ==> #[trigger] input_fault(specs, inputs, i) is None,
    decreases inputs.len() - from,
{
    if from < inputs.len() {
        lemma_no_input_fault(specs, inputs, from + 1);
        if inputs_fault_from(specs, inputs, from) is None {
            assert forall|i: int| from <= i < inputs.len() implies #[trigger] input_fault(
                specs,
                inputs,
                i,
            ) is None by {
                if i > from {
                    assert(inputs_fault_from(specs, inputs, from + 1) is None);
                }
            }
        }
    }
}

/// Inputs are accepted exactly when there are as many as the model has, no name
/// occurs twice, and each fits the model's input of its name.
pub proof fn law_inputs_are_given_exactly_once(specs: Seq<SpecView>, inputs: Seq<TensorModel>)
    requires
        storable(inputs),
    ensures
        inputs_fault(specs, inputs) is None <==> {
            &&& inputs.len() == specs.len()
            &&& distinct_names(inputs)
            &&& forall|i: int| 0 <= i < inputs.len() ==> is_accepted(specs, #[trigger] inputs[i])
        },
{
    lemma_no_input_fault(specs, inputs, 0);
    if inputs_fault(specs, inputs) is None {
        assert forall|i: int, j: int| 0 <= i < j < inputs.len() implies (#[trigger] inputs[i]).name
            != (#[trigger] inputs[j]).name by {
            assert(input_fault(specs, inputs, j) is None);
            if inputs[i].name == inputs[j].name {
                assert(repeated(inputs, j));
            }
        }
        assert forall|i: int| 0 <= i < inputs.len() implies is_accepted(
            specs,
            #[trigger] inputs[i],
        ) by {
            assert(input_fault(specs, inputs, i) is None);
        }
    } else if inputs.len() == specs.len() && distinct_names(inputs) {
        let i = choose|i: int|
            0 <= i < inputs.len() && !(#[trigger] input_fault(specs, inputs, i) is None);
        assert(!repeated(inputs, i));
        assert(!is_accepted(specs, inputs[i]));
    }
}

/// Whether `a` is `b` in another order.
pub open spec fn is_reordering(a: Seq<TensorModel>, b: Seq<TensorModel>, order: Seq<int>) -> bool {
    &&& a.len() == b.len()
    &&& order.len() == a.len()
    &&& forall|i: int|
        0 <= i < order.len() ==> 0 <= #[trigger] order[i] < b.len() && a[i] == b[order[i]]
    &&& forall|i: int, j: int|
        0 <= i < j < order.len() ==> #[trigger] order[i] != #[trigger] order[j]
}

/// The order in which inputs are given does not matter for whether they are accepted.
pub proof fn law_input_order_is_arbitrary(
    specs: Seq<SpecView>,
    a: Seq<TensorModel>,
    b: Seq<TensorModel>,
    order: Seq<int>,
)
    requires
        storable(b),
        is_reordering(a, b, order),
        inputs_fault(specs, b) is None,
    ensures
        inputs_fault(specs, a) is None,
{
    law_inputs_are_given_exactly_once(specs, b);
    assert forall|i: int| 0 <= i < a.len() implies (#[trigger] a[i]).data.len() <= usize::MAX
        && is_accepted(specs, a[i]) by {
        assert(a[i] == b[order[i]]);
    }
    assert forall|i: int, j: int| 0 <= i < j < a.len() implies (#[trigger] a[i]).name != (
    #[trigger] a[j]).name by {
        assert(a[i] == b[order[i]] && a[j] == b[order[j]]);
        assert(order[i] != order[j]);
    }
    law_inputs_are_given_exactly_once(specs, a);
}

// ---------------------------------------------------------------------------
// Kept tensors

proof fn lemma_feeding_keeps_layout(slots: Seq<TensorModel>, inputs: Seq<TensorModel>)
    ensures
        ({
            let after = fed(slots, inputs).0;
            &&& after.len() == slots.len()
            &&& tensor_names(after) == tensor_names(slots)
            &&& forall|i: int|
                0 <= i < slots.len() ==> {
                    &&& (#[trigger] after[i]).name == slots[i].name
                    &&& after[i].shape == slots[i].shape
                    &&& after[i].data.dtype() == slots[i].data.dtype()
                    &&& after[i].data.len() == slots[i].data.len()
                }
        }),
    decreases inputs.len(),
{
    if inputs.len() > 0 {
        lemma_feeding_keeps_layout(slots, inputs.drop_last());
        let before = fed(slots, inputs.drop_last()).0;
        lemma_first_index(tensor_names(before), inputs.last().name, 0);
    }
    let after = fed(slots, inputs).0;
    assert(tensor_names(after) =~= tensor_names(slots));
}

proof fn lemma_accepted_input_fits_slot(
    slots: Seq<TensorModel>,
    specs: Seq<SpecView>,
    input: TensorModel,
)
    requires
        slots_match(slots, specs),
        is_accepted(specs, input),
    ensures
        ({
            let at = first_index(tensor_names(slots), input.name, 0);
            &&& at is Some
            &&& 0 <= at->0 < slots.len()
            &&& slots[at->0].name == input.name
            &&& slots[at->0].data.dtype() == input.data.dtype()
            &&& slots[at->0].data.len() == input.data.len()
        }),
{
    assert(tensor_names(slots) =~= spec_names(specs)) by {
        assert forall|i: int| 0 <= i < slots.len() implies tensor_names(slots)[i] == spec_names(
            specs,
        )[i] by {
            assert(slot_matches(slots[i], specs[i]));
        }
    }
    lemma_first_index(spec_names(specs), input.name, 0);
    let at = first_index(spec_names(specs), input.name, 0)->0;
    let spec = specs[at];
    let slot = slots[at];
    assert(slot_matches(slot, spec));
    let dims = spec.shape->0;
    assert(slot.shape =~= input.shape) by {
        assert forall|i: int| 0 <= i < dims.len() implies slot.shape[i] == input.shape[i] by {
            assert(dims[i] is Some);
        }
    }
}

/// Accepted inputs always fit the kept tensors of the session that they were checked
/// against.
pub proof fn law_accepted_inputs_can_be_fed(
    slots: Seq<TensorModel>,
    specs: Seq<SpecView>,
    inputs: Seq<TensorModel>,
)
    requires
        storable(inputs),
        slots_match(slots, specs),
        inputs_fault(specs, inputs) is None,
    ensures
        fed(slots, inputs).1 is None,
{
    law_inputs_are_given_exactly_once(specs, inputs);
    lemma_fitting_inputs_can_be_fed(slots, specs, inputs);
}

proof fn lemma_fitting_inputs_can_be_fed(
    slots: Seq<TensorModel>,
    specs: Seq<SpecView>,
    inputs: Seq<TensorModel>,
)
    requires
        slots_match(slots, specs),
        forall|i: int| 0 <= i < inputs.len() ==> is_accepted(specs, #[trigger] inputs[i]),
    ensures
        fed(slots, inputs).1 is None,
    decreases inputs.len(),
{
    if inputs.len() > 0 {
        let front = inputs.drop_last();
        assert forall|i: int| 0 <= i < front.len() implies is_accepted(
            specs,
            #[trigger] front[i],
        ) by {
            assert(front[i] == inputs[i]);
        }
        lemma_fitting_inputs_can_be_fed(slots, specs, front);
        lemma_feeding_keeps_layout(slots, front);
        assert(is_accepted(specs, inputs[inputs.len() - 1]));
        lemma_accepted_input_fits_slot(slots, specs, inputs.last());
    }
}

/// After feeding, each input's tensor holds that input's elements, and every other
/// tensor what it held before.
pub proof fn law_fed_tensors_hold_their_inputs(slots: Seq<TensorModel>, inputs: Seq<TensorModel>)
    requires
        fed(slots, inputs).1 is None,
        distinct_names(inputs),
    ensures
        ({
            let after = fed(slots, inputs).0;
            &&& forall|j: int|
                0 <= j < inputs.len() ==> {
                    let at = first_index(tensor_names(slots), (#[trigger] inputs[j]).name, 0);
                    at is Some && after[at->0].data == inputs[j].data
                }
            &&& forall|s: int|
                0 <= s < slots.len() && (forall|j: int|
                    0 <= j < inputs.len() ==> (#[trigger] inputs[j]).name != slots[s].name)
                    ==> #[trigger] after[s] == slots[s]
        }),
    decreases inputs.len(),
{
    let after = fed(slots, inputs).0;
    if inputs.len() > 0 {
        let front = inputs.drop_last();
        let last = inputs.last();
        assert forall|i: int, j: int| 0 <= i < j < front.len() implies (#[trigger] front[i]).name
            != (#[trigger] front[j]).name by {
            assert(front[i] == inputs[i] && front[j] == inputs[j]);
        }
        law_fed_tensors_hold_their_inputs(slots, front);
        lemma_feeding_keeps_layout(slots, front);
        let before = fed(slots, front).0;
        let names = tensor_names(slots);
        lemma_first_index(names, last.name, 0);
        let here = first_index(names, last.name, 0)->0;
        assert(after == before.update(here, TensorModel { data: last.data, ..before[here] }));
        assert forall|j: int| 0 <= j < inputs.len() implies ({
            let at = first_index(names, (#[trigger] inputs[j]).name, 0);
            at is Some && after[at->0].data == inputs[j].data
        }) by {
            lemma_first_index(names, inputs[j].name, 0);
            if j < front.len() {
                assert(front[j] == inputs[j]);
                assert(inputs[j].name != inputs[inputs.len() - 1].name);
                let at = first_index(names, front[j].name, 0)->0;
                assert(at != here);
            }
        }
        assert forall|s: int|
            0 <= s < slots.len() && (forall|j: int|
                0 <= j < inputs.len() ==> (#[trigger] inputs[j]).name
                    != slots[s].name) implies #[trigger] after[s] == slots[s] by {
            assert forall|j: int| 0 <= j < front.len() implies (#[trigger] front[j]).name
                != slots[s].name by {
                assert(front[j] == inputs[j]);
            }
            assert(inputs[inputs.len() - 1].name != slots[s].name);
            assert(before[s] == slots[s]);
            assert(s != here);
        }
    }
}

/// The order in which accepted inputs are given does not matter for what a session
/// is run on.
pub proof fn law_feeding_order_is_arbitrary(
    slots: Seq<TensorModel>,
    specs: Seq<SpecView>,
    a: Seq<TensorModel>,
    b: Seq<TensorModel>,
    order: Seq<int>,
)
    requires
        storable(b),
        slots_match(slots, specs),
        is_reordering(a, b, order),
        inputs_fault(specs, b) is None,
        forall|i: int, j: int|
            0 <= i < j < slots.len() ==> (#[trigger] slots[i]).name != (#[trigger] slots[j]).name,
    ensures
        fed(slots, a) == fed(slots, b),
{
    law_input_order_is_arbitrary(specs, a, b, order);
    assert forall|i: int| 0 <= i < a.len() implies (#[trigger] a[i]).data.len()
        <= usize::MAX by {
        assert(a[i] == b[order[i]]);
    }
    law_accepted_inputs_can_be_fed(slots, specs, a);
    law_accepted_inputs_can_be_fed(slots, specs, b);
    law_inputs_are_given_exactly_once(specs, a);
    law_inputs_are_given_exactly_once(specs, b);
    law_fed_tensors_hold_their_inputs(slots, a);
    law_fed_tensors_hold_their_inputs(slots, b);
    lemma_feeding_keeps_layout(slots, a);
    lemma_feeding_keeps_layout(slots, b);
    let x = fed(slots, a).0;
    let y = fed(slots, b).0;
    let names = tensor_names(slots);
    assert forall|s: int| 0 <= s < slots.len() implies x[s] == y[s] by {
        if exists|i: int| 0 <= i < a.len() && (#[trigger] a[i]).name == slots[s].name {
            let i = choose|i: int| 0 <= i < a.len() && (#[trigger] a[i]).name == slots[s].name;
            lemma_first_index(names, a[i].name, 0);
            let at = first_index(names, a[i].name, 0)->0;
            assert(names[s] == a[i].name);
            if at < s {
                assert(slots[at].name != slots[s].name);
            }
            assert(at == s);
            assert(x[s].data == a[i].data);
            assert(b[order[i]] == a[i]);
            assert(y[s].data == b[order[i]].data);
            assert(x[s].name == y[s].name && x[s].shape == y[s].shape);
        } else {
            // Then `b` has no such name either: there are as many inputs as tensors,
            // so a name missing from `a` would be missing from the model.
            lemma_every_slot_is_given(slots, specs, a, s);
        }
    }
    assert(x =~= y);
}

/// With as many distinct accepted inputs as tensors, every tensor is given.
proof fn lemma_every_slot_is_given(
    slots: Seq<TensorModel>,
    specs: Seq<SpecView>,
    inputs: Seq<TensorModel>,
    s: int,
)
    requires
        slots_match(slots, specs),
        inputs.len() == specs.len(),
        distinct_names(inputs),
        forall|i: int| 0 <= i < inputs.len() ==> is_accepted(specs, #[trigger] inputs[i]),
        forall|i: int, j: int|
            0 <= i < j < slots.len() ==> (#[trigger] slots[i]).name != (#[trigger] slots[j]).name,
        0 <= s < slots.len(),
    ensures
        exists|i: int| 0 <= i < inputs.len() && (#[trigger] inputs[i]).name == slots[s].name,
{
    let names = tensor_names(slots);
    let places = Seq::new(inputs.len(), |i: int| first_index(names, inputs[i].name, 0)->0);
    assert forall|i: int| 0 <= i < inputs.len() implies 0 <= #[trigger] places[i] < slots.len()
        && slots[places[i]].name == inputs[i].name by {
        assert(is_accepted(specs, inputs[i]));
        lemma_accepted_input_fits_slot(slots, specs, inputs[i]);
    }
    assert forall|i: int, j: int| 0 <= i < j < places.len() implies #[trigger] places[i]
        != #[trigger] places[j] by {
        assert(inputs[i].name != inputs[j].name);
    }
    lemma_injection_is_onto(places, slots.len() as int, s);
    let i = choose|i: int| 0 <= i < places.len() && places[i] == s;
    assert(inputs[i].name == slots[s].name);
}

/// `n` distinct places below `n` are all places below `n`.
proof fn lemma_injection_is_onto(places: Seq<int>, n: int, s: int)
    requires
        places.len() == n,
        0 <= s < n,
        forall|i: int| 0 <= i < places.len() ==> 0 <= #[trigger] places[i] < n,
        forall|i: int, j: int|
            0 <= i < j < places.len() ==> #[trigger] places[i] != #[trigger] places[j],
    ensures
        exists|i: int| 0 <= i < places.len() && places[i] == s,
    decreases n,
{
    if places.last() == s {
        assert(places[n - 1] == s);
    } else {
        let last = places.last();
        let front = places.drop_last();
        if s == n - 1 {
            // Some place is missing if `n - 1` is: rename it to the last one.
            if !(exists|i: int| 0 <= i < places.len() && places[i] == s) {
                assert forall|i: int| 0 <= i < front.len() implies 0 <= #[trigger] front[i] < n
                    - 1 by {
                    assert(places[i] != s);
                }
                lemma_injection_is_onto(front, n - 1, last);
                let i = choose|i: int| 0 <= i < front.len() && front[i] == last;
                assert(places[i] != places[n - 1]);
            }
        } else {
            let renamed = front.map_values(
                |p: int|
                    if p == n - 1 {
                        last
                    } else {
                        p
                    },
            );
            assert forall|i: int| 0 <= i < renamed.len() implies 0 <= #[trigger] renamed[i] < n
                - 1 by {
                assert(front[i] == places[i]);
                if last == n - 1 {
                    assert(places[i] != places[n - 1]);
                }
            }
            assert forall|i: int, j: int| 0 <= i < j < renamed.len() implies #[trigger] renamed[i]
                != #[trigger] renamed[j] by {
                assert(places[i] != places[j]);
                assert(places[i] != places[n - 1] && places[j] != places[n - 1]);
            }
            lemma_injection_is_onto(renamed, n - 1, s);
            let i = choose|i: int| 0 <= i < renamed.len() && renamed[i] == s;
            assert(places[i] == s) by {
                if places[i] == n - 1 {
                    assert(renamed[i] == last);
                }
            }
        }
    }
}

/// Fresh inputs are zero.
pub proof fn law_fresh_inputs_are_zero(
    info: InfoView,
    device_id: Option<i32>,
    rebind_inputs: bool,
    i: int,
)
    requires
        0 <= i < info.inputs.len(),
    ensures
        ({
            let input = BuffersView::fresh(info, device_id, rebind_inputs).inputs[i];
            input.data == Elements::zeros(info.inputs[i].dtype, product(input.shape))
        }),
{
}

/// Inputs keep their values over runs, successful or not, until they are replaced.
pub proof fn law_inputs_persist(buffers: BuffersView, outcome: OutcomeView)
    ensures
        buffers.begun().inputs == buffers.inputs,
        buffers.finished(outcome).inputs == buffers.inputs,
{
}

/// Borrowing an input for mutation, feeding inputs or beginning a run makes earlier
/// outputs unreadable. A run that got under way makes outputs readable exactly when it
/// succeeds, and after inputs were replaced nothing but such a run does.
pub proof fn law_outputs_belong_to_current_inputs(
    buffers: BuffersView,
    at: int,
    data: Elements,
    inputs: Seq<TensorModel>,
    outcome: OutcomeView,
)
    ensures
        !buffers.edited(at, data).outputs_valid,
        !buffers.fed(inputs).outputs_valid,
        !buffers.begun().outputs_valid,
        !(outcome is Refused) ==> (buffers.finished(outcome).outputs_valid <==> outcome is Done),
        buffers.edited(at, data).begun().finished(outcome).outputs_valid <==> outcome is Done,
        buffers.fed(inputs).begun().finished(outcome).outputs_valid <==> outcome is Done,
{
}

/// A run that is refused before it begins leaves the kept tensors as they were: outputs
/// that could be read still can.
pub proof fn law_refused_runs_change_nothing(buffers: BuffersView, error: ErrorView)
    requires
        !buffers.outputs_held,
    ensures
        buffers.begun().finished(OutcomeView::Refused(error)) == buffers,
{
}

/// Outputs are held back only while a run is under way.
pub proof fn law_outputs_are_held_during_runs_only(
    buffers: BuffersView,
    at: int,
    data: Elements,
    inputs: Seq<TensorModel>,
    outcome: OutcomeView,
)
    ensures
        !buffers.edited(at, data).outputs_held,
        !buffers.fed(inputs).outputs_held,
        !buffers.finished(outcome).outputs_held,
{
}

/// What a successful run produced is what is read back, under the names, with the
/// shapes and types of the model's outputs.
pub proof fn law_outputs_read_back(buffers: BuffersView, info: InfoView, values: Seq<Elements>)
    requires
        buffers.prepared_for(info),
        buffers.fits(values),
    ensures
        ({
            let after = buffers.finished(OutcomeView::Done(values));
            &&& after.prepared_for(info)
            &&& forall|i: int|
                0 <= i < values.len() ==> (#[trigger] after.outputs[i]).data == values[i]
                    && after.outputs[i].name == info.outputs[i].name
        }),
{
    let after = buffers.finished(OutcomeView::Done(values));
    assert forall|i: int| 0 <= i < after.outputs.len() implies slot_matches(
        #[trigger] after.outputs[i],
        info.outputs[i],
    ) by {
        assert(slot_matches(buffers.outputs[i], info.outputs[i]));
        assert(values[i].dtype() == buffers.outputs[i].data.dtype());
    }
}

/// Inputs are bound before the first run. Afterwards they are bound again only under
/// automatic placement: a strict session keeps its device addresses.
pub proof fn law_strict_sessions_bind_once(buffers: BuffersView, outcome: OutcomeView)
    ensures
        !buffers.inputs_bound ==> buffers.plan().bind_inputs,
        outcome.passed_binding() && !buffers.rebind_inputs ==> !buffers.finished(
            outcome,
        ).plan().bind_inputs,
        buffers.rebind_inputs ==> buffers.finished(outcome).plan().bind_inputs,
{
}

// ---------------------------------------------------------------------------
// Output buffers

/// A copy to output buffers fills all of them or none.
pub proof fn law_copies_are_all_or_nothing(source: Seq<TensorModel>, targets: Seq<TensorModel>)
    ensures
        copied_targets(source, targets).len() == targets.len(),
        targets_fault(source, targets) is Some ==> copied_targets(source, targets) == targets,
        forall|i: int|
            0 <= i < targets.len() ==> (#[trigger] copied_targets(source, targets)[i]).name
                == targets[i].name && copied_targets(source, targets)[i].shape
                == targets[i].shape,
{
}

proof fn lemma_no_output_fault(specs: Seq<SpecView>, outputs: Seq<TensorModel>, from: int, i: int)
    requires
        0 <= from <= i < outputs.len(),
        outputs_fault_from(specs, outputs, from) is None,
    ensures
        output_fault(specs, outputs, i) is None,
    decreases i - from,
{
    if from < i {
        lemma_no_output_fault(specs, outputs, from + 1, i);
    }
}

/// Output buffers that passed the check before a run are all filled after it: each
/// with the elements of the output of its name.
pub proof fn law_checked_buffers_are_filled(
    buffers: BuffersView,
    info: InfoView,
    targets: Seq<TensorModel>,
)
    requires
        buffers.prepared_for(info),
        outputs_fault(info.outputs, targets) is None,
    ensures
        poured(buffers.outputs, targets).1 is None,
        poured(buffers.outputs, targets).0.len() == targets.len(),
        forall|i: int|
            0 <= i < targets.len() ==> Ok::<TensorModel, ErrorView>(
                #[trigger] poured(buffers.outputs, targets).0[i],
            ) == poured_one(buffers.outputs, targets[i]),
{
    lemma_pouring_fills(buffers, info, targets, targets.len() as int);
}

proof fn lemma_pouring_fills(
    buffers: BuffersView,
    info: InfoView,
    targets: Seq<TensorModel>,
    n: int,
)
    requires
        buffers.prepared_for(info),
        outputs_fault(info.outputs, targets) is None,
        0 <= n <= targets.len(),
    ensures
        poured_up_to(buffers.outputs, targets, n).1 is None,
        poured_up_to(buffers.outputs, targets, n).0.len() == targets.len(),
        forall|i: int|
            0 <= i < n ==> Ok::<TensorModel, ErrorView>(
                #[trigger] poured_up_to(buffers.outputs, targets, n).0[i],
            ) == poured_one(buffers.outputs, targets[i]),
    decreases n,
{
    if n > 0 {
        lemma_pouring_fills(buffers, info, targets, n - 1);
        lemma_no_output_fault(info.outputs, targets, 0, n - 1);
        let target = targets[n - 1];
        let names = tensor_names(buffers.outputs);
        assert(names =~= spec_names(info.outputs)) by {
            assert forall|i: int| 0 <= i < names.len() implies names[i] == spec_names(
                info.outputs,
            )[i] by {
                assert(slot_matches(buffers.outputs[i], info.outputs[i]));
            }
        }
        lemma_first_index(names, target.name, 0);
        let at = first_index(names, target.name, 0)->0;
        assert(slot_matches(buffers.outputs[at], info.outputs[at]));
        assert(buffers.outputs[at].shape =~= target.shape);
        assert(copy_fault(target.data, buffers.outputs[at].data) is None);
    }
}

proof fn lemma_no_target_fault(
    source: Seq<TensorModel>,
    targets: Seq<TensorModel>,
    from: int,
    i: int,
)
    requires
        0 <= from <= i < targets.len(),
        targets_fault_from(source, targets, from) is None,
    ensures
        target_fault(source, targets, i) is None,
    decreases i - from,
{
    if from < i {
        lemma_no_target_fault(source, targets, from + 1, i);
    }
}

proof fn lemma_outputs_without_fault(specs: Seq<SpecView>, outputs: Seq<TensorModel>, from: int)
    requires
        0 <= from,
        forall|i: int|
            from <= i < outputs.len() ==> #[trigger] output_fault(specs, outputs, i) is None,
    ensures
        outputs_fault_from(specs, outputs, from) is None,
    decreases outputs.len() - from,
{
    if from < outputs.len() {
        assert(output_fault(specs, outputs, from) is None);
        lemma_outputs_without_fault(specs, outputs, from + 1);
    }
}

proof fn lemma_pouring_copies(source: Seq<TensorModel>, targets: Seq<TensorModel>, n: int)
    requires
        targets_fault(source, targets) is None,
        0 <= n <= targets.len(),
    ensures
        poured_up_to(source, targets, n) == (
            Seq::new(
                targets.len(),
                |i: int|
                    if i < n {
                        filled_target(source, targets[i])
                    } else {
                        targets[i]
                    },
            ),
            None::<ErrorView>,
        ),
    decreases n,
{
    let wanted = Seq::new(
        targets.len(),
        |i: int|
            if i < n {
                filled_target(source, targets[i])
            } else {
                targets[i]
            },
    );
    if n > 0 {
        lemma_pouring_copies(source, targets, n - 1);
        lemma_no_target_fault(source, targets, 0, n - 1);
    }
    assert(poured_up_to(source, targets, n).0 =~= wanted);
}

/// An inference into buffers gives what an inference returns. Take inputs that are
/// accepted, a run that produces tensors, and buffers that match those one to one by
/// name, in any order, with their shapes, types and lengths. Then both inferences begin
/// in the same way and leave the same state, none of the buffers is refused, and each
/// is filled with the elements of the returned tensor of its name, whether the session
/// keeps tensors or not.
pub proof fn law_filling_gives_what_inference_returns(
    runtime: RuntimeView,
    inputs: Seq<TensorModel>,
    outcome: ResultView,
    targets: Seq<TensorModel>,
)
    requires
        runtime.wf(),
        runtime.active is Some,
        storable(inputs),
        storable(targets),
        inputs_fault(runtime.info.inputs, inputs) is None,
        runtime.attempted(inputs).admits(outcome),
        runtime.attempted(inputs).produced(outcome) is Ok,
        targets_fault(runtime.attempted(inputs).produced(outcome)->Ok_0, targets) is None,
    ensures
        ({
            let tensors = runtime.attempted(inputs).produced(outcome)->Ok_0;
            let run = runtime.active->0.native_run();
            &&& runtime.attempt(inputs) == Ok::<Step, ErrorView>(Step::Run(run))
            &&& runtime.into_attempted(inputs) == runtime.attempted(inputs)
            &&& runtime.into_attempt(inputs) == Ok::<IntoStep, ErrorView>(
                if runtime.prepared() {
                    IntoStep::Direct(run)
                } else {
                    IntoStep::Collect(Step::Run(run))
                },
            )
            &&& runtime.prepared() ==> outputs_fault(runtime.info.outputs, targets) is None
            &&& runtime.prepared() ==> poured(tensors, targets) == (
                copied_targets(tensors, targets),
                None::<ErrorView>,
            )
            &&& copied_targets(tensors, targets).len() == targets.len()
            &&& forall|j: int|
                0 <= j < targets.len() ==> {
                    let at = first_index(tensor_names(tensors), (#[trigger] targets[j]).name, 0);
                    &&& at is Some
                    &&& 0 <= at->0 < tensors.len()
                    &&& tensors[at->0].name == targets[j].name
                    &&& copied_targets(tensors, targets)[j].data == tensors[at->0].data
                }
        }),
{
    law_accepted_inputs_are_run(runtime, inputs);
    let begun = runtime.attempted(inputs);
    lemma_feeding_keeps_wf(runtime, inputs);
    law_outputs_come_in_model_order(begun, outcome);
    let tensors = begun.produced(outcome)->Ok_0;
    assert forall|j: int| 0 <= j < targets.len() implies ({
        let at = first_index(tensor_names(tensors), (#[trigger] targets[j]).name, 0);
        &&& at is Some
        &&& 0 <= at->0 < tensors.len()
        &&& tensors[at->0].name == targets[j].name
        &&& copied_targets(tensors, targets)[j].data == tensors[at->0].data
    }) by {
        lemma_no_target_fault(tensors, targets, 0, j);
        lemma_first_index(tensor_names(tensors), targets[j].name, 0);
    }
    if runtime.prepared() {
        let specs = runtime.info.outputs;
        assert(tensor_names(tensors) =~= spec_names(specs));
        law_outputs_read_back(
            begun.buffers(),
            runtime.info,
            match outcome {
                ResultView::Prepared(OutcomeView::Done(values)) => values,
                _ => Seq::empty(),
            },
        );
        assert forall|i: int| 0 <= i < targets.len() implies #[trigger] output_fault(
            specs,
            targets,
            i,
        ) is None by {
            lemma_no_target_fault(tensors, targets, 0, i);
            lemma_first_index(tensor_names(tensors), targets[i].name, 0);
            let at = first_index(spec_names(specs), targets[i].name, 0)->0;
            assert(slot_matches(tensors[at], specs[at]));
            assert(targets[i].data.len() <= usize::MAX);
        }
        lemma_outputs_without_fault(specs, targets, 0);
        lemma_pouring_copies(tensors, targets, targets.len() as int);
        assert(poured(tensors, targets).0 =~= copied_targets(tensors, targets));
    }
}

// ---------------------------------------------------------------------------
// Fallback

/// A failure of the current candidate moves on to the next one and adds one event
/// that names it, behind the earlier ones.
pub proof fn law_fallback_moves_on(runtime: RuntimeView, error: ErrorView)
    requires
        runtime.wf(),
        runtime.candidate < runtime.candidates().len(),
    ensures
        ({
            let after = runtime.given_up(error);
            &&& after.wf()
            &&& after.candidate == runtime.candidate + 1
            &&& after.candidates() == runtime.candidates()
            &&& after.events == runtime.events.push(
                FailureView {
                    backend: runtime.candidates()[runtime.candidate].label(),
                    error: error.report(),
                },
            )
            &&& after.active is None
        }),
{
}

/// Only failures are recorded: an inference that is begun on accepted inputs and whose
/// run succeeds adds no event and stays with the same candidate.
pub proof fn law_only_failures_are_recorded(
    runtime: RuntimeView,
    inputs: Seq<TensorModel>,
    outcome: ResultView,
)
    requires
        runtime.wf(),
        runtime.active is Some,
        storable(inputs),
        inputs_fault(runtime.info.inputs, inputs) is None,
        runtime.attempted(inputs).admits(outcome),
        runtime.attempted(inputs).produced(outcome) is Ok,
    ensures
        ({
            let after = runtime.attempted(inputs).finished(outcome);
            &&& after.events == runtime.events
            &&& after.candidate == runtime.candidate
            &&& after.active is Some
        }),
{
    law_accepted_inputs_are_run(runtime, inputs);
    if let Some(buffers) = runtime.active->0.buffers {
        law_accepted_inputs_can_be_fed(buffers.inputs, runtime.info.inputs, inputs);
    }
}

/// With a required provider or a compiled model a failed run is reported as it is
/// and changes nothing: the session stays active and no event is recorded.
pub proof fn law_required_providers_never_fall_back(runtime: RuntimeView, error: ErrorView)
    requires
        runtime.active is Some,
        runtime.options.backend.is_strict() || runtime.is_ep_context,
    ensures
        runtime.fallen_back(error) == runtime,
        runtime.fallback_fault(error) == Some(error),
{
}

/// When every candidate has failed, the report has one line for each, in order, and
/// nothing is active.
pub proof fn law_exhaustion_reports_every_candidate(runtime: RuntimeView)
    requires
        runtime.wf(),
        runtime.exhausted() is Some,
    ensures
        runtime.active is None,
        runtime.events.len() == runtime.candidates().len(),
        forall|i: int|
            0 <= i < runtime.candidates().len() ==> (#[trigger] runtime.events[i]).backend
                == runtime.candidates()[i].label(),
        runtime.exhausted() == Some(
            ErrorView::BackendsFailed {
                ep_context: runtime.is_ep_context,
                report: report_text(runtime.events),
            },
        ),
{
}

/// Whatever is asked of a well-formed runtime and whatever the native side reports,
/// it stays well-formed.
pub proof fn law_the_invariant_is_kept(
    runtime: RuntimeView,
    inputs: Seq<TensorModel>,
    outcome: ResultView,
    error: ErrorView,
    session: SessionView,
    info: InfoView,
)
    requires
        runtime.wf(),
    ensures
        runtime.attempted(inputs).wf(),
        runtime.into_attempted(inputs).wf(),
        runtime.admits(outcome) ==> runtime.finished(outcome).wf(),
        runtime.fallen_back(error).wf(),
        runtime.is_loading() ==> runtime.given_up(error).wf(),
        runtime.is_loading() && fits_candidate(runtime, session, info) ==> runtime.activated(
            session,
            info,
        ).wf(),
{
    if runtime.active is Some {
        lemma_feeding_keeps_wf(runtime, inputs);
    }
    if runtime.admits(outcome) {
        if let ResultView::Prepared(prepared) = outcome {
            lemma_recording_keeps_wf(runtime, prepared);
        }
    }
}

/// Every operation ends: opening a candidate, failing to open it, and a failed run
/// that does not end the operation each leave fewer steps, and after such a run there
/// is a candidate to open.
pub proof fn law_operations_end(
    runtime: RuntimeView,
    outcome: ResultView,
    error: ErrorView,
    session: SessionView,
    info: InfoView,
)
    requires
        runtime.wf(),
    ensures
        runtime.steps_left() >= 0,
        runtime.is_loading() ==> runtime.given_up(error).steps_left() < runtime.steps_left(),
        runtime.is_loading() ==> runtime.activated(session, info).steps_left()
            < runtime.steps_left(),
        runtime.admits(outcome) && runtime.produced(outcome) is Err && runtime.end(outcome) is None
            ==> {
            &&& runtime.finished(outcome).is_loading()
            &&& runtime.finished(outcome).steps_left() < runtime.steps_left()
        },
{
}

/// Editing an input through its borrow keeps the invariant: a borrower can change
/// elements, but neither their type nor their number.
pub proof fn law_editing_keeps_the_invariant(runtime: RuntimeView, at: int, data: Elements)
    requires
        runtime.wf(),
        runtime.prepared(),
        0 <= at < runtime.buffers().inputs.len(),
        data.dtype() == runtime.buffers().inputs[at].data.dtype(),
        data.len() == runtime.buffers().inputs[at].data.len(),
    ensures
        runtime.edited(at, data).wf(),
{
    let before = runtime.buffers();
    let after = before.edited(at, data);
    assert forall|i: int| 0 <= i < after.inputs.len() implies slot_matches(
        #[trigger] after.inputs[i],
        runtime.info.inputs[i],
    ) by {
        assert(slot_matches(before.inputs[i], runtime.info.inputs[i]));
    }
}

/// An inference on accepted inputs reaches the native run at the first attempt: it is
/// never the library's own doing that a session is given up.
pub proof fn law_accepted_inputs_are_run(runtime: RuntimeView, inputs: Seq<TensorModel>)
    requires
        runtime.wf(),
        runtime.active is Some,
        storable(inputs),
        inputs_fault(runtime.info.inputs, inputs) is None,
    ensures
        runtime.attempt(inputs) == Ok::<Step, ErrorView>(
            Step::Run(runtime.active->0.native_run()),
        ),
{
    if let Some(buffers) = runtime.active->0.buffers {
        law_accepted_inputs_can_be_fed(buffers.inputs, runtime.info.inputs, inputs);
    }
}

/// An inference returns one tensor per output of the model, in model order, under its
/// name and with its element type, whether the session keeps tensors or not.
pub proof fn law_outputs_come_in_model_order(runtime: RuntimeView, outcome: ResultView)
    requires
        runtime.wf(),
        runtime.admits(outcome),
        runtime.produced(outcome) is Ok,
    ensures
        runtime.produced(outcome)->Ok_0.len() == runtime.info.outputs.len(),
        forall|i: int|
            0 <= i < runtime.info.outputs.len() ==> {
                let tensor = #[trigger] runtime.produced(outcome)->Ok_0[i];
                &&& tensor.name == runtime.info.outputs[i].name
                &&& tensor.data.dtype() == runtime.info.outputs[i].dtype
            },
{
    lemma_outputs_come_in_model_order(runtime, outcome);
}

// ---------------------------------------------------------------------------
// Sessions

/// Automatic placement, parallel execution and dynamic shapes keep CUDA graphs off,
/// whatever the settings say.
pub proof fn law_graphs_need_strict_fixed_sequential_sessions(
    options: OnnxOptions,
    index: int,
    is_ep_context: bool,
    declared: InfoView,
)
    requires
        captures_graph(options, index, is_ep_context, declared),
    ensures
        options.backend.is_strict() || is_ep_context,
        !options.parallel_execution,
        is_eligible(declared),
        options.backend.list()[index] == Backend::Cuda || options.backend.list()[index]
            == Backend::TensorRt,
{
}

/// Only a successful run completes a capture; a failed one leaves it to come, so the
/// next run is again made alone.
pub proof fn law_failed_runs_leave_the_capture_pending(session: SessionView, outcome: OutcomeView)
    ensures
        !(outcome is Done) ==> session.finished(outcome).capture_pending
            == session.capture_pending,
        outcome is Done ==> !session.finished(outcome).capture_pending,
        session.finished(outcome).graph_enabled == session.graph_enabled,
{
}

/// A session that captures graphs keeps tensors for its inputs and outputs.
pub proof fn law_graph_sessions_keep_tensors(
    options: OnnxOptions,
    index: int,
    is_ep_context: bool,
    declared: InfoView,
    inputs: Seq<OutletView>,
    outputs: Seq<OutletView>,
)
    requires
        opened(options, index, is_ep_context, declared, inputs, outputs) is Ok,
    ensures
        ({
            let session = opened(
                options,
                index,
                is_ep_context,
                declared,
                inputs,
                outputs,
            )->Ok_0.0;
            &&& session.graph_enabled ==> session.buffers is Some
            &&& session.graph_enabled == captures_graph(options, index, is_ep_context, declared)
            &&& session.capture_pending == session.graph_enabled
        }),
{
}

/// An unknown rank stays unknown: it never turns into a scalar, and a known rank
/// never becomes unknown.
pub proof fn law_unknown_rank_is_kept(outlet: OutletView, declared: Seq<SpecView>)
    requires
        outlet_spec(outlet, declared) is Ok,
    ensures
        outlet_spec(outlet, declared)->Ok_0.shape is None <==> is_rank_unknown(
            declared,
            outlet.name,
        ),
{
}

/// The session of a CPU candidate does not depend on settings of GPU providers.
pub proof fn law_cpu_ignores_gpu_settings(
    a: OnnxOptions,
    b: OnnxOptions,
    index: int,
    is_ep_context: bool,
    declared: InfoView,
    cuda_graph: bool,
    build_directory: Option<HostText>,
    tf32_override: Option<HostText>,
    tensorrt_cache: Option<HostText>,
)
    requires
        a.backend == b.backend,
        a.backend.list()[index] == Backend::Cpu,
    ensures
        stream_device(a, index, tf32_override) == Ok::<Option<i32>, ErrorView>(None),
        stream_device(b, index, tf32_override) == stream_device(a, index, tf32_override),
        !captures_graph(a, index, is_ep_context, declared),
        !captures_graph(b, index, is_ep_context, declared),
        planned_providers(
            a,
            index,
            is_ep_context,
            cuda_graph,
            build_directory,
            tf32_override,
            tensorrt_cache,
        ) == planned_providers(
            b,
            index,
            is_ep_context,
            cuda_graph,
            build_directory,
            tf32_override,
            tensorrt_cache,
        ),
{
}

/// Settings of providers that a session does not use are ignored: a CUDA session
/// depends on no TensorRT settings, a TensorRT session under strict placement on no
/// CUDA settings, and other sessions on neither.
pub proof fn law_settings_of_unused_providers_are_ignored(
    a: OnnxOptions,
    b: OnnxOptions,
    index: int,
    is_ep_context: bool,
    declared: InfoView,
    cuda_graph: bool,
    build_directory: Option<HostText>,
    tf32_override: Option<HostText>,
    tensorrt_cache: Option<HostText>,
)
    requires
        a.backend == b.backend,
        a.parallel_execution == b.parallel_execution,
        a.backend.list()[index] == Backend::Cuda ==> a.cuda == b.cuda,
        a.backend.list()[index] == Backend::TensorRt ==> a.tensorrt == b.tensorrt && (is_strict(
            a,
            is_ep_context,
        ) || a.cuda == b.cuda),
    ensures
        stream_device(a, index, tf32_override) == stream_device(b, index, tf32_override),
        captures_graph(a, index, is_ep_context, declared) == captures_graph(
            b,
            index,
            is_ep_context,
            declared,
        ),
        opened_buffers(a, index, is_ep_context, declared) == opened_buffers(
            b,
            index,
            is_ep_context,
            declared,
        ),
        planned_providers(
            a,
            index,
            is_ep_context,
            cuda_graph,
            build_directory,
            tf32_override,
            tensorrt_cache,
        ) == planned_providers(
            b,
            index,
            is_ep_context,
            cuda_graph,
            build_directory,
            tf32_override,
            tensorrt_cache,
        ),
{
}

/// Strict placement registers exactly one provider.
pub proof fn law_strict_sessions_register_one_provider(
    options: OnnxOptions,
    index: int,
    is_ep_context: bool,
    cuda_graph: bool,
    build_directory: Option<HostText>,
    tf32_override: Option<HostText>,
    tensorrt_cache: Option<HostText>,
)
    requires
        is_strict(options, is_ep_context),
    ensures
        planned_providers(
            options,
            index,
            is_ep_context,
            cuda_graph,
            build_directory,
            tf32_override,
            tensorrt_cache,
        ) matches Ok(plans) ==> plans.len() == 1,
{
}

} // verus!
