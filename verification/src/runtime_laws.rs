//! What holds of loading, inference and fallback, from the caller's side.
use crate::api::{
    compiled_format, explained_device, explained_providers, failure_views, input_fault,
    inputs_fault, inputs_fault_from, into_result, loaded, output_fault, outputs_fault,
    outputs_fault_from, poured, poured_one, report_text, runtime_result, source_fault, spec_names,
    spec_views, step_result, CompiledFormat, FailureView, FallbackEvent, InfoView, IntoStep,
    JobView, ModelInfo, OnnxRuntime, Outcome, ResultView, RuntimeView, Step,
};
use crate::buffers::{fed, slot_matches, BuffersView, OutcomeView, RunOutcome};
use crate::diagnostics::explained;
use crate::engine::{inspected_model, GraphView, ModelFormat};
use crate::error::{Error, ErrorView, Fault, NamedFault};
use crate::laws::{
    distinct_names, law_accepted_inputs_are_run, law_accepted_inputs_can_be_fed,
    law_checked_buffers_are_filled, law_fed_tensors_hold_their_inputs,
    law_inputs_are_given_exactly_once, storable,
};
use crate::options::{Backend, BackendSelection, HostText, OnnxOptions};
use crate::session::{NativeRun, ProviderView, SessionView};
use crate::session_laws::law_dynamic_results_keep_their_shapes;
use crate::tensor::{
    fixed_dims, law_validation_is_exact, product, repeated, target_models, tensor_models,
    tensor_names, view_models, Elements, SpecView, Tensor, TensorModel, TensorSpec, TensorView,
    TensorViewMut,
};
use crate::text::{first_index, lemma_first_index};
use vstd::prelude::*;

verus! {

// ---------------------------------------------------------------------------
// Fallback

/// Whether an inference failed natively, or gave outputs that cannot be returned.
pub open spec fn is_failure(outcome: ResultView) -> bool {
    match outcome {
        ResultView::Prepared(OutcomeView::Done(_)) => false,
        ResultView::Prepared(_) => true,
        ResultView::Dynamic(Err(_)) => true,
        ResultView::Dynamic(Ok(values)) => exists|i: int, k: int|
            0 <= i < values.len() && 0 <= k < values[i].shape.len() && !(0
                <= #[trigger] values[i].shape[k] <= usize::MAX),
    }
}

/// A run fails exactly when the native run failed or returned a dimension that is no
/// size, and never otherwise.
pub proof fn law_runs_fail_natively(runtime: RuntimeView, outcome: ResultView)
    requires
        runtime.admits(outcome),
    ensures
        runtime.produced(outcome) is Err <==> is_failure(outcome),
        outcome matches ResultView::Dynamic(Err(error)) ==> runtime.produced(outcome) == Err::<
            Seq<TensorModel>,
            ErrorView,
        >(error),
{
    if let ResultView::Dynamic(Ok(values)) = outcome {
        law_dynamic_results_keep_their_shapes(runtime, values);
        if is_failure(outcome) && runtime.produced(outcome) is Ok {
            let tensors = runtime.produced(outcome)->Ok_0;
            let (i, k) = choose|i: int, k: int|
                0 <= i < values.len() && 0 <= k < values[i].shape.len() && !(0
                    <= #[trigger] values[i].shape[k] <= usize::MAX);
            assert(tensors[i].shape.len() == values[i].shape.len());
            assert(tensors[i].shape[k] as int == values[i].shape[k] as int);
        }
    }
}

/// Under automatic selection of an ordinary graph a failed run of the active session,
/// whatever its provider, gives up that provider and no more: the state after it has no
/// active session, the next candidate, and one more event, which names the candidate
/// and says why it failed. As long as a candidate is left, the operation does not end
/// with an error; with none left it ends with the report of all failures.
pub proof fn law_failed_runs_move_on(
    runtime: RuntimeView,
    list: Vec<Backend>,
    outcome: ResultView,
)
    requires
        runtime.wf(),
        runtime.active is Some,
        !runtime.is_ep_context,
        runtime.options.backend == BackendSelection::Auto(list),
        runtime.admits(outcome),
        is_failure(outcome),
    ensures
        ({
            let after = runtime.finished(outcome);
            &&& runtime.candidate < list@.len()
            &&& after.active is None
            &&& after.candidate == runtime.candidate + 1
            &&& after.events.len() == runtime.events.len() + 1
            &&& forall|i: int|
                0 <= i < runtime.events.len() ==> #[trigger] after.events[i] == runtime.events[i]
            &&& after.events.last().backend == list@[runtime.candidate].label()
            &&& after.events.last().error == (runtime.produced(outcome)->Err_0).report()
            &&& after.options == runtime.options
            &&& after.info == runtime.info
            &&& after.is_ep_context == runtime.is_ep_context
            &&& after.build_directory == runtime.build_directory
            &&& runtime.candidate + 1 < list@.len() ==> {
                &&& runtime.end(outcome) is None
                &&& after.is_loading()
            }
            &&& runtime.candidate + 1 == list@.len() ==> runtime.end(outcome) == Some(
                ErrorView::BackendsFailed { ep_context: false, report: report_text(after.events) },
            )
        }),
{
    law_runs_fail_natively(runtime, outcome);
}

/// With a required provider or a compiled model a failed run is final: its error is the
/// result, the session stays active and nothing is recorded as given up.
pub proof fn law_final_runs_return_their_error(runtime: RuntimeView, outcome: ResultView)
    requires
        runtime.wf(),
        runtime.active is Some,
        runtime.is_ep_context || runtime.options.backend is Require,
        runtime.admits(outcome),
        is_failure(outcome),
    ensures
        ({
            let after = runtime.finished(outcome);
            &&& runtime.produced(outcome) is Err
            &&& runtime.end(outcome) == Some(runtime.produced(outcome)->Err_0)
            &&& after.active is Some
            &&& after.candidate == runtime.candidate
            &&& after.events == runtime.events
            &&& after.options == runtime.options
            &&& after.info == runtime.info
        }),
{
    law_runs_fail_natively(runtime, outcome);
}

/// A successful run ends without an error and keeps its session, its candidate and the
/// events.
pub proof fn law_successful_runs_stay(runtime: RuntimeView, outcome: ResultView)
    requires
        runtime.wf(),
        runtime.admits(outcome),
        !is_failure(outcome),
    ensures
        ({
            let after = runtime.finished(outcome);
            &&& runtime.end(outcome) is None
            &&& runtime.produced(outcome) is Ok
            &&& after.active is Some
            &&& after.candidate == runtime.candidate
            &&& after.events == runtime.events
            &&& after.options == runtime.options
            &&& after.info == runtime.info
            &&& after.active->0.backend_index == runtime.active->0.backend_index
            &&& after.active->0.graph_enabled == runtime.active->0.graph_enabled
        }),
{
    law_runs_fail_natively(runtime, outcome);
}

/// A failed stage of a kept run is reported with that stage in front of its cause.
pub proof fn law_stages_are_named(outcome: OutcomeView)
    ensures
        match outcome {
            OutcomeView::Done(_) => outcome.fault() is None,
            OutcomeView::Refused(error) => outcome.fault() == Some(error),
            OutcomeView::BindFailed(error) => outcome.fault() == Some(error),
            OutcomeView::OutputFailed(error) => outcome.fault() == Some(error),
            OutcomeView::UploadFailed(error) => outcome.fault() is Some
                && outcome.fault()->0.report() == "Pinned H2D transfers"@ + ": "@ + error.report(),
            OutcomeView::InferenceFailed(error) => outcome.fault() is Some
                && outcome.fault()->0.report() == "Inference"@ + ": "@ + error.report(),
            OutcomeView::DownloadFailed(error) => outcome.fault() is Some
                && outcome.fault()->0.report() == "Pinned D2H transfers"@ + ": "@ + error.report(),
        },
{
}

/// A candidate that cannot be opened is given up in every mode: the event names it and
/// says why, and the next one is tried, until none is left.
pub proof fn law_failed_loads_move_on(runtime: RuntimeView, error: ErrorView)
    requires
        runtime.wf(),
        runtime.is_loading(),
    ensures
        ({
            let after = runtime.given_up(error);
            &&& after.active is None
            &&& after.candidate == runtime.candidate + 1
            &&& after.events.len() == runtime.events.len() + 1
            &&& forall|i: int|
                0 <= i < runtime.events.len() ==> #[trigger] after.events[i] == runtime.events[i]
            &&& after.events.last().error == error.report()
            &&& match runtime.options.backend {
                BackendSelection::Require(backend) => {
                    &&& after.events.last().backend == backend.label()
                    &&& after.exhausted() is Some
                },
                BackendSelection::Auto(list) => {
                    &&& after.events.last().backend == list@[runtime.candidate].label()
                    &&& after.exhausted() is None <==> runtime.candidate + 1 < list@.len()
                },
            }
            &&& after.options == runtime.options
            &&& after.info == runtime.info
            &&& after.is_ep_context == runtime.is_ep_context
            &&& after.build_directory == runtime.build_directory
        }),
{
}

/// Without a candidate left the error reports every failure and says whether a compiled
/// model was to be loaded; with one left there is no error.
pub proof fn law_exhaustion_is_reported_at_the_end_only(runtime: RuntimeView)
    requires
        runtime.wf(),
    ensures
        match runtime.exhausted() {
            None => runtime.candidate < runtime.options.backend.list().len(),
            Some(error) => {
                &&& runtime.candidate == runtime.options.backend.list().len()
                &&& error == (ErrorView::BackendsFailed {
                    ep_context: runtime.is_ep_context,
                    report: report_text(runtime.events),
                })
            },
        },
{
}

/// The report of failures has one line for each event, in their order: indented, the
/// provider's name, a colon and the error.
pub proof fn law_reports_grow_line_by_line(events: Seq<FailureView>, event: FailureView)
    ensures
        events.len() == 0 ==> report_text(events.push(event)) == "  "@ + event.backend + ": "@
            + event.error,
        events.len() > 0 ==> report_text(events.push(event)) == report_text(events) + "\n"@ + ("  "@
            + event.backend + ": "@ + event.error),
{
    assert(events.push(event).drop_last() =~= events);
    assert(events.push(event).last() == event);
}

/// An opened candidate becomes active as it is, its metadata replaces what the model
/// file declares, and the build directory of a compilation is forgotten.
pub proof fn law_opened_candidates_become_active(
    runtime: RuntimeView,
    session: SessionView,
    info: InfoView,
)
    ensures
        ({
            let after = runtime.activated(session, info);
            &&& after.active == Some(session)
            &&& after.info == info
            &&& after.build_directory is None
            &&& after.candidate == runtime.candidate
            &&& after.events == runtime.events
            &&& after.options == runtime.options
            &&& after.is_ep_context == runtime.is_ep_context
        }),
{
}

// ---------------------------------------------------------------------------
// Feeding

/// Feeding changes elements only: the kept inputs keep their number, names and shapes,
/// and the kept outputs stay as they are, unreadable until the next run.
pub proof fn law_feeding_changes_elements_only(buffers: BuffersView, inputs: Seq<TensorModel>)
    ensures
        ({
            let after = buffers.fed(inputs);
            &&& after.inputs.len() == buffers.inputs.len()
            &&& forall|i: int|
                0 <= i < buffers.inputs.len() ==> {
                    &&& (#[trigger] after.inputs[i]).name == buffers.inputs[i].name
                    &&& after.inputs[i].shape == buffers.inputs[i].shape
                    &&& after.inputs[i].data.dtype() == buffers.inputs[i].data.dtype()
                    &&& after.inputs[i].data.len() == buffers.inputs[i].data.len()
                    &&& after.inputs[i].data == buffers.inputs[i].data || exists|j: int|
                        0 <= j < inputs.len() && (#[trigger] inputs[j]).name
                            == buffers.inputs[i].name && inputs[j].data == after.inputs[i].data
                }
            &&& after.outputs == buffers.outputs
            &&& !after.outputs_valid && !after.outputs_held
            &&& after.device_id == buffers.device_id
            &&& after.rebind_inputs == buffers.rebind_inputs
            &&& after.inputs_bound == buffers.inputs_bound
        }),
{
    lemma_feeding_changes_elements_only(buffers.inputs, inputs);
}

proof fn lemma_feeding_changes_elements_only(slots: Seq<TensorModel>, inputs: Seq<TensorModel>)
    ensures
        fed(slots, inputs).0.len() == slots.len(),
        forall|i: int|
            0 <= i < slots.len() ==> {
                &&& (#[trigger] fed(slots, inputs).0[i]).name == slots[i].name
                &&& fed(slots, inputs).0[i].shape == slots[i].shape
                &&& fed(slots, inputs).0[i].data.dtype() == slots[i].data.dtype()
                &&& fed(slots, inputs).0[i].data.len() == slots[i].data.len()
                &&& fed(slots, inputs).0[i].data == slots[i].data || exists|j: int|
                    0 <= j < inputs.len() && (#[trigger] inputs[j]).name == slots[i].name
                        && inputs[j].data == fed(slots, inputs).0[i].data
            },
    decreases inputs.len(),
{
    if inputs.len() > 0 {
        let front = inputs.drop_last();
        let last = inputs.last();
        lemma_feeding_changes_elements_only(slots, front);
        let before = fed(slots, front).0;
        let after = fed(slots, inputs).0;
        let names = tensor_names(before);
        lemma_first_index(names, last.name, 0);
        assert(inputs[inputs.len() - 1] == last);
        assert forall|i: int| 0 <= i < slots.len() implies {
            &&& (#[trigger] after[i]).name == slots[i].name
            &&& after[i].shape == slots[i].shape
            &&& after[i].data.dtype() == slots[i].data.dtype()
            &&& after[i].data.len() == slots[i].data.len()
            &&& after[i].data == slots[i].data || exists|j: int|
                0 <= j < inputs.len() && (#[trigger] inputs[j]).name == slots[i].name
                    && inputs[j].data == after[i].data
        } by {
            let mid = before[i];
            assert(mid.name == slots[i].name);
            if after[i] == mid {
                if mid.data != slots[i].data {
                    let j = choose|j: int|
                        0 <= j < front.len() && (#[trigger] front[j]).name == slots[i].name
                            && front[j].data == mid.data;
                    assert(inputs[j] == front[j]);
                }
            } else {
                assert(names[i] == mid.name);
                assert(after[i].data == inputs[inputs.len() - 1].data);
            }
        }
    }
}

/// An inference with accepted inputs on kept tensors runs on exactly those: each input
/// tensor holds the elements that were given under its name, and nothing else of the
/// state but the readiness of the outputs changes.
pub proof fn law_inference_runs_on_its_inputs(runtime: RuntimeView, inputs: Seq<TensorModel>)
    requires
        runtime.wf(),
        runtime.prepared(),
        storable(inputs),
        inputs_fault(runtime.info.inputs, inputs) is None,
    ensures
        ({
            let after = runtime.attempted(inputs);
            &&& runtime.attempt(inputs) matches Ok(Step::Run(NativeRun::Prepared { access, plan }))
            &&& after.prepared()
            &&& forall|j: int|
                0 <= j < inputs.len() ==> exists|s: int|
                    0 <= s < after.buffers().inputs.len() && (
                    #[trigger] after.buffers().inputs[s]).name == (#[trigger] inputs[j]).name
                        && after.buffers().inputs[s].data == inputs[j].data
            &&& after.buffers().inputs.len() == inputs.len()
            &&& after.buffers().outputs == runtime.buffers().outputs
            &&& !after.buffers().outputs_valid
            &&& after.candidate == runtime.candidate
            &&& after.events == runtime.events
            &&& after.options == runtime.options
            &&& after.info == runtime.info
            &&& after.active->0.capture_pending == runtime.active->0.capture_pending
            &&& after.active->0.graph_enabled == runtime.active->0.graph_enabled
        }),
{
    let slots = runtime.buffers().inputs;
    let after = runtime.attempted(inputs);
    law_accepted_inputs_are_run(runtime, inputs);
    law_accepted_inputs_can_be_fed(slots, runtime.info.inputs, inputs);
    law_inputs_are_given_exactly_once(runtime.info.inputs, inputs);
    law_fed_tensors_hold_their_inputs(slots, inputs);
    law_feeding_changes_elements_only(runtime.buffers(), inputs);
    assert forall|j: int| 0 <= j < inputs.len() implies exists|s: int|
        0 <= s < after.buffers().inputs.len() && (#[trigger] after.buffers().inputs[s]).name == (
        #[trigger] inputs[j]).name && after.buffers().inputs[s].data == inputs[j].data by {
        lemma_first_index(tensor_names(slots), inputs[j].name, 0);
        let s = first_index(tensor_names(slots), inputs[j].name, 0)->0;
        assert(tensor_names(slots)[s] == slots[s].name);
        assert(after.buffers().inputs[s].data == inputs[j].data);
        assert(after.buffers().inputs[s].name == inputs[j].name);
    }
}

/// A session without kept tensors runs on the given inputs and is not changed by them.
/// Without a session nothing is run and nothing changes.
pub proof fn law_inference_without_kept_tensors(runtime: RuntimeView, inputs: Seq<TensorModel>)
    requires
        runtime.wf(),
        !runtime.prepared(),
    ensures
        runtime.attempted(inputs) == runtime,
        match runtime.attempt(inputs) {
            Ok(Step::Run(run)) => runtime.active is Some && run is Dynamic,
            Ok(Step::Load) => false,
            Err(error) => runtime.active is None && error == ErrorView::Fault(
                Fault::NoActiveBackend,
            ),
        },
        runtime.into_attempted(inputs) == runtime,
        runtime.into_attempt(inputs) matches Ok(step) ==> {
            &&& step matches IntoStep::Collect(Step::Run(run)) && run is Dynamic
            &&& runtime.active is Some
            &&& inputs_fault(runtime.info.inputs, inputs) is None
        },
        runtime.active is Some && inputs_fault(runtime.info.inputs, inputs) is None
            ==> runtime.into_attempt(inputs) is Ok,
{
}

/// An outcome is taken only from the run that was asked for and only where it fits the
/// model: one value for each output, of its element type, and for kept tensors with as
/// many elements as they hold.
pub proof fn law_outcomes_fit_the_model(runtime: RuntimeView, outcome: ResultView)
    requires
        runtime.wf(),
    ensures
        runtime.admits(outcome) <==> match outcome {
            ResultView::Dynamic(Err(_)) => runtime.active is Some && !runtime.prepared(),
            ResultView::Dynamic(Ok(values)) => {
                &&& runtime.active is Some && !runtime.prepared()
                &&& values.len() == runtime.info.outputs.len()
                &&& forall|i: int|
                    0 <= i < values.len() ==> (#[trigger] values[i]).data.dtype()
                        == runtime.info.outputs[i].dtype
            },
            ResultView::Prepared(OutcomeView::Done(values)) => {
                &&& runtime.prepared()
                &&& values.len() == runtime.info.outputs.len()
                &&& forall|i: int|
                    0 <= i < values.len() ==> {
                        &&& (#[trigger] values[i]).dtype() == runtime.info.outputs[i].dtype
                        &&& values[i].len() == runtime.buffers().outputs[i].data.len()
                    }
            },
            ResultView::Prepared(_) => runtime.prepared(),
        },
        runtime.prepared() <==> (runtime.active matches Some(session) && session.buffers is Some),
{
    if runtime.prepared() {
        assert forall|i: int| 0 <= i < runtime.info.outputs.len() implies (
        #[trigger] runtime.buffers().outputs[i]).data.dtype() == runtime.info.outputs[i].dtype by {
            assert(slot_matches(runtime.buffers().outputs[i], runtime.info.outputs[i]));
        }
        if let ResultView::Prepared(OutcomeView::Done(values)) = outcome {
            if runtime.admits(outcome) {
                assert forall|i: int| 0 <= i < values.len() implies {
                    &&& (#[trigger] values[i]).dtype() == runtime.info.outputs[i].dtype
                    &&& values[i].len() == runtime.buffers().outputs[i].data.len()
                } by {
                    assert(runtime.buffers().outputs[i].data.dtype()
                        == runtime.info.outputs[i].dtype);
                }
            } else if values.len() == runtime.info.outputs.len() {
                let i = choose|i: int|
                    0 <= i < values.len() && !((#[trigger] values[i]).dtype()
                        == runtime.buffers().outputs[i].data.dtype() && values[i].len()
                        == runtime.buffers().outputs[i].data.len());
                assert(runtime.buffers().outputs[i].data.dtype() == runtime.info.outputs[i].dtype);
            }
        }
    }
}

/// Editing a kept input replaces its elements, keeps every other input and the name and
/// shape of this one, and makes the outputs unreadable until the next run.
pub proof fn law_edits_change_one_input(runtime: RuntimeView, at: int, data: Elements)
    requires
        runtime.prepared(),
        0 <= at < runtime.buffers().inputs.len(),
    ensures
        ({
            let after = runtime.edited(at, data);
            &&& after.prepared()
            &&& after.buffers().inputs.len() == runtime.buffers().inputs.len()
            &&& after.buffers().inputs[at].data == data
            &&& after.buffers().inputs[at].name == runtime.buffers().inputs[at].name
            &&& after.buffers().inputs[at].shape == runtime.buffers().inputs[at].shape
            &&& forall|i: int|
                0 <= i < runtime.buffers().inputs.len() && i != at ==> #[trigger] after.buffers(
                ).inputs[i] == runtime.buffers().inputs[i]
            &&& !after.buffers().outputs_valid
            &&& after.buffers().outputs == runtime.buffers().outputs
            &&& after.buffers().inputs_bound == runtime.buffers().inputs_bound
            &&& after.candidate == runtime.candidate
            &&& after.events == runtime.events
            &&& after.info == runtime.info
            &&& after.options == runtime.options
        }),
{
}

// ---------------------------------------------------------------------------
// Results of kept tensors

/// A completed run of kept tensors leaves in each output, under its name and shape, the
/// elements that came back for it, and returns the same; the inputs stay as they were.
/// The shape is the one that the model states.
pub proof fn law_completed_runs_hold_their_values(
    runtime: RuntimeView,
    values: Seq<Elements>,
)
    requires
        runtime.wf(),
        runtime.prepared(),
        runtime.admits(ResultView::Prepared(OutcomeView::Done(values))),
    ensures
        ({
            let outcome = ResultView::Prepared(OutcomeView::Done(values));
            let after = runtime.finished(outcome);
            &&& after.prepared()
            &&& after.buffers().outputs_valid
            &&& after.buffers().inputs == runtime.buffers().inputs
            &&& after.buffers().inputs_bound
            &&& !after.active->0.capture_pending
            &&& after.buffers().outputs.len() == values.len()
            &&& values.len() == runtime.info.outputs.len()
            &&& forall|i: int|
                0 <= i < values.len() ==> {
                    let output = #[trigger] after.buffers().outputs[i];
                    let spec = runtime.info.outputs[i];
                    &&& output.data == values[i]
                    &&& output.name == spec.name
                    &&& spec.shape is Some
                    &&& output.shape.len() == (spec.shape->0).len()
                    &&& forall|k: int|
                        0 <= k < output.shape.len() ==> #[trigger] (spec.shape->0)[k] == Some(
                            output.shape[k],
                        )
                }
            &&& runtime.produced(outcome) == Ok::<Seq<TensorModel>, ErrorView>(
                after.buffers().outputs,
            )
        }),
{
    let after = runtime.finished(ResultView::Prepared(OutcomeView::Done(values)));
    assert forall|i: int| 0 <= i < values.len() implies {
        let output = #[trigger] after.buffers().outputs[i];
        let spec = runtime.info.outputs[i];
        &&& output.data == values[i]
        &&& output.name == spec.name
        &&& spec.shape is Some
        &&& output.shape.len() == (spec.shape->0).len()
        &&& forall|k: int|
            0 <= k < output.shape.len() ==> #[trigger] (spec.shape->0)[k] == Some(output.shape[k])
    } by {
        assert(slot_matches(runtime.buffers().outputs[i], runtime.info.outputs[i]));
    }
}

/// Outputs can be read after a completed run, and after a refused one that would have
/// replaced readable outputs, and at no other time. A run that did not complete changes
/// neither inputs nor outputs; inputs count as bound once binding is passed.
pub proof fn law_only_completed_runs_can_be_read(buffers: BuffersView, outcome: OutcomeView)
    ensures
        ({
            let after = buffers.begun().finished(outcome);
            &&& after.outputs_valid <==> outcome is Done || (outcome is Refused
                && buffers.outputs_valid)
            &&& !(outcome is Done) ==> after.outputs == buffers.outputs
            &&& after.inputs == buffers.inputs
            &&& after.device_id == buffers.device_id
            &&& after.rebind_inputs == buffers.rebind_inputs
            &&& after.inputs_bound <==> buffers.inputs_bound || match outcome {
                OutcomeView::Refused(_) => false,
                OutcomeView::UploadFailed(_) => false,
                OutcomeView::BindFailed(_) => false,
                OutcomeView::InferenceFailed(_) => true,
                OutcomeView::OutputFailed(_) => true,
                OutcomeView::DownloadFailed(_) => true,
                OutcomeView::Done(_) => true,
            }
            &&& !buffers.begun().outputs_valid
            &&& !buffers.invalidated().outputs_valid
            &&& buffers.invalidated().inputs == buffers.inputs
        }),
{
}

// ---------------------------------------------------------------------------
// Checks of tensors

/// Whether a tensor's shape is the fixed one of a specification.
pub open spec fn has_shape(spec: SpecView, shape: Seq<usize>) -> bool {
    &&& spec.shape is Some
    &&& (spec.shape->0).len() == shape.len()
    &&& forall|k: int| 0 <= k < shape.len() ==> #[trigger] (spec.shape->0)[k] == Some(shape[k])
}

/// Whether an output buffer can take an output: the name, the element type and every
/// dimension agree, and there is one element for each place.
pub open spec fn can_take(spec: SpecView, target: TensorModel) -> bool {
    &&& spec.name == target.name
    &&& spec.dtype == target.data.dtype()
    &&& has_shape(spec, target.shape)
    &&& target.data.len() == product(target.shape)
}

/// Whether no two specifications have the same name.
pub open spec fn distinct_specs(specs: Seq<SpecView>) -> bool {
    forall|i: int, j: int|
        0 <= i < j < specs.len() ==> (#[trigger] specs[i]).name != (#[trigger] specs[j]).name
}

proof fn lemma_output_fault(specs: Seq<SpecView>, outputs: Seq<TensorModel>, i: int)
    requires
        0 <= i < outputs.len(),
        distinct_specs(specs),
        storable(outputs),
    ensures
        output_fault(specs, outputs, i) is None <==> !repeated(outputs, i) && exists|s: int|
            0 <= s < specs.len() && can_take(#[trigger] specs[s], outputs[i]),
{
    let names = spec_names(specs);
    let output = outputs[i];
    lemma_first_index(names, output.name, 0);
    assert forall|s: int| 0 <= s < specs.len() && (#[trigger] specs[s]).name == output.name implies
        first_index(names, output.name, 0) == Some(s) by {
        assert(names[s] == specs[s].name);
        let at = first_index(names, output.name, 0)->0;
        assert(names[at] == specs[at].name);
    }
    if let Some(at) = first_index(names, output.name, 0) {
        assert(names[at] == specs[at].name);
        if fixed_dims(specs[at].shape) == Some(output.shape) {
            assert(has_shape(specs[at], output.shape));
        }
        if has_shape(specs[at], output.shape) {
            assert(fixed_dims(specs[at].shape)->0 =~= output.shape);
            assert(fixed_dims(specs[at].shape) == Some(output.shape));
        }
        if output_fault(specs, outputs, i) is None {
            assert(can_take(specs[at], output));
        }
    }
}

proof fn lemma_no_output_faults(specs: Seq<SpecView>, outputs: Seq<TensorModel>, from: int)
    requires
        0 <= from,
    ensures
        outputs_fault_from(specs, outputs, from) is None <==> forall|i: int|
            from <= i < outputs.len() ==> #[trigger] output_fault(specs, outputs, i) is None,
    decreases outputs.len() - from,
{
    if from < outputs.len() {
        lemma_no_output_faults(specs, outputs, from + 1);
        if outputs_fault_from(specs, outputs, from) is None {
            assert forall|i: int| from <= i < outputs.len() implies #[trigger] output_fault(
                specs,
                outputs,
                i,
            ) is None by {
                if i > from {
                    assert(outputs_fault_from(specs, outputs, from + 1) is None);
                }
            }
        }
    }
}

/// Output buffers are accepted exactly when there is one for each output, no name
/// occurs twice, and each can take the output of its name.
pub proof fn law_output_buffers_fit_the_model(specs: Seq<SpecView>, outputs: Seq<TensorModel>)
    requires
        distinct_specs(specs),
        storable(outputs),
    ensures
        outputs_fault(specs, outputs) is None <==> {
            &&& outputs.len() == specs.len()
            &&& distinct_names(outputs)
            &&& forall|i: int|
                0 <= i < outputs.len() ==> exists|s: int|
                    0 <= s < specs.len() && can_take(#[trigger] specs[s], #[trigger] outputs[i])
        },
{
    lemma_no_output_faults(specs, outputs, 0);
    assert forall|i: int| 0 <= i < outputs.len() implies (#[trigger] output_fault(specs, outputs, i)
        is None <==> !repeated(outputs, i) && exists|s: int|
        0 <= s < specs.len() && can_take(#[trigger] specs[s], outputs[i])) by {
        lemma_output_fault(specs, outputs, i);
    }
    if outputs_fault(specs, outputs) is None {
        assert forall|i: int, j: int| 0 <= i < j < outputs.len() implies (
        #[trigger] outputs[i]).name != (#[trigger] outputs[j]).name by {
            assert(output_fault(specs, outputs, j) is None);
        }
        assert forall|i: int| 0 <= i < outputs.len() implies exists|s: int|
            0 <= s < specs.len() && can_take(#[trigger] specs[s], #[trigger] outputs[i]) by {
            assert(output_fault(specs, outputs, i) is None);
        }
    } else if outputs.len() == specs.len() {
        let i = choose|i: int|
            0 <= i < outputs.len() && #[trigger] output_fault(specs, outputs, i) is Some;
        assert(outputs[i] == outputs[i]);
    }
}

/// Whether an input fits a specification: the name and the element type agree, every
/// known dimension is the tensor's, and there is one element for each place.
pub open spec fn fits(spec: SpecView, input: TensorModel) -> bool {
    &&& spec.name == input.name
    &&& spec.dtype == input.data.dtype()
    &&& spec.shape matches Some(dims) ==> {
        &&& dims.len() == input.shape.len()
        &&& forall|k: int|
            0 <= k < dims.len() ==> (#[trigger] dims[k] matches Some(n) ==> n == input.shape[k])
    }
    &&& input.data.len() == product(input.shape)
}

/// A tensor is accepted for a specification exactly when its name, its element type,
/// each known dimension and its number of elements agree.
pub proof fn law_tensors_are_checked_dimension_by_dimension(spec: SpecView, input: TensorModel)
    requires
        input.data.len() <= usize::MAX,
    ensures
        spec.fault(input) is None <==> fits(spec, input),
{
    law_validation_is_exact(spec, input);
}

proof fn lemma_first_input_fault(specs: Seq<SpecView>, inputs: Seq<TensorModel>, from: int)
    requires
        0 <= from,
    ensures
        match inputs_fault_from(specs, inputs, from) {
            None => true,
            Some(error) => exists|i: int|
                from <= i < inputs.len() && #[trigger] input_fault(specs, inputs, i) == Some(error)
                    && forall|j: int|
                    from <= j < i ==> #[trigger] input_fault(specs, inputs, j) is None,
        },
    decreases inputs.len() - from,
{
    if from < inputs.len() {
        lemma_first_input_fault(specs, inputs, from + 1);
        if input_fault(specs, inputs, from) is None {
            if let Some(error) = inputs_fault_from(specs, inputs, from) {
                let i = choose|i: int|
                    from + 1 <= i < inputs.len() && #[trigger] input_fault(specs, inputs, i)
                        == Some(error) && forall|j: int|
                        from + 1 <= j < i ==> #[trigger] input_fault(specs, inputs, j) is None;
                assert(input_fault(specs, inputs, i) == Some(error));
            }
        }
    }
}

/// Whether `error` says what is wrong with input `i`: that an earlier one has its name,
/// that the model has no such input, or how it deviates from the model's.
pub open spec fn explains_input(
    error: ErrorView,
    specs: Seq<SpecView>,
    inputs: Seq<TensorModel>,
    i: int,
) -> bool {
    let name = inputs[i].name;
    if exists|j: int| 0 <= j < i && (#[trigger] inputs[j]).name == name {
        error == ErrorView::Named { fault: NamedFault::DuplicateInput, name }
    } else if forall|s: int| 0 <= s < specs.len() ==> (#[trigger] specs[s]).name != name {
        error == ErrorView::Named { fault: NamedFault::UnknownInput, name }
    } else {
        exists|s: int|
            0 <= s < specs.len() && (#[trigger] specs[s]).name == name && specs[s].fault(inputs[i])
                == Some(error) && !fits(specs[s], inputs[i])
    }
}

/// Inputs are refused for their number, or else for the first of them that is wrong, and
/// for what is wrong with it.
pub proof fn law_input_refusals_name_the_first(specs: Seq<SpecView>, inputs: Seq<TensorModel>)
    requires
        storable(inputs),
        inputs_fault(specs, inputs) is Some,
    ensures
        inputs.len() != specs.len() ==> inputs_fault(specs, inputs) == Some(
            ErrorView::Fault(Fault::InputCount),
        ),
        inputs.len() == specs.len() ==> exists|i: int|
            0 <= i < inputs.len() && #[trigger] explains_input(
                inputs_fault(specs, inputs)->0,
                specs,
                inputs,
                i,
            ) && inputs_fault_from(specs, inputs.take(i), 0) is None,
{
    if inputs.len() == specs.len() {
        let error = inputs_fault(specs, inputs)->0;
        lemma_first_input_fault(specs, inputs, 0);
        let i = choose|i: int|
            0 <= i < inputs.len() && #[trigger] input_fault(specs, inputs, i) == Some(error)
                && forall|j: int| 0 <= j < i ==> #[trigger] input_fault(specs, inputs, j) is None;
        let names = spec_names(specs);
        let name = inputs[i].name;
        lemma_first_index(names, name, 0);
        assert forall|s: int| 0 <= s < specs.len() implies (#[trigger] specs[s]).name
            == names[s] by {}
        if let Some(at) = first_index(names, name, 0) {
            assert(specs[at].name == name);
            if !repeated(inputs, i) {
                law_tensors_are_checked_dimension_by_dimension(specs[at], inputs[i]);
            }
        } else if !repeated(inputs, i) {
            assert forall|s: int| 0 <= s < specs.len() implies (#[trigger] specs[s]).name
                != name by {
                assert(names[s] == specs[s].name);
            }
        }
        assert(explains_input(error, specs, inputs, i));
        let front = inputs.take(i);
        assert forall|j: int| 0 <= j < front.len() implies #[trigger] input_fault(specs, front, j)
            == input_fault(specs, inputs, j) by {
            assert(front[j] == inputs[j]);
            if repeated(inputs, j) {
                let k = choose|k: int| 0 <= k < j && (#[trigger] inputs[k]).name == inputs[j].name;
                assert(front[k].name == front[j].name);
            }
            if repeated(front, j) {
                let k = choose|k: int| 0 <= k < j && (#[trigger] front[k]).name == front[j].name;
                assert(inputs[k].name == inputs[j].name);
            }
        }
        lemma_first_input_fault(specs, front, 0);
        if inputs_fault_from(specs, front, 0) is Some {
            let j = choose|j: int|
                0 <= j < front.len() && #[trigger] input_fault(specs, front, j) == Some(
                    inputs_fault_from(specs, front, 0)->0,
                );
            assert(input_fault(specs, inputs, j) is None);
        }
    }
}

proof fn lemma_first_output_fault(specs: Seq<SpecView>, outputs: Seq<TensorModel>, from: int)
    requires
        0 <= from,
    ensures
        match outputs_fault_from(specs, outputs, from) {
            None => true,
            Some(error) => exists|i: int|
                from <= i < outputs.len() && #[trigger] output_fault(specs, outputs, i) == Some(
                    error,
                ) && forall|j: int|
                    from <= j < i ==> #[trigger] output_fault(specs, outputs, j) is None,
        },
    decreases outputs.len() - from,
{
    if from < outputs.len() {
        lemma_first_output_fault(specs, outputs, from + 1);
        if output_fault(specs, outputs, from) is None {
            if let Some(error) = outputs_fault_from(specs, outputs, from) {
                let i = choose|i: int|
                    from + 1 <= i < outputs.len() && #[trigger] output_fault(specs, outputs, i)
                        == Some(error) && forall|j: int|
                        from + 1 <= j < i ==> #[trigger] output_fault(specs, outputs, j) is None;
                assert(output_fault(specs, outputs, i) == Some(error));
            }
        }
    }
}

/// Whether `error` says what is wrong with output buffer `i`: that an earlier one has
/// its name, that the model has no such output, or that it cannot take the model's.
pub open spec fn explains_output(
    error: ErrorView,
    specs: Seq<SpecView>,
    outputs: Seq<TensorModel>,
    i: int,
) -> bool {
    let name = outputs[i].name;
    if exists|j: int| 0 <= j < i && (#[trigger] outputs[j]).name == name {
        error == ErrorView::Named { fault: NamedFault::DuplicateOutput, name }
    } else if forall|s: int| 0 <= s < specs.len() ==> (#[trigger] specs[s]).name != name {
        error == ErrorView::Fault(Fault::UnknownOutput)
    } else {
        &&& exists|s: int|
            0 <= s < specs.len() && (#[trigger] specs[s]).name == name && !can_take(
                specs[s],
                outputs[i],
            )
        &&& error == ErrorView::Fault(Fault::OutputMismatch) || (product(outputs[i].shape)
            > usize::MAX && error == ErrorView::Fault(Fault::ElementCountOverflow))
    }
}

/// Output buffers are refused for their number, or else for the first of them that is
/// wrong, and for what is wrong with it.
pub proof fn law_output_refusals_name_the_first(specs: Seq<SpecView>, outputs: Seq<TensorModel>)
    requires
        storable(outputs),
        outputs_fault(specs, outputs) is Some,
    ensures
        outputs.len() != specs.len() ==> outputs_fault(specs, outputs) == Some(
            ErrorView::Fault(Fault::OutputCount),
        ),
        outputs.len() == specs.len() ==> exists|i: int|
            0 <= i < outputs.len() && #[trigger] explains_output(
                outputs_fault(specs, outputs)->0,
                specs,
                outputs,
                i,
            ) && forall|j: int| 0 <= j < i ==> #[trigger] output_fault(specs, outputs, j) is None,
{
    if outputs.len() == specs.len() {
        let error = outputs_fault(specs, outputs)->0;
        lemma_first_output_fault(specs, outputs, 0);
        let i = choose|i: int|
            0 <= i < outputs.len() && #[trigger] output_fault(specs, outputs, i) == Some(error)
                && forall|j: int| 0 <= j < i ==> #[trigger] output_fault(specs, outputs, j) is None;
        let names = spec_names(specs);
        let name = outputs[i].name;
        lemma_first_index(names, name, 0);
        assert forall|s: int| 0 <= s < specs.len() implies (#[trigger] specs[s]).name
            == names[s] by {}
        if let Some(at) = first_index(names, name, 0) {
            assert(specs[at].name == name);
            if has_shape(specs[at], outputs[i].shape) {
                assert(fixed_dims(specs[at].shape)->0 =~= outputs[i].shape);
            }
        } else if !repeated(outputs, i) {
            assert forall|s: int| 0 <= s < specs.len() implies (#[trigger] specs[s]).name
                != name by {
                assert(names[s] == specs[s].name);
            }
        }
        assert(explains_output(error, specs, outputs, i));
    }
}

// ---------------------------------------------------------------------------
// Output buffers

/// Filling checked output buffers from kept outputs leaves in each the elements of the
/// output of its name, and nothing else of it changes.
pub proof fn law_filled_buffers_hold_the_outputs(
    buffers: BuffersView,
    info: InfoView,
    targets: Seq<TensorModel>,
)
    requires
        buffers.prepared_for(info),
        outputs_fault(info.outputs, targets) is None,
    ensures
        ({
            let after = poured(buffers.outputs, targets).0;
            &&& poured(buffers.outputs, targets).1 is None
            &&& after.len() == targets.len()
            &&& forall|i: int|
                0 <= i < targets.len() ==> {
                    &&& (#[trigger] after[i]).name == targets[i].name
                    &&& after[i].shape == targets[i].shape
                    &&& exists|s: int|
                        0 <= s < buffers.outputs.len() && (#[trigger] buffers.outputs[s]).name
                            == targets[i].name && buffers.outputs[s].data == after[i].data
                }
        }),
{
    law_checked_buffers_are_filled(buffers, info, targets);
    let after = poured(buffers.outputs, targets).0;
    let names = tensor_names(buffers.outputs);
    assert forall|i: int| 0 <= i < targets.len() implies {
        &&& (#[trigger] after[i]).name == targets[i].name
        &&& after[i].shape == targets[i].shape
        &&& exists|s: int|
            0 <= s < buffers.outputs.len() && (#[trigger] buffers.outputs[s]).name
                == targets[i].name && buffers.outputs[s].data == after[i].data
    } by {
        assert(Ok::<TensorModel, ErrorView>(after[i]) == poured_one(
            buffers.outputs,
            targets[i],
        ));
        lemma_first_index(names, targets[i].name, 0);
        let s = first_index(names, targets[i].name, 0)->0;
        assert(names[s] == buffers.outputs[s].name);
        assert(buffers.outputs[s].data == after[i].data);
    }
}

// ---------------------------------------------------------------------------
// Loading and compiling

/// A runtime is loaded as configured: with the options that were given, what the model
/// file declares, the first candidate to be opened, and no events. It counts as compiled
/// state exactly when the model file does. Options out of range and models that cannot
/// be read are refused for that reason, and compiled state is not compiled again.
pub proof fn law_runtimes_start_as_configured(
    options: OnnxOptions,
    model: Result<Option<GraphView>, Seq<char>>,
    path: Seq<char>,
    build_directory: Option<HostText>,
)
    ensures
        match loaded(options, model, path, build_directory) {
            Ok(runtime) => {
                &&& options.fault() is None
                &&& inspected_model(model, path, options.dimension_overrides@) matches Ok((
                    format,
                    info,
                )) && runtime.info == info && runtime.is_ep_context == (format
                    is EpContext)
                &&& runtime.is_ep_context ==> build_directory is None
                &&& runtime.options == options
                &&& runtime.active is None
                &&& runtime.candidate == 0
                &&& runtime.events.len() == 0
                &&& runtime.build_directory == build_directory
            },
            Err(error) => {
                ||| options.fault() == Some(error)
                ||| inspected_model(model, path, options.dimension_overrides@) == Err::<
                    (ModelFormat, InfoView),
                    ErrorView,
                >(error)
                ||| {
                    &&& build_directory is Some
                    &&& error == ErrorView::Fault(Fault::CompileOriginal)
                    &&& inspected_model(model, path, options.dimension_overrides@) matches Ok((
                        ModelFormat::EpContext,
                        _,
                    ))
                }
            },
        },
        options.fault() is Some ==> loaded(options, model, path, build_directory) == Err::<
            RuntimeView,
            ErrorView,
        >(options.fault()->0),
{
}

/// Only ordinary graphs are compiled, and what comes out is named after what it is.
pub proof fn law_only_ordinary_graphs_are_compiled(
    model: Result<Option<GraphView>, Seq<char>>,
    path: Seq<char>,
    overrides: Map<Seq<char>, usize>,
    format: ModelFormat,
)
    ensures
        source_fault(model, path, overrides) is None <==> (inspected_model(model, path, overrides)
            matches Ok((found, _)) && found is Onnx),
        inspected_model(model, path, overrides) matches Err(error) ==> source_fault(
            model,
            path,
            overrides,
        ) == Some(error),
        inspected_model(model, path, overrides) is Ok && source_fault(model, path, overrides)
            is Some ==> source_fault(model, path, overrides) == Some(
            ErrorView::Fault(Fault::CompileContext),
        ),
        compiled_format(format) == CompiledFormat::EpContext <==> format is EpContext,
        compiled_format(format) == CompiledFormat::OptimizedOnnx <==> format is Onnx,
{
}

/// A failed compilation names its target in front of the cause.
pub proof fn law_failed_compilations_name_their_target(job: JobView, error: ErrorView)
    ensures
        job.failed(error).report() == "Compile for "@ + job.backend + ": "@ + error.report(),
{
}

/// Advice on a provider's failure is added to errors only: what was found stays.
pub proof fn law_advice_leaves_results_alone(
    backend: Backend,
    device: Result<Option<i32>, ErrorView>,
    providers: Result<Seq<ProviderView>, ErrorView>,
)
    ensures
        device is Ok ==> explained_device(backend, device) == device,
        device matches Err(error) ==> explained_device(backend, device) == Err::<
            Option<i32>,
            ErrorView,
        >(explained(backend, error)),
        providers is Ok ==> explained_providers(backend, providers) == providers,
        providers matches Err(error) ==> explained_providers(backend, providers) == Err::<
            Seq<ProviderView>,
            ErrorView,
        >(explained(backend, error)),
{
}

/// Whether failed runs are final, and whether a candidate is to be opened, goes by the
/// caller's choice, the model and the candidates that are left.
pub proof fn law_modes_are_chosen(runtime: RuntimeView)
    ensures
        runtime.is_final() <==> match runtime.options.backend {
            BackendSelection::Require(_) => true,
            BackendSelection::Auto(_) => runtime.is_ep_context,
        },
        runtime.is_loading() <==> runtime.active is None && match runtime.options.backend {
            BackendSelection::Require(_) => runtime.candidate < 1,
            BackendSelection::Auto(list) => runtime.candidate < list@.len(),
        },
{
}

// ---------------------------------------------------------------------------
// Views

/// Sequences are seen item by item, and results as they are.
pub proof fn law_runtime_sequences_are_seen_item_by_item(
    specs: Seq<TensorSpec>,
    events: Seq<FallbackEvent>,
    views: Seq<TensorView<'_>>,
    targets: Seq<TensorViewMut<'_>>,
    tensors: Seq<Tensor>,
    step: Result<Step, Error>,
    into: Result<IntoStep, Error>,
    runtime: Result<OnnxRuntime, Error>,
)
    ensures
        spec_views(specs).len() == specs.len(),
        forall|i: int| 0 <= i < specs.len() ==> #[trigger] spec_views(specs)[i] == specs[i]@,
        failure_views(events).len() == events.len(),
        forall|i: int| 0 <= i < events.len() ==> #[trigger] failure_views(events)[i] == events[i]@,
        view_models(views).len() == views.len(),
        forall|i: int|
            0 <= i < views.len() ==> #[trigger] view_models(views)[i] == views[i].model(),
        target_models(targets).len() == targets.len(),
        forall|i: int|
            0 <= i < targets.len() ==> #[trigger] target_models(targets)[i] == targets[i].model(),
        tensor_models(tensors).len() == tensors.len(),
        forall|i: int|
            0 <= i < tensors.len() ==> #[trigger] tensor_models(tensors)[i] == tensors[i].model(),
        match step {
            Ok(own) => step_result(step) == Ok::<Step, ErrorView>(own),
            Err(error) => step_result(step) == Err::<Step, ErrorView>(error@),
        },
        match into {
            Ok(own) => into_result(into) == Ok::<IntoStep, ErrorView>(own),
            Err(error) => into_result(into) == Err::<IntoStep, ErrorView>(error@),
        },
        match runtime {
            Ok(own) => runtime_result(runtime) == Ok::<RuntimeView, ErrorView>(own@),
            Err(error) => runtime_result(runtime) == Err::<RuntimeView, ErrorView>(error@),
        },
{
}

/// What contracts say of metadata, events and outcomes is what their fields hold.
pub proof fn law_runtime_values_are_seen_as_they_are(
    info: ModelInfo,
    event: FallbackEvent,
    outcome: Outcome,
    run: RunOutcome,
)
    ensures
        info@.inputs.len() == info.inputs@.len(),
        info@.outputs.len() == info.outputs@.len(),
        forall|i: int|
            0 <= i < info.inputs@.len() ==> #[trigger] info@.inputs[i] == info.inputs@[i]@,
        forall|i: int|
            0 <= i < info.outputs@.len() ==> #[trigger] info@.outputs[i] == info.outputs@[i]@,
        event@.backend == event.backend@,
        event@.error == event.error@,
        match outcome {
            Outcome::Prepared(own) => outcome@ == ResultView::Prepared(own@),
            Outcome::Dynamic(Err(error)) => outcome@ == ResultView::Dynamic(Err(error@)),
            Outcome::Dynamic(Ok(values)) => outcome@ matches ResultView::Dynamic(Ok(views))
                && views.len() == values@.len() && forall|i: int|
                0 <= i < views.len() ==> #[trigger] views[i] == values@[i]@,
        },
        match run {
            RunOutcome::Refused(error) => run@ == OutcomeView::Refused(error@),
            RunOutcome::UploadFailed(error) => run@ == OutcomeView::UploadFailed(error@),
            RunOutcome::BindFailed(error) => run@ == OutcomeView::BindFailed(error@),
            RunOutcome::InferenceFailed(error) => run@ == OutcomeView::InferenceFailed(error@),
            RunOutcome::OutputFailed(error) => run@ == OutcomeView::OutputFailed(error@),
            RunOutcome::DownloadFailed(error) => run@ == OutcomeView::DownloadFailed(error@),
            RunOutcome::Done(values) => run@ matches OutcomeView::Done(contents) && contents.len()
                == values@.len() && forall|i: int|
                0 <= i < contents.len() ==> #[trigger] contents[i] == values@[i].contents(),
        },
{
}

} // verus!
