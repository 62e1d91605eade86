//! Compiling, loading and inference over ordered provider candidates.
//!
//! An [`OnnxRuntime`] decides and remembers; its caller makes the native calls. An
//! operation that needs native work says what is to be done and is told what came
//! of it. While no session is active the caller opens the current candidate and
//! reports either the opened session or the failure.
use crate::buffers::{BuffersView, InferenceBuffers, OutcomeView, RunOutcome};
use crate::diagnostics::{explained, provider_error};
use crate::engine::{inspect, inspected_model, read_model, ModelFormat};
use crate::error::{failure, Error, ErrorView, Fault, NamedFault};
use crate::options::{same_configuration, Backend, CompileOptions, HostText, OnnxOptions};
use crate::session::{
    captures_graph, configured_builder, device_result, graph_enabled, has_model_types,
    is_raw_gpu_provider, named_outputs, opened, outlet_views, owned_outputs, raw_views, stream_device,
    stream_for_backend, Access, ActiveSession, BuilderPlan, Environment, NativeRun, Outlet,
    RawOutput, RawView, SessionView,
};
use crate::tensor::{
    count_fault, element_count, fixed_dims, product, repeated, same_dims, target_models,
    tensor_models, tensor_names, view_models, Elements, SpecView, Tensor, TensorDataMut,
    TensorModel, TensorSpec, TensorView, TensorViewMut,
};
use crate::text::{self, first_index, same};
use vstd::prelude::*;
use vstd::string::*;

verus! {

/// ONNX input and output names, data types, and shapes.
#[derive(Debug)]
pub struct ModelInfo {
    /// Required inputs, in model order.
    pub inputs: Vec<TensorSpec>,
    /// Produced outputs, in model order.
    pub outputs: Vec<TensorSpec>,
}

/// The contents of a [`ModelInfo`].
#[verifier::ext_equal]
pub struct InfoView {
    pub inputs: Seq<SpecView>,
    pub outputs: Seq<SpecView>,
}

/// The contents of specifications.
pub open spec fn spec_views(specs: Seq<TensorSpec>) -> Seq<SpecView> {
    Seq::new(specs.len(), |i: int| specs[i]@)
}

/// The names of specifications.
pub open spec fn spec_names(specs: Seq<SpecView>) -> Seq<Seq<char>> {
    Seq::new(specs.len(), |i: int| specs[i].name)
}

impl View for ModelInfo {
    type V = InfoView;

    open spec fn view(&self) -> InfoView {
        InfoView { inputs: spec_views(self.inputs@), outputs: spec_views(self.outputs@) }
    }
}

fn clone_specs(specs: &Vec<TensorSpec>) -> (r: Vec<TensorSpec>)
    ensures
        spec_views(r@) == spec_views(specs@),
{
    let mut out: Vec<TensorSpec> = Vec::new();
    for i in 0..specs.len()
        invariant
            out@.len() == i,
            forall|j: int| 0 <= j < i ==> (#[trigger] out@[j])@ == specs@[j]@,
    {
        out.push(specs[i].clone());
    }
    assert(spec_views(out@) =~= spec_views(specs@));
    out
}

impl Clone for ModelInfo {
    fn clone(&self) -> (r: Self)
        ensures
            r@ == self@,
    {
        ModelInfo { inputs: clone_specs(&self.inputs), outputs: clone_specs(&self.outputs) }
    }
}

/// A provider failure recorded before trying the next configured backend.
#[derive(Debug)]
pub struct FallbackEvent {
    /// Name of the provider that failed.
    pub backend: String,
    /// Error message including its context chain.
    pub error: String,
}

/// The contents of a [`FallbackEvent`].
#[verifier::ext_equal]
pub struct FailureView {
    pub backend: Seq<char>,
    pub error: Seq<char>,
}

impl View for FallbackEvent {
    type V = FailureView;

    open spec fn view(&self) -> FailureView {
        FailureView { backend: self.backend@, error: self.error@ }
    }
}

impl Clone for FallbackEvent {
    fn clone(&self) -> (r: Self)
        ensures
            r@ == self@,
    {
        FallbackEvent { backend: self.backend.clone(), error: self.error.clone() }
    }
}

/// The contents of fallback events.
pub open spec fn failure_views(events: Seq<FallbackEvent>) -> Seq<FailureView> {
    Seq::new(events.len(), |i: int| events[i]@)
}

/// One line of a report.
pub open spec fn failure_line(event: FailureView) -> Seq<char> {
    "  "@ + event.backend + ": "@ + event.error
}

/// A report of failures, one line each.
pub open spec fn report_text(events: Seq<FailureView>) -> Seq<char>
    decreases events.len(),
{
    if events.len() == 0 {
        Seq::empty()
    } else if events.len() == 1 {
        failure_line(events[0])
    } else {
        report_text(events.drop_last()) + "\n"@ + failure_line(events.last())
    }
}

fn failure_report(events: &Vec<FallbackEvent>) -> (r: String)
    ensures
        r@ == report_text(failure_views(events@)),
{
    let ghost views = failure_views(events@);
    let mut out = String::new();
    assert(views.take(0) =~= Seq::<FailureView>::empty());
    for i in 0..events.len()
        invariant
            views == failure_views(events@),
            out@ == report_text(views.take(i as int)),
    {
        let ghost before = out@;
        if i > 0 {
            out.append("\n");
        }
        out.append("  ");
        out.append(events[i].backend.as_str());
        out.append(": ");
        out.append(events[i].error.as_str());
        proof {
            let next = views.take(i + 1);
            assert(next.drop_last() =~= views.take(i as int));
            assert(next.last() == views[i as int]);
            assert(out@ =~= report_text(next));
        }
    }
    assert(views.take(views.len() as int) =~= views);
    out
}

/// Format produced by a successful compilation.
#[derive(Clone, Copy, Debug, PartialEq, Eq, Structural)]
pub enum CompiledFormat {
    /// ONNX graph optimized for the selected provider; no embedded native context.
    OptimizedOnnx,
    /// ONNX wrapper with embedded, provider-specific compiled state.
    EpContext,
}

/// Artifact compiled and validated for the explicitly requested target.
#[derive(Debug)]
pub struct Compilation {
    /// Provider that successfully compiled and validated the artifact.
    pub backend: String,
    /// Representation stored at the requested destination.
    pub format: CompiledFormat,
}

impl Clone for Compilation {
    fn clone(&self) -> (r: Self)
        ensures
            r.backend@ == self.backend@,
            r.format == self.format,
    {
        Compilation { backend: self.backend.clone(), format: self.format }
    }
}

/// An ONNX model session with ordered provider fallback and reusable inference buffers.
/// Methods are synchronous. Use one instance per concurrent inference worker.
#[derive(Debug)]
pub struct OnnxRuntime {
    options: OnnxOptions,
    info: ModelInfo,
    active: Option<ActiveSession>,
    fallback_events: Vec<FallbackEvent>,
    is_ep_context: bool,
    candidate: usize,
    build_directory: Option<HostText>,
}

/// The contents of an [`OnnxRuntime`].
#[verifier::ext_equal]
pub struct RuntimeView {
    /// The options that it was loaded with.
    pub options: OnnxOptions,
    /// What the model takes and gives.
    pub info: InfoView,
    /// The active session.
    pub active: Option<SessionView>,
    /// Whole-session failures, in the order in which they happened.
    pub events: Seq<FailureView>,
    /// Whether the model is a provider's compiled state.
    pub is_ep_context: bool,
    /// The candidate that is active or to be opened next.
    pub candidate: int,
    /// The directory of a compilation that is under way.
    pub build_directory: Option<HostText>,
}

impl View for OnnxRuntime {
    type V = RuntimeView;

    closed spec fn view(&self) -> RuntimeView {
        RuntimeView {
            options: self.options,
            info: self.info@,
            active: match self.active {
                None => None,
                Some(active) => Some(active@),
            },
            events: failure_views(self.fallback_events@),
            is_ep_context: self.is_ep_context,
            candidate: self.candidate as int,
            build_directory: self.build_directory,
        }
    }
}

/// What came of a native run.
#[derive(Debug)]
pub enum Outcome {
    /// A run of the kept tensors.
    Prepared(RunOutcome),
    /// A run on given inputs: the outputs in the order of the model's, or an error.
    Dynamic(Result<Vec<RawOutput>, Error>),
}

/// The contents of an [`Outcome`].
pub enum ResultView {
    Prepared(OutcomeView),
    Dynamic(Result<Seq<RawView>, ErrorView>),
}

impl View for Outcome {
    type V = ResultView;

    open spec fn view(&self) -> ResultView {
        match self {
            Outcome::Prepared(outcome) => ResultView::Prepared(outcome@),
            Outcome::Dynamic(Ok(values)) => ResultView::Dynamic(Ok(raw_views(values@))),
            Outcome::Dynamic(Err(error)) => ResultView::Dynamic(Err(error@)),
        }
    }
}

/// What an inference needs next.
#[derive(Clone, Copy, Debug, PartialEq, Eq, Structural)]
pub enum Step {
    /// The next candidate has to be opened; then the inference is retried.
    Load,
    /// This has to be run; then the inference is finished.
    Run(NativeRun),
}

/// What an inference into given buffers needs next.
#[derive(Clone, Copy, Debug, PartialEq, Eq, Structural)]
pub enum IntoStep {
    /// An ordinary inference, whose outputs are then copied to the buffers.
    Collect(Step),
    /// This run, after which the inference into the buffers is finished.
    Direct(NativeRun),
}

/// What is wrong with input `i`.
pub open spec fn input_fault(
    specs: Seq<SpecView>,
    inputs: Seq<TensorModel>,
    i: int,
) -> Option<ErrorView> {
    let name = inputs[i].name;
    if repeated(inputs, i) {
        Some(ErrorView::Named { fault: NamedFault::DuplicateInput, name })
    } else {
        match first_index(spec_names(specs), name, 0) {
            None => Some(ErrorView::Named { fault: NamedFault::UnknownInput, name }),
            Some(at) => specs[at].fault(inputs[i]),
        }
    }
}

/// What is wrong with the first faulty input from `i` on.
pub open spec fn inputs_fault_from(
    specs: Seq<SpecView>,
    inputs: Seq<TensorModel>,
    i: int,
) -> Option<ErrorView>
    decreases inputs.len() - i,
{
    if i < 0 || i >= inputs.len() {
        None
    } else if input_fault(specs, inputs, i) is Some {
        input_fault(specs, inputs, i)
    } else {
        inputs_fault_from(specs, inputs, i + 1)
    }
}

/// Why inputs are refused: each input of the model must be given exactly once, in
/// any order.
pub open spec fn inputs_fault(specs: Seq<SpecView>, inputs: Seq<TensorModel>) -> Option<
    ErrorView,
> {
    if inputs.len() != specs.len() {
        Some(ErrorView::Fault(Fault::InputCount))
    } else {
        inputs_fault_from(specs, inputs, 0)
    }
}

/// What is wrong with output buffer `i` for a model with fixed shapes.
pub open spec fn output_fault(
    specs: Seq<SpecView>,
    outputs: Seq<TensorModel>,
    i: int,
) -> Option<ErrorView> {
    let output = outputs[i];
    if repeated(outputs, i) {
        Some(ErrorView::Named { fault: NamedFault::DuplicateOutput, name: output.name })
    } else {
        match first_index(spec_names(specs), output.name, 0) {
            None => Some(ErrorView::Fault(Fault::UnknownOutput)),
            Some(at) => if output.data.dtype() != specs[at].dtype || fixed_dims(specs[at].shape)
                != Some(output.shape) {
                Some(ErrorView::Fault(Fault::OutputMismatch))
            } else if count_fault(output.shape) is Some {
                count_fault(output.shape)
            } else if output.data.len() != product(output.shape) {
                Some(ErrorView::Fault(Fault::OutputMismatch))
            } else {
                None
            },
        }
    }
}

/// What is wrong with the first faulty output buffer from `i` on.
pub open spec fn outputs_fault_from(
    specs: Seq<SpecView>,
    outputs: Seq<TensorModel>,
    i: int,
) -> Option<ErrorView>
    decreases outputs.len() - i,
{
    if i < 0 || i >= outputs.len() {
        None
    } else if output_fault(specs, outputs, i) is Some {
        output_fault(specs, outputs, i)
    } else {
        outputs_fault_from(specs, outputs, i + 1)
    }
}

/// Why output buffers are refused before a run.
pub open spec fn outputs_fault(specs: Seq<SpecView>, outputs: Seq<TensorModel>) -> Option<
    ErrorView,
> {
    if outputs.len() != specs.len() {
        Some(ErrorView::Fault(Fault::OutputCount))
    } else {
        outputs_fault_from(specs, outputs, 0)
    }
}

impl RuntimeView {
    /// The providers to try, in order.
    pub open spec fn candidates(self) -> Seq<Backend> {
        self.options.backend.list()
    }

    /// Whether the next candidate is to be opened.
    pub open spec fn is_loading(self) -> bool {
        self.active is None && self.candidate < self.candidates().len()
    }

    /// Whether the active session keeps tensors.
    pub open spec fn prepared(self) -> bool {
        self.active matches Some(session) && session.buffers is Some
    }

    /// An upper bound for the candidates to open and the runs to make.
    pub open spec fn steps_left(self) -> int {
        2 * (self.candidates().len() - self.candidate) + if self.active is None {
            1int
        } else {
            0int
        }
    }

    /// The kept tensors of the active session.
    pub open spec fn buffers(self) -> BuffersView {
        self.active->0.buffers->0
    }

    /// The invariant: the options are valid; exactly the candidates before the
    /// current one have failed, in order; an active session belongs to the current
    /// candidate and keeps tensors, if any, of the model's types and shapes; a
    /// capture is pending only in a session that captures.
    pub open spec fn wf(self) -> bool {
        &&& self.options.wf()
        &&& self.options.fault() is None
        &&& 0 <= self.candidate <= self.candidates().len()
        &&& self.events.len() == self.candidate
        &&& forall|i: int|
            0 <= i < self.candidate ==> (#[trigger] self.events[i]).backend
                == self.candidates()[i].label()
        &&& self.active matches Some(session) ==> {
            &&& self.candidate < self.candidates().len()
            &&& session.backend_index == self.candidate
            &&& session.buffers matches Some(buffers) ==> buffers.prepared_for(self.info)
            &&& session.capture_pending ==> session.graph_enabled
        }
    }

    /// A runtime that has read its model and opened nothing yet.
    pub open spec fn loading(
        options: OnnxOptions,
        info: InfoView,
        is_ep_context: bool,
        build_directory: Option<HostText>,
    ) -> RuntimeView {
        RuntimeView {
            options,
            info,
            active: None,
            events: Seq::empty(),
            is_ep_context,
            candidate: 0,
            build_directory,
        }
    }

    /// With another active session.
    pub open spec fn with(self, session: SessionView) -> RuntimeView {
        RuntimeView { active: Some(session), ..self }
    }

    /// After the current candidate failed for good.
    pub open spec fn given_up(self, error: ErrorView) -> RuntimeView {
        RuntimeView {
            active: None,
            events: self.events.push(
                FailureView {
                    backend: self.candidates()[self.candidate].label(),
                    error: error.report(),
                },
            ),
            candidate: self.candidate + 1,
            ..self
        }
    }

    /// What is reported where no candidate is left.
    pub open spec fn exhausted(self) -> Option<ErrorView> {
        if self.candidate < self.candidates().len() {
            None
        } else {
            Some(
                ErrorView::BackendsFailed {
                    ep_context: self.is_ep_context,
                    report: report_text(self.events),
                },
            )
        }
    }

    /// Whether a failed run ends the operation: with a required provider or a
    /// compiled model there is nothing to fall back to.
    pub open spec fn is_final(self) -> bool {
        self.is_ep_context || self.options.backend.is_strict()
    }

    /// After a run failed.
    pub open spec fn fallen_back(self, error: ErrorView) -> RuntimeView {
        if self.active is None || self.is_final() {
            self
        } else {
            self.given_up(error)
        }
    }

    /// What is reported after a run failed, if the operation ends with it.
    pub open spec fn fallback_fault(self, error: ErrorView) -> Option<ErrorView> {
        if self.active is None {
            Some(ErrorView::Fault(Fault::NoActiveBackend))
        } else if self.is_final() {
            Some(error)
        } else {
            self.given_up(error).exhausted()
        }
    }

    /// After the next candidate was opened.
    pub open spec fn activated(self, session: SessionView, info: InfoView) -> RuntimeView {
        RuntimeView { active: Some(session), info, build_directory: None, ..self }
    }

    /// After an input was borrowed and left with other elements.
    pub open spec fn edited(self, at: int, data: Elements) -> RuntimeView {
        self.with(self.active->0.with(self.buffers().edited(at, data)))
    }

    /// After an attempt at an inference was begun.
    pub open spec fn attempted(self, inputs: Seq<TensorModel>) -> RuntimeView {
        match self.active {
            None => self,
            Some(session) => {
                let next = self.with(session.fed(inputs));
                match session.feed_fault(inputs) {
                    None => next,
                    Some(error) => next.fallen_back(error),
                }
            },
        }
    }

    /// What an attempt at an inference needs next, or how it ends.
    pub open spec fn attempt(self, inputs: Seq<TensorModel>) -> Result<Step, ErrorView> {
        match self.active {
            None => Err(ErrorView::Fault(Fault::NoActiveBackend)),
            Some(session) => match session.feed_fault(inputs) {
                None => Ok(Step::Run(session.native_run())),
                Some(error) => match self.with(session.fed(inputs)).fallback_fault(error) {
                    None => Ok(Step::Load),
                    Some(fault) => Err(fault),
                },
            },
        }
    }

    /// Whether an outcome can be that of a run of the active session.
    pub open spec fn admits(self, outcome: ResultView) -> bool {
        match self.active {
            None => false,
            Some(session) => match (session.buffers, outcome) {
                (Some(buffers), ResultView::Prepared(outcome)) => buffers.admits(outcome),
                (None, ResultView::Dynamic(Ok(values))) => has_model_types(
                    values,
                    self.info.outputs,
                ),
                (None, ResultView::Dynamic(Err(_))) => true,
                _ => false,
            },
        }
    }

    /// What a run produced: tensors in the order of the model's outputs, or an error.
    pub open spec fn produced(self, outcome: ResultView) -> Result<Seq<TensorModel>, ErrorView> {
        match outcome {
            ResultView::Prepared(outcome) => match outcome.fault() {
                Some(error) => Err(error),
                None => Ok(self.buffers().finished(outcome).outputs),
            },
            ResultView::Dynamic(Err(error)) => Err(error),
            ResultView::Dynamic(Ok(values)) => named_outputs(self.info.outputs, values),
        }
    }

    /// After a run, before any fallback.
    pub open spec fn recorded(self, outcome: ResultView) -> RuntimeView {
        match outcome {
            ResultView::Prepared(outcome) => self.with(self.active->0.finished(outcome)),
            ResultView::Dynamic(_) => self,
        }
    }

    /// After a run and the fallback that its failure calls for.
    pub open spec fn finished(self, outcome: ResultView) -> RuntimeView {
        match self.produced(outcome) {
            Ok(_) => self.recorded(outcome),
            Err(error) => self.recorded(outcome).fallen_back(error),
        }
    }

    /// How an operation ends with a run, if it does.
    pub open spec fn end(self, outcome: ResultView) -> Option<ErrorView> {
        match self.produced(outcome) {
            Ok(_) => None,
            Err(error) => self.recorded(outcome).fallback_fault(error),
        }
    }

    /// What an inference into buffers needs next, or how it ends.
    pub open spec fn into_attempt(self, inputs: Seq<TensorModel>) -> Result<IntoStep, ErrorView> {
        if self.prepared() {
            match self.active->0.feed_fault(inputs) {
                Some(error) => Err(error),
                None => Ok(IntoStep::Direct(self.active->0.native_run())),
            }
        } else if inputs_fault(self.info.inputs, inputs) is Some {
            Err(inputs_fault(self.info.inputs, inputs)->0)
        } else {
            match self.attempt(inputs) {
                Err(error) => Err(error),
                Ok(step) => Ok(IntoStep::Collect(step)),
            }
        }
    }

    /// After an attempt at an inference into buffers was begun.
    pub open spec fn into_attempted(self, inputs: Seq<TensorModel>) -> RuntimeView {
        if self.prepared() {
            self.with(self.active->0.fed(inputs))
        } else if inputs_fault(self.info.inputs, inputs) is Some {
            self
        } else {
            self.attempted(inputs)
        }
    }
}

/// A step over what a function returned.
pub open spec fn step_result(r: Result<Step, Error>) -> Result<Step, ErrorView> {
    match r {
        Ok(step) => Ok(step),
        Err(error) => Err(error@),
    }
}

/// A step over what a function returned.
pub open spec fn into_result(r: Result<IntoStep, Error>) -> Result<IntoStep, ErrorView> {
    match r {
        Ok(step) => Ok(step),
        Err(error) => Err(error@),
    }
}

fn find_spec(specs: &Vec<TensorSpec>, name: &str) -> (r: Option<usize>)
    ensures
        match r {
            None => first_index(spec_names(spec_views(specs@)), name@, 0) is None,
            Some(i) => first_index(spec_names(spec_views(specs@)), name@, 0) == Some(i as int) && i
                < specs@.len(),
        },
{
    let ghost names = spec_names(spec_views(specs@));
    for i in 0..specs.len()
        invariant
            names == spec_names(spec_views(specs@)),
            first_index(names, name@, 0) == first_index(names, name@, i as int),
    {
        if same(specs[i].name.as_str(), name) {
            return Some(i);
        }
    }
    None
}

fn check_input(specs: &Vec<TensorSpec>, inputs: &[TensorView<'_>], i: usize) -> (r: Result<
    (),
    Error,
>)
    requires
        i < inputs@.len(),
    ensures
        failure(r) == input_fault(spec_views(specs@), view_models(inputs@), i as int),
{
    let ghost models = view_models(inputs@);
    let name = inputs[i].name;
    for j in 0..i
        invariant
            i < inputs@.len(),
            models == view_models(inputs@),
            name@ == models[i as int].name,
            forall|k: int| 0 <= k < j ==> (#[trigger] models[k]).name != name@,
    {
        if same(inputs[j].name, name) {
            assert(models[j as int].name == name@);
            return Err(
                Error::Named { fault: NamedFault::DuplicateInput, name: name.to_owned() },
            );
        }
    }
    match find_spec(specs, name) {
        None => Err(Error::Named { fault: NamedFault::UnknownInput, name: name.to_owned() }),
        Some(at) => specs[at].validate(&inputs[i]),
    }
}

fn check_inputs(specs: &Vec<TensorSpec>, inputs: &[TensorView<'_>]) -> (r: Result<(), Error>)
    ensures
        failure(r) == inputs_fault(spec_views(specs@), view_models(inputs@)),
{
    if inputs.len() != specs.len() {
        return Err(Error::Fault(Fault::InputCount));
    }
    let ghost views = spec_views(specs@);
    let ghost models = view_models(inputs@);
    for i in 0..inputs.len()
        invariant
            views == spec_views(specs@),
            models == view_models(inputs@),
            inputs@.len() == specs@.len(),
            inputs_fault_from(views, models, 0) == inputs_fault_from(views, models, i as int),
    {
        match check_input(specs, inputs, i) {
            Err(error) => {
                return Err(error);
            },
            Ok(()) => {},
        }
    }
    Ok(())
}

fn same_shape(shape: &Option<Vec<usize>>, other: &[usize]) -> (r: bool)
    ensures
        r == (crate::error::optional_items(*shape) == Some(other@)),
{
    match shape {
        None => false,
        Some(dims) => same_dims(dims.as_slice(), other),
    }
}

fn check_output(specs: &Vec<TensorSpec>, outputs: &[TensorViewMut<'_>], i: usize) -> (r: Result<
    (),
    Error,
>)
    requires
        i < outputs@.len(),
    ensures
        failure(r) == output_fault(spec_views(specs@), target_models(outputs@), i as int),
{
    let ghost models = target_models(outputs@);
    let name = outputs[i].name;
    for j in 0..i
        invariant
            i < outputs@.len(),
            models == target_models(outputs@),
            name@ == models[i as int].name,
            forall|k: int| 0 <= k < j ==> (#[trigger] models[k]).name != name@,
    {
        if same(outputs[j].name, name) {
            assert(models[j as int].name == name@);
            return Err(
                Error::Named { fault: NamedFault::DuplicateOutput, name: name.to_owned() },
            );
        }
    }
    match find_spec(specs, name) {
        None => Err(Error::Fault(Fault::UnknownOutput)),
        Some(at) => {
            if outputs[i].data.dtype() != specs[at].dtype || !same_shape(
                &specs[at].fixed_shape(),
                outputs[i].shape,
            ) {
                return Err(Error::Fault(Fault::OutputMismatch));
            }
            match element_count(outputs[i].shape) {
                Err(error) => Err(error),
                Ok(n) => {
                    if outputs[i].data.len() != n {
                        return Err(Error::Fault(Fault::OutputMismatch));
                    }
                    Ok(())
                },
            }
        },
    }
}

fn check_outputs(specs: &Vec<TensorSpec>, outputs: &[TensorViewMut<'_>]) -> (r: Result<(), Error>)
    ensures
        failure(r) == outputs_fault(spec_views(specs@), target_models(outputs@)),
{
    if outputs.len() != specs.len() {
        return Err(Error::Fault(Fault::OutputCount));
    }
    let ghost views = spec_views(specs@);
    let ghost models = target_models(outputs@);
    for i in 0..outputs.len()
        invariant
            views == spec_views(specs@),
            models == target_models(outputs@),
            outputs@.len() == specs@.len(),
            outputs_fault_from(views, models, 0) == outputs_fault_from(views, models, i as int),
    {
        match check_output(specs, outputs, i) {
            Err(error) => {
                return Err(error);
            },
            Ok(()) => {},
        }
    }
    Ok(())
}

fn fits_model(values: &Vec<RawOutput>, specs: &Vec<TensorSpec>) -> (r: bool)
    ensures
        r == has_model_types(raw_views(values@), spec_views(specs@)),
{
    if values.len() != specs.len() {
        return false;
    }
    let ghost views = raw_views(values@);
    let ghost known = spec_views(specs@);
    for i in 0..values.len()
        invariant
            values@.len() == specs@.len(),
            views == raw_views(values@),
            known == spec_views(specs@),
            forall|j: int| 0 <= j < i ==> (#[trigger] views[j]).data.dtype() == known[j].dtype,
    {
        if values[i].data.dtype() != specs[i].dtype {
            assert(views[i as int].data.dtype() != known[i as int].dtype);
            return false;
        }
    }
    true
}

/// How a model file is loaded, given what the parser reads of it.
pub open spec fn loaded(
    options: OnnxOptions,
    model: Result<Option<crate::engine::GraphView>, Seq<char>>,
    path: Seq<char>,
    build_directory: Option<HostText>,
) -> Result<RuntimeView, ErrorView> {
    if options.fault() is Some {
        Err(options.fault()->0)
    } else {
        match inspected_model(model, path, options.dimension_overrides@) {
            Err(error) => Err(error),
            Ok((format, info)) => if format == ModelFormat::EpContext && build_directory is Some {
                Err(ErrorView::Fault(Fault::CompileOriginal))
            } else {
                Ok(
                    RuntimeView::loading(
                        options,
                        info,
                        format == ModelFormat::EpContext,
                        build_directory,
                    ),
                )
            },
        }
    }
}

/// A runtime over what a function returned.
pub open spec fn runtime_result(r: Result<OnnxRuntime, Error>) -> Result<RuntimeView, ErrorView> {
    match r {
        Ok(runtime) => Ok(runtime@),
        Err(error) => Err(error@),
    }
}

impl OnnxRuntime {
    /// Load an ONNX graph or an EPContext engine file (detected from its contents).
    /// `bytes` are those of the file at `path`. EPContext files need a compatible
    /// configured provider; their original graph is not rebuilt. The first candidate
    /// is then to be opened.
    pub fn load(
        bytes: &[u8],
        path: &str,
        options: OnnxOptions,
        build_directory: Option<HostText>,
    ) -> (r: Result<OnnxRuntime, Error>)
        requires
            options.wf(),
        ensures
            runtime_result(r) == loaded(
                options,
                read_model(bytes@),
                path@,
                build_directory,
            ),
            r matches Ok(runtime) ==> runtime@.wf() && runtime@.is_loading(),
    {
        match options.validate() {
            Err(error) => {
                return Err(error);
            },
            Ok(()) => {},
        }
        let (format, info) = match inspect(bytes, path, &options) {
            Err(error) => {
                return Err(error);
            },
            Ok(found) => found,
        };
        OnnxRuntime::load_internal(format, info, options, build_directory)
    }

    /// Load a model that has been inspected.
    pub fn load_internal(
        format: ModelFormat,
        info: ModelInfo,
        options: OnnxOptions,
        build_directory: Option<HostText>,
    ) -> (r: Result<OnnxRuntime, Error>)
        requires
            options.wf(),
            options.fault() is None,
        ensures
            runtime_result(r) == if format == ModelFormat::EpContext && build_directory is Some {
                Err(ErrorView::Fault(Fault::CompileOriginal))
            } else {
                Ok(
                    RuntimeView::loading(
                        options,
                        info@,
                        format == ModelFormat::EpContext,
                        build_directory,
                    ),
                )
            },
            r matches Ok(runtime) ==> runtime@.wf() && runtime@.is_loading(),
    {
        let is_ep_context = match format {
            ModelFormat::EpContext => true,
            ModelFormat::Onnx => false,
        };
        if is_ep_context && build_directory.is_some() {
            return Err(Error::Fault(Fault::CompileOriginal));
        }
        let runtime = OnnxRuntime {
            options,
            info,
            active: None,
            fallback_events: Vec::new(),
            is_ep_context,
            candidate: 0,
            build_directory,
        };
        assert(runtime@.events =~= Seq::<FailureView>::empty());
        Ok(runtime)
    }

    /// Primary registered provider, not a claim that every node runs on that provider.
    pub fn backend(&self) -> (r: Option<&str>)
        requires
            self@.wf(),
        ensures
            match r {
                None => self@.active is None,
                Some(name) => self@.active is Some && name@
                    == self@.candidates()[self@.candidate].label(),
            },
    {
        match &self.active {
            None => None,
            Some(_) => Some(self.options.backend.candidates()[self.candidate].name()),
        }
    }

    /// Whole-session provider failures recorded during loading or inference.
    pub fn fallback_events(&self) -> (r: &[FallbackEvent])
        ensures
            failure_views(r@) == self@.events,
    {
        self.fallback_events.as_slice()
    }

    /// Whether the active session has reusable buffers for fixed-shape tensor I/O.
    pub fn is_prepared(&self) -> (r: bool)
        ensures
            r == self@.prepared(),
    {
        match &self.active {
            None => false,
            Some(active) => active.buffers().is_some(),
        }
    }

    /// Whether the active session is configured for graph capture/replay.
    pub fn cuda_graph_enabled(&self) -> (r: bool)
        ensures
            r == (self@.active matches Some(session) && session.graph_enabled),
    {
        match &self.active {
            None => false,
            Some(active) => active.graph_enabled(),
        }
    }

    /// Return the ONNX model input/output metadata.
    pub fn info(&self) -> (r: &ModelInfo)
        ensures
            r@ == self@.info,
    {
        &self.info
    }

    /// Whether profiling can be finished, and how to coordinate that.
    /// Enable profiling with [`OnnxOptions::profiling`] before loading the model.
    pub fn end_profiling(&self) -> (r: Result<Access, Error>)
        ensures
            match self@.active {
                None => failure(r) == Some(ErrorView::Fault(Fault::NoActiveBackend)),
                Some(_) => r is Ok && r->Ok_0 == Access::Shared,
            },
    {
        match &self.active {
            None => Err(Error::Fault(Fault::NoActiveBackend)),
            Some(active) => Ok(active.end_profiling()),
        }
    }
}

/// Whether an opened session can become the active one.
pub open spec fn fits_candidate(runtime: RuntimeView, session: SessionView, info: InfoView) -> bool {
    &&& session.backend_index == runtime.candidate
    &&& session.buffers matches Some(buffers) ==> buffers.prepared_for(info)
    &&& session.capture_pending ==> session.graph_enabled
}

/// A result with a provider's failure explained.
pub open spec fn explained_device(
    backend: Backend,
    r: Result<Option<i32>, ErrorView>,
) -> Result<Option<i32>, ErrorView> {
    match r {
        Ok(device) => Ok(device),
        Err(error) => Err(explained(backend, error)),
    }
}

/// A result with a provider's failure explained.
pub open spec fn explained_providers(
    backend: Backend,
    r: Result<Seq<crate::session::ProviderView>, ErrorView>,
) -> Result<Seq<crate::session::ProviderView>, ErrorView> {
    match r {
        Ok(plans) => Ok(plans),
        Err(error) => Err(explained(backend, error)),
    }
}

impl OnnxRuntime {
    /// Whether no session is active and the current candidate is to be opened.
    pub fn is_loading(&self) -> (r: bool)
        ensures
            r == self@.is_loading(),
    {
        self.active.is_none() && self.candidate < self.options.backend.candidates().len()
    }

    /// The device on which the current candidate's session needs a stream.
    pub fn load_stream(&self, environment: &Environment) -> (r: Result<Option<i32>, Error>)
        requires
            self@.wf(),
            self@.is_loading(),
        ensures
            device_result(r) == explained_device(
                self@.candidates()[self@.candidate],
                stream_device(self@.options, self@.candidate, environment.tf32_override),
            ),
    {
        match stream_for_backend(&self.options, self.candidate, environment) {
            Ok(device) => Ok(device),
            Err(error) => Err(self.provider_failed(error)),
        }
    }

    /// How the current candidate's session is to be configured.
    pub fn load_builder(&self, environment: &Environment) -> (r: Result<BuilderPlan, Error>)
        requires
            self@.wf(),
            self@.is_loading(),
        ensures
            ({
                let backend = self@.candidates()[self@.candidate];
                &&& failure(r) == if is_raw_gpu_provider(backend) {
                    Some(explained(backend, ErrorView::Fault(Fault::CustomGpuProvider)))
                } else {
                    None
                }
                &&& r matches Ok(plan) ==> {
                    &&& plan.intra_threads == self@.options.intra_threads
                    &&& plan.inter_threads == self@.options.inter_threads
                    &&& plan.parallel_execution == self@.options.parallel_execution
                    &&& crate::session::lists_overrides(
                        plan.dimension_overrides@,
                        self@.options.dimension_overrides@,
                    )
                    &&& plan.profiling == self@.options.profiling
                    &&& plan.disable_cpu_fallback == (self@.is_final()
                        && !crate::session::is_cpu_target(backend))
                    &&& crate::session::plans_result(plan.providers) == explained_providers(
                        backend,
                        crate::session::planned_providers(
                            self@.options,
                            self@.candidate,
                            self@.is_ep_context,
                            captures_graph(
                                self@.options,
                                self@.candidate,
                                self@.is_ep_context,
                                self@.info,
                            ),
                            self@.build_directory,
                            environment.tf32_override,
                            environment.tensorrt_cache,
                        ),
                    )
                }
            }),
    {
        let graph = graph_enabled(
            &self.options,
            self.candidate,
            self.is_ep_context,
            &self.info,
        );
        match configured_builder(
            &self.options,
            self.candidate,
            self.is_ep_context,
            graph,
            &self.build_directory,
            environment,
        ) {
            Err(error) => Err(self.provider_failed(error)),
            Ok(plan) => {
                let mut plan = plan;
                plan.providers = match plan.providers {
                    Ok(providers) => Ok(providers),
                    Err(error) => Err(self.provider_failed(error)),
                };
                Ok(plan)
            },
        }
    }

    /// Explain a native failure of the current candidate.
    pub fn provider_failed(&self, error: Error) -> (r: Error)
        requires
            self@.candidate < self@.candidates().len(),
        ensures
            r@ == explained(self@.candidates()[self@.candidate], error@),
    {
        provider_error(&self.options.backend.candidates()[self.candidate], error)
    }

    /// Make a session of what the current candidate's native session reports.
    pub fn open(&self, inputs: &Vec<Outlet>, outputs: &Vec<Outlet>) -> (r: Result<
        (ActiveSession, ModelInfo),
        Error,
    >)
        requires
            self@.wf(),
            self@.is_loading(),
        ensures
            crate::session::session_result(r) == opened(
                self@.options,
                self@.candidate,
                self@.is_ep_context,
                self@.info,
                outlet_views(inputs@),
                outlet_views(outputs@),
            ),
            r matches Ok((session, info)) ==> fits_candidate(self@, session@, info@),
    {
        let r = crate::session::load(
            &self.options,
            self.candidate,
            self.is_ep_context,
            &self.info,
            inputs,
            outputs,
        );
        proof {
            if r is Ok && r->Ok_0.0@.buffers is Some {
                let buffers = r->Ok_0.0@.buffers->0;
                lemma_fresh_buffers_match(
                    r->Ok_0.1@,
                    buffers.device_id,
                    buffers.rebind_inputs,
                );
            }
        }
        r
    }

    /// Make an opened session the active one.
    pub fn activate(&mut self, session: ActiveSession, info: ModelInfo)
        requires
            old(self)@.wf(),
            old(self)@.is_loading(),
            fits_candidate(old(self)@, session@, info@),
        ensures
            final(self)@ == old(self)@.activated(session@, info@),
            final(self)@.wf(),
    {
        self.info = info;
        self.active = Some(session);
        self.build_directory = None;
    }

    fn give_up(&mut self, error: &Error) -> (r: Result<(), Error>)
        requires
            old(self)@.wf(),
            old(self)@.candidate < old(self)@.candidates().len(),
        ensures
            final(self)@ == old(self)@.given_up(error@),
            final(self)@.wf(),
            failure(r) == final(self)@.exhausted(),
    {
        let ghost start = self@;
        let count: usize = self.options.backend.candidates().len();
        let backend = self.options.backend.candidates()[self.candidate].name().to_owned();
        let ghost events = self.fallback_events@;
        self.fallback_events.push(FallbackEvent { backend, error: error.report() });
        assert(failure_views(self.fallback_events@) =~= failure_views(events).push(
            FailureView { backend: backend@, error: error@.report() },
        ));
        self.active = None;
        self.candidate += 1;
        assert(self@ =~= start.given_up(error@));
        if self.candidate < count {
            return Ok(());
        }
        Err(
            Error::BackendsFailed {
                ep_context: self.is_ep_context,
                report: failure_report(&self.fallback_events),
            },
        )
    }

    /// Record that the current candidate could not be opened. The next one is then
    /// to be opened, unless none is left.
    pub fn load_failed(&mut self, error: Error) -> (r: Result<(), Error>)
        requires
            old(self)@.wf(),
            old(self)@.is_loading(),
        ensures
            final(self)@ == old(self)@.given_up(error@),
            final(self)@.wf(),
            failure(r) == final(self)@.exhausted(),
    {
        self.give_up(&error)
    }

    fn fallback(&mut self, error: Error) -> (r: Result<(), Error>)
        requires
            old(self)@.wf(),
        ensures
            final(self)@ == old(self)@.fallen_back(error@),
            final(self)@.wf(),
            failure(r) == old(self)@.fallback_fault(error@),
    {
        if self.active.is_none() {
            return Err(Error::Fault(Fault::NoActiveBackend));
        }
        if self.is_ep_context || self.options.backend.strict() {
            return Err(error);
        }
        self.give_up(&error)
    }

    /// Check inputs against the model.
    pub fn validate_inputs(&self, inputs: &[TensorView<'_>]) -> (r: Result<(), Error>)
        ensures
            failure(r) == inputs_fault(self@.info.inputs, view_models(inputs@)),
    {
        check_inputs(&self.info.inputs, inputs)
    }

    /// Begin an inference from borrowed inputs.
    pub fn inference(&mut self, inputs: &[TensorView<'_>]) -> (r: Result<Step, Error>)
        requires
            old(self)@.wf(),
        ensures
            ({
                let models = view_models(inputs@);
                match inputs_fault(old(self)@.info.inputs, models) {
                    Some(error) => {
                        &&& failure(r) == Some(error)
                        &&& final(self)@ == old(self)@
                    },
                    None => {
                        &&& step_result(r) == old(self)@.attempt(models)
                        &&& final(self)@ == old(self)@.attempted(models)
                    },
                }
            }),
            final(self)@.wf(),
    {
        match self.validate_inputs(inputs) {
            Err(error) => Err(error),
            Ok(()) => self.retry(inputs),
        }
    }

    /// Begin the inference again, after a fallback has opened another candidate. The
    /// inputs were checked when the inference was begun.
    pub fn retry(&mut self, inputs: &[TensorView<'_>]) -> (r: Result<Step, Error>)
        requires
            old(self)@.wf(),
        ensures
            step_result(r) == old(self)@.attempt(view_models(inputs@)),
            final(self)@ == old(self)@.attempted(view_models(inputs@)),
            final(self)@.wf(),
    {
        let ghost models = view_models(inputs@);
        let begun = match &mut self.active {
            None => {
                return Err(Error::Fault(Fault::NoActiveBackend));
            },
            Some(active) => active.inference(inputs),
        };
        proof {
            lemma_feeding_keeps_wf(old(self)@, models);
        }
        match begun {
            Ok(run) => Ok(Step::Run(run)),
            Err(error) => match self.fallback(error) {
                Ok(()) => Ok(Step::Load),
                Err(error) => Err(error),
            },
        }
    }

    /// Whether an outcome can be that of a run of the active session.
    pub fn accepts(&self, outcome: &Outcome) -> (r: bool)
        ensures
            r == self@.admits(outcome@),
    {
        match &self.active {
            None => false,
            Some(active) => match (active.buffers(), outcome) {
                (Some(buffers), Outcome::Prepared(outcome)) => buffers.accepts(outcome),
                (None, Outcome::Dynamic(Ok(values))) => fits_model(values, &self.info.outputs),
                (None, Outcome::Dynamic(Err(_))) => true,
                _ => false,
            },
        }
    }

    fn record(&mut self, outcome: Outcome) -> (r: Result<Vec<Tensor>, Error>)
        requires
            old(self)@.wf(),
            old(self)@.admits(outcome@),
        ensures
            final(self)@ == old(self)@.recorded(outcome@),
            final(self)@.wf(),
            crate::session::tensors_result(r) == old(self)@.produced(outcome@),
    {
        match outcome {
            Outcome::Dynamic(Err(error)) => Err(error),
            Outcome::Dynamic(Ok(values)) => owned_outputs(&self.info.outputs, values),
            Outcome::Prepared(outcome) => {
                proof {
                    lemma_recording_keeps_wf(old(self)@, outcome@);
                }
                match &mut self.active {
                    None => Ok(Vec::new()),
                    Some(active) => {
                        match active.finish_run(outcome) {
                            Err(error) => {
                                return Err(error);
                            },
                            Ok(()) => {},
                        }
                        match active.buffers() {
                            None => Ok(Vec::new()),
                            Some(buffers) => Ok(buffers.outputs_to_owned()),
                        }
                    },
                }
            },
        }
    }

    /// Finish an inference: owned, CPU-ready tensors in the order of the model's
    /// outputs, or `None` where the run failed and the next candidate is to be opened.
    pub fn finish_inference(&mut self, outcome: Outcome) -> (r: Result<Option<Vec<Tensor>>, Error>)
        requires
            old(self)@.wf(),
            old(self)@.admits(outcome@),
        ensures
            final(self)@ == old(self)@.finished(outcome@),
            final(self)@.wf(),
            failure(r) == old(self)@.end(outcome@),
            r matches Ok(values) ==> match old(self)@.produced(outcome@) {
                Ok(tensors) => values is Some && tensor_models(values->0@) == tensors
                    && is_output_of(tensors, old(self)@.info.outputs),
                Err(_) => values is None,
            },
    {
        proof {
            if old(self)@.produced(outcome@) is Ok {
                lemma_outputs_come_in_model_order(old(self)@, outcome@);
            }
        }
        match self.record(outcome) {
            Ok(values) => Ok(Some(values)),
            Err(error) => match self.fallback(error) {
                Ok(()) => Ok(None),
                Err(error) => Err(error),
            },
        }
    }

    /// Begin an inference into caller-owned output buffers. Fixed tensor I/O reuses
    /// the kept tensors; there the buffers are checked before anything is run.
    pub fn inference_into(
        &mut self,
        inputs: &[TensorView<'_>],
        outputs: &[TensorViewMut<'_>],
    ) -> (r: Result<IntoStep, Error>)
        requires
            old(self)@.wf(),
        ensures
            ({
                let models = view_models(inputs@);
                let targets = target_models(outputs@);
                let fault = inputs_fault(old(self)@.info.inputs, models);
                let target_fault = outputs_fault(old(self)@.info.outputs, targets);
                if fault is Some {
                    &&& failure(r) == fault
                    &&& final(self)@ == old(self)@
                } else if old(self)@.prepared() && target_fault is Some {
                    &&& failure(r) == target_fault
                    &&& final(self)@ == old(self)@
                } else {
                    &&& into_result(r) == old(self)@.into_attempt(models)
                    &&& final(self)@ == old(self)@.into_attempted(models)
                }
            }),
            final(self)@.wf(),
    {
        match self.validate_inputs(inputs) {
            Err(error) => {
                return Err(error);
            },
            Ok(()) => {},
        }
        if self.is_prepared() {
            match check_outputs(&self.info.outputs, outputs) {
                Err(error) => {
                    return Err(error);
                },
                Ok(()) => {},
            }
        }
        self.retry_into(inputs)
    }

    /// Begin the inference into buffers again, after a fallback has opened another
    /// candidate.
    pub fn retry_into(&mut self, inputs: &[TensorView<'_>]) -> (r: Result<IntoStep, Error>)
        requires
            old(self)@.wf(),
        ensures
            into_result(r) == old(self)@.into_attempt(view_models(inputs@)),
            final(self)@ == old(self)@.into_attempted(view_models(inputs@)),
            final(self)@.wf(),
    {
        if !self.is_prepared() {
            return match self.inference(inputs) {
                Ok(step) => Ok(IntoStep::Collect(step)),
                Err(error) => Err(error),
            };
        }
        proof {
            lemma_feeding_keeps_wf(old(self)@, view_models(inputs@));
        }
        match &mut self.active {
            None => Err(Error::Fault(Fault::NoActiveBackend)),
            Some(active) => match active.inference(inputs) {
                Ok(run) => Ok(IntoStep::Direct(run)),
                Err(error) => Err(error),
            },
        }
    }

    /// Finish an inference into buffers after a run of the kept tensors: `true` where
    /// the buffers are filled, `false` where the run failed and the next candidate is
    /// to be opened.
    pub fn finish_inference_into(
        &mut self,
        outcome: RunOutcome,
        outputs: &mut [TensorViewMut<'_>],
    ) -> (r: Result<bool, Error>)
        requires
            old(self)@.wf(),
            old(self)@.admits(ResultView::Prepared(outcome@)),
        ensures
            ({
                let before = old(self)@;
                let result = ResultView::Prepared(outcome@);
                let targets = target_models(old(outputs)@);
                &&& final(self)@ == before.finished(result)
                &&& match before.produced(result) {
                    Ok(tensors) => {
                        &&& failure(r) == poured(tensors, targets).1
                        &&& target_models(final(outputs)@) == poured(tensors, targets).0
                    },
                    Err(_) => {
                        &&& failure(r) == before.end(result)
                        &&& target_models(final(outputs)@) == targets
                    },
                }
                &&& r matches Ok(done) ==> done == (before.produced(result) is Ok)
            }),
            final(self)@.wf(),
            final(outputs)@.len() == old(outputs)@.len(),
            forall|i: int|
                0 <= i < old(outputs)@.len() ==> match (
                    (#[trigger] old(outputs)@[i]).data,
                    final(outputs)@[i].data,
                ) {
                (TensorDataMut::F32(a), TensorDataMut::F32(b)) => final(a)@ == final(b)@,
                (TensorDataMut::F64(a), TensorDataMut::F64(b)) => final(a)@ == final(b)@,
                (TensorDataMut::F16(a), TensorDataMut::F16(b)) => final(a)@ == final(b)@,
                (TensorDataMut::BF16(a), TensorDataMut::BF16(b)) => final(a)@ == final(b)@,
                (TensorDataMut::I64(a), TensorDataMut::I64(b)) => final(a)@ == final(b)@,
                (TensorDataMut::I32(a), TensorDataMut::I32(b)) => final(a)@ == final(b)@,
                (TensorDataMut::I16(a), TensorDataMut::I16(b)) => final(a)@ == final(b)@,
                (TensorDataMut::I8(a), TensorDataMut::I8(b)) => final(a)@ == final(b)@,
                (TensorDataMut::U64(a), TensorDataMut::U64(b)) => final(a)@ == final(b)@,
                (TensorDataMut::U32(a), TensorDataMut::U32(b)) => final(a)@ == final(b)@,
                (TensorDataMut::U16(a), TensorDataMut::U16(b)) => final(a)@ == final(b)@,
                (TensorDataMut::U8(a), TensorDataMut::U8(b)) => final(a)@ == final(b)@,
                (TensorDataMut::Bool(a), TensorDataMut::Bool(b)) => final(a)@ == final(b)@,
                _ => false,
            },
    {
        proof {
            lemma_recording_keeps_wf(old(self)@, outcome@);
        }
        let result = match &mut self.active {
            None => Ok(()),
            Some(active) => active.finish_run(outcome),
        };
        match result {
            Err(error) => match self.fallback(error) {
                Ok(()) => Ok(false),
                Err(error) => Err(error),
            },
            Ok(()) => {
                let buffers = match &self.active {
                    None => {
                        return Ok(true);
                    },
                    Some(active) => match active.buffers() {
                        None => {
                            return Ok(true);
                        },
                        Some(buffers) => buffers,
                    },
                };
                match pour(buffers, outputs) {
                    Err(error) => Err(error),
                    Ok(()) => Ok(true),
                }
            },
        }
    }

    /// Borrow a persistent input buffer for fixed-shape tensor I/O.
    /// Inputs are initialized to zero when the session is loaded. The borrow
    /// invalidates the outputs.
    pub fn input_mut(&mut self, name: &str) -> (r: Result<TensorViewMut<'_>, Error>)
        requires
            old(self)@.wf(),
        ensures
            if !old(self)@.prepared() {
                &&& failure(r) == Some(ErrorView::Fault(Fault::InputsUnavailable))
                &&& final(self)@ == old(self)@
            } else {
                match first_index(tensor_names(old(self)@.buffers().inputs), name@, 0) {
                    None => {
                        &&& failure(r) == Some(ErrorView::Fault(Fault::UnknownInput))
                        &&& final(self)@ == old(self)@.with(
                            old(self)@.active->0.invalidated(),
                        )
                    },
                    Some(at) => r is Ok && r->Ok_0.model() == old(self)@.buffers().inputs[at]
                        && match r->Ok_0.data {
                        TensorDataMut::F32(x) => final(self)@ == old(self)@.edited(
                            at,
                            Elements::F32(final(x)@),
                        ),
                        TensorDataMut::F64(x) => final(self)@ == old(self)@.edited(
                            at,
                            Elements::F64(final(x)@),
                        ),
                        TensorDataMut::F16(x) => final(self)@ == old(self)@.edited(
                            at,
                            Elements::F16(final(x)@),
                        ),
                        TensorDataMut::BF16(x) => final(self)@ == old(self)@.edited(
                            at,
                            Elements::BF16(final(x)@),
                        ),
                        TensorDataMut::I64(x) => final(self)@ == old(self)@.edited(
                            at,
                            Elements::I64(final(x)@),
                        ),
                        TensorDataMut::I32(x) => final(self)@ == old(self)@.edited(
                            at,
                            Elements::I32(final(x)@),
                        ),
                        TensorDataMut::I16(x) => final(self)@ == old(self)@.edited(
                            at,
                            Elements::I16(final(x)@),
                        ),
                        TensorDataMut::I8(x) => final(self)@ == old(self)@.edited(
                            at,
                            Elements::I8(final(x)@),
                        ),
                        TensorDataMut::U64(x) => final(self)@ == old(self)@.edited(
                            at,
                            Elements::U64(final(x)@),
                        ),
                        TensorDataMut::U32(x) => final(self)@ == old(self)@.edited(
                            at,
                            Elements::U32(final(x)@),
                        ),
                        TensorDataMut::U16(x) => final(self)@ == old(self)@.edited(
                            at,
                            Elements::U16(final(x)@),
                        ),
                        TensorDataMut::U8(x) => final(self)@ == old(self)@.edited(
                            at,
                            Elements::U8(final(x)@),
                        ),
                        TensorDataMut::Bool(x) => final(self)@ == old(self)@.edited(
                            at,
                            Elements::Bool(final(x)@),
                        ),
                    },
                }
            },
    {
        match &mut self.active {
            None => Err(Error::Fault(Fault::InputsUnavailable)),
            Some(active) => match active.buffers_mut() {
                None => Err(Error::Fault(Fault::InputsUnavailable)),
                Some(buffers) => buffers.input_mut(name),
            },
        }
    }

    /// The persistent inputs, as a run is to use them; none without a prepared session.
    pub fn prepared_inputs(&self) -> (r: Vec<TensorView<'_>>)
        ensures
            view_models(r@) == if self@.prepared() {
                self@.buffers().inputs
            } else {
                Seq::empty()
            },
    {
        if let Some(active) = &self.active {
            if let Some(buffers) = active.buffers() {
                return buffers.input_views();
            }
        }
        let none: Vec<TensorView<'_>> = Vec::new();
        assert(view_models(none@) =~= Seq::<TensorModel>::empty());
        none
    }

    /// Borrow the last successful prepared output. The borrow expires before the next run.
    pub fn output(&self, name: &str) -> (r: Result<TensorView<'_>, Error>)
        ensures
            if !self@.prepared() {
                failure(r) == Some(ErrorView::Fault(Fault::BuffersUnavailable))
            } else if !self@.buffers().outputs_valid {
                failure(r) == Some(ErrorView::Fault(Fault::NoOutput))
            } else {
                match first_index(tensor_names(self@.buffers().outputs), name@, 0) {
                    None => failure(r) == Some(ErrorView::Fault(Fault::UnknownOutput)),
                    Some(at) => r is Ok && r->Ok_0.model() == self@.buffers().outputs[at],
                }
            },
    {
        match &self.active {
            None => Err(Error::Fault(Fault::BuffersUnavailable)),
            Some(active) => match active.buffers() {
                None => Err(Error::Fault(Fault::BuffersUnavailable)),
                Some(buffers) => buffers.output(name),
            },
        }
    }

    /// Begin a run of the fixed-shape model on its persistent input and output buffers.
    pub fn run(&mut self) -> (r: Result<NativeRun, Error>)
        requires
            old(self)@.wf(),
        ensures
            match old(self)@.active {
                None => {
                    &&& failure(r) == Some(ErrorView::Fault(Fault::NoActiveBackend))
                    &&& final(self)@ == old(self)@
                },
                Some(session) => {
                    &&& final(self)@ == old(self)@.with(session.begun())
                    &&& if session.buffers is None {
                        failure(r) == Some(ErrorView::Fault(Fault::BuffersUnavailable))
                    } else {
                        r is Ok && r->Ok_0 == session.native_run()
                    }
                },
            },
            final(self)@.wf(),
    {
        match &mut self.active {
            None => Err(Error::Fault(Fault::NoActiveBackend)),
            Some(active) => active.run(),
        }
    }

    /// Finish a run of the persistent buffers. Where it failed and the next candidate
    /// is to be opened, this gives back the inputs, for which an inference is then to
    /// be made there.
    pub fn finish_run(&mut self, outcome: RunOutcome) -> (r: Result<Option<Vec<Tensor>>, Error>)
        requires
            old(self)@.wf(),
            old(self)@.admits(ResultView::Prepared(outcome@)),
        ensures
            final(self)@ == old(self)@.finished(ResultView::Prepared(outcome@)),
            final(self)@.wf(),
            failure(r) == old(self)@.end(ResultView::Prepared(outcome@)),
            r matches Ok(inputs) ==> if outcome@ is Done {
                inputs is None
            } else {
                inputs is Some && tensor_models(inputs->0@) == old(self)@.buffers().inputs
            },
    {
        proof {
            lemma_recording_keeps_wf(old(self)@, outcome@);
        }
        let (result, inputs) = match &mut self.active {
            None => (Ok(()), None),
            Some(active) => {
                // Copy the inputs before the failed session is dropped.
                let inputs = match active.buffers() {
                    None => None,
                    Some(buffers) => Some(buffers.inputs_to_owned()),
                };
                (active.finish_run(outcome), inputs)
            },
        };
        match result {
            Ok(()) => Ok(None),
            Err(error) => match self.fallback(error) {
                Ok(()) => Ok(inputs),
                Err(error) => Err(error),
            },
        }
    }

    /// Whether the outputs of an inference that replaced a failed run can be borrowed.
    pub fn finish_replay(&self) -> (r: Result<(), Error>)
        ensures
            failure(r) == if self@.prepared() {
                None
            } else {
                Some(ErrorView::Fault(Fault::FallbackUnprepared))
            },
    {
        if !self.is_prepared() {
            return Err(Error::Fault(Fault::FallbackUnprepared));
        }
        Ok(())
    }
}

/// A buffer with the elements of the tensor of its name, or why they do not fit.
pub open spec fn poured_one(tensors: Seq<TensorModel>, target: TensorModel) -> Result<
    TensorModel,
    ErrorView,
> {
    match first_index(tensor_names(tensors), target.name, 0) {
        None => Err(ErrorView::Fault(Fault::UnknownOutput)),
        Some(at) => match crate::tensor::copy_fault(target.data, tensors[at].data) {
            Some(error) => Err(error),
            None => Ok(TensorModel { data: tensors[at].data, ..target }),
        },
    }
}

/// Buffers after the tensors of their names were copied to them in turn, up to the
/// first that does not fit, and what is wrong with that one.
pub open spec fn poured_up_to(tensors: Seq<TensorModel>, targets: Seq<TensorModel>, n: int) -> (
    Seq<TensorModel>,
    Option<ErrorView>,
)
    decreases n,
{
    if n <= 0 {
        (targets, None)
    } else {
        let (before, fault) = poured_up_to(tensors, targets, n - 1);
        if fault is Some {
            (before, fault)
        } else {
            match poured_one(tensors, targets[n - 1]) {
                Err(error) => (before, Some(error)),
                Ok(filled) => (before.update(n - 1, filled), None),
            }
        }
    }
}

/// Buffers after tensors were copied to them.
pub open spec fn poured(tensors: Seq<TensorModel>, targets: Seq<TensorModel>) -> (
    Seq<TensorModel>,
    Option<ErrorView>,
) {
    poured_up_to(tensors, targets, targets.len() as int)
}

proof fn lemma_pouring_stops(
    tensors: Seq<TensorModel>,
    targets: Seq<TensorModel>,
    n: int,
    m: int,
)
    requires
        0 <= n <= m,
        poured_up_to(tensors, targets, n).1 is Some,
    ensures
        poured_up_to(tensors, targets, m) == poured_up_to(tensors, targets, n),
    decreases m - n,
{
    if n < m {
        lemma_pouring_stops(tensors, targets, n, m - 1);
    }
}

fn pour(buffers: &InferenceBuffers, outputs: &mut [TensorViewMut<'_>]) -> (r: Result<(), Error>)
    requires
        buffers@.outputs_valid,
    ensures
        failure(r) == poured(buffers@.outputs, target_models(old(outputs)@)).1,
        target_models(final(outputs)@) == poured(
            buffers@.outputs,
            target_models(old(outputs)@),
        ).0,
        final(outputs)@.len() == old(outputs)@.len(),
        forall|i: int|
            0 <= i < old(outputs)@.len() ==> match (
                (#[trigger] old(outputs)@[i]).data,
                final(outputs)@[i].data,
            ) {
                (TensorDataMut::F32(a), TensorDataMut::F32(b)) => final(a)@ == final(b)@,
                (TensorDataMut::F64(a), TensorDataMut::F64(b)) => final(a)@ == final(b)@,
                (TensorDataMut::F16(a), TensorDataMut::F16(b)) => final(a)@ == final(b)@,
                (TensorDataMut::BF16(a), TensorDataMut::BF16(b)) => final(a)@ == final(b)@,
                (TensorDataMut::I64(a), TensorDataMut::I64(b)) => final(a)@ == final(b)@,
                (TensorDataMut::I32(a), TensorDataMut::I32(b)) => final(a)@ == final(b)@,
                (TensorDataMut::I16(a), TensorDataMut::I16(b)) => final(a)@ == final(b)@,
                (TensorDataMut::I8(a), TensorDataMut::I8(b)) => final(a)@ == final(b)@,
                (TensorDataMut::U64(a), TensorDataMut::U64(b)) => final(a)@ == final(b)@,
                (TensorDataMut::U32(a), TensorDataMut::U32(b)) => final(a)@ == final(b)@,
                (TensorDataMut::U16(a), TensorDataMut::U16(b)) => final(a)@ == final(b)@,
                (TensorDataMut::U8(a), TensorDataMut::U8(b)) => final(a)@ == final(b)@,
                (TensorDataMut::Bool(a), TensorDataMut::Bool(b)) => final(a)@ == final(b)@,
                _ => false,
            },
{
    let ghost tensors = buffers@.outputs;
    let ghost models = target_models(outputs@);
    let count: usize = outputs.len();
    for i in 0..count
        invariant
            buffers@.outputs_valid,
            tensors == buffers@.outputs,
            count == outputs@.len(),
            count == old(outputs)@.len(),
            models == target_models(old(outputs)@),
            poured_up_to(tensors, models, i as int).1 is None,
            target_models(outputs@) == poured_up_to(tensors, models, i as int).0,
            forall|j: int| i <= j < count ==> outputs@[j] == old(outputs)@[j],
            forall|j: int|
                0 <= j < count ==> match ((#[trigger] old(outputs)@[j]).data, outputs@[j].data) {
                (TensorDataMut::F32(a), TensorDataMut::F32(b)) => final(a)@ == final(b)@,
                (TensorDataMut::F64(a), TensorDataMut::F64(b)) => final(a)@ == final(b)@,
                (TensorDataMut::F16(a), TensorDataMut::F16(b)) => final(a)@ == final(b)@,
                (TensorDataMut::BF16(a), TensorDataMut::BF16(b)) => final(a)@ == final(b)@,
                (TensorDataMut::I64(a), TensorDataMut::I64(b)) => final(a)@ == final(b)@,
                (TensorDataMut::I32(a), TensorDataMut::I32(b)) => final(a)@ == final(b)@,
                (TensorDataMut::I16(a), TensorDataMut::I16(b)) => final(a)@ == final(b)@,
                (TensorDataMut::I8(a), TensorDataMut::I8(b)) => final(a)@ == final(b)@,
                (TensorDataMut::U64(a), TensorDataMut::U64(b)) => final(a)@ == final(b)@,
                (TensorDataMut::U32(a), TensorDataMut::U32(b)) => final(a)@ == final(b)@,
                (TensorDataMut::U16(a), TensorDataMut::U16(b)) => final(a)@ == final(b)@,
                (TensorDataMut::U8(a), TensorDataMut::U8(b)) => final(a)@ == final(b)@,
                (TensorDataMut::Bool(a), TensorDataMut::Bool(b)) => final(a)@ == final(b)@,
                    _ => false,
                },
    {
        let ghost before = target_models(outputs@);
        let target = &mut outputs[i];
        match buffers.output(target.name) {
            Err(error) => {
                proof {
                    lemma_pouring_stops(tensors, models, i + 1, count as int);
                }
                assert(target_models(outputs@) =~= before);
                return Err(error);
            },
            Ok(view) => {
                match target.data.copy_from(view.data) {
                    Err(error) => {
                        proof {
                            lemma_pouring_stops(tensors, models, i + 1, count as int);
                        }
                        assert(target_models(outputs@) =~= before);
                        return Err(error);
                    },
                    Ok(()) => {},
                }
            },
        }
        assert(target_models(outputs@) =~= before.update(
            i as int,
            poured_one(tensors, models[i as int])->Ok_0,
        ));
    }
    Ok(())
}

proof fn lemma_fresh_buffers_match(info: InfoView, device_id: Option<i32>, rebind_inputs: bool)
    requires
        crate::buffers::is_eligible(info),
    ensures
        BuffersView::fresh(info, device_id, rebind_inputs).prepared_for(info),
{
    let buffers = BuffersView::fresh(info, device_id, rebind_inputs);
    assert forall|i: int| 0 <= i < info.inputs.len() implies crate::buffers::slot_matches(
        #[trigger] buffers.inputs[i],
        info.inputs[i],
    ) by {
        lemma_zero_slot_matches(info.inputs[i]);
    }
    assert forall|i: int| 0 <= i < info.outputs.len() implies crate::buffers::slot_matches(
        #[trigger] buffers.outputs[i],
        info.outputs[i],
    ) by {
        lemma_zero_slot_matches(info.outputs[i]);
    }
}

proof fn lemma_zero_slot_matches(spec: SpecView)
    requires
        crate::buffers::is_fixed_positive(spec),
    ensures
        crate::buffers::slot_matches(crate::buffers::zero_slot(spec), spec),
{
    let dims = spec.shape->0;
    assert forall|i: int| 0 <= i < dims.len() implies dims[i] is Some by {}
}

proof fn lemma_fed_slots_match(slots: Seq<TensorModel>, inputs: Seq<TensorModel>, specs: Seq<SpecView>)
    requires
        crate::buffers::slots_match(slots, specs),
    ensures
        crate::buffers::slots_match(crate::buffers::fed(slots, inputs).0, specs),
    decreases inputs.len(),
{
    if inputs.len() > 0 {
        lemma_fed_slots_match(slots, inputs.drop_last(), specs);
        let (before, fault) = crate::buffers::fed(slots, inputs.drop_last());
        crate::text::lemma_first_index(tensor_names(before), inputs.last().name, 0);
    }
}

/// Whether tensors are one for each of the model's outputs, in their order and with
/// their names and element types.
pub open spec fn is_output_of(tensors: Seq<TensorModel>, specs: Seq<SpecView>) -> bool {
    &&& tensors.len() == specs.len()
    &&& forall|i: int|
        0 <= i < tensors.len() ==> (#[trigger] tensors[i]).name == specs[i].name
            && tensors[i].data.dtype() == specs[i].dtype
}

proof fn lemma_named_outputs(specs: Seq<SpecView>, values: Seq<RawView>)
    requires
        values.len() <= specs.len(),
        named_outputs(specs, values) is Ok,
    ensures
        named_outputs(specs, values)->Ok_0.len() == values.len(),
        forall|i: int|
            0 <= i < values.len() ==> (#[trigger] named_outputs(specs, values)->Ok_0[i]).name
                == specs[i].name && named_outputs(specs, values)->Ok_0[i].data == values[i].data,
    decreases values.len(),
{
    if values.len() > 0 {
        lemma_named_outputs(specs, values.drop_last());
    }
}

/// What a run produces are the model's outputs.
pub proof fn lemma_outputs_come_in_model_order(runtime: RuntimeView, outcome: ResultView)
    requires
        runtime.wf(),
        runtime.admits(outcome),
        runtime.produced(outcome) is Ok,
    ensures
        is_output_of(runtime.produced(outcome)->Ok_0, runtime.info.outputs),
{
    let tensors = runtime.produced(outcome)->Ok_0;
    let specs = runtime.info.outputs;
    match outcome {
        ResultView::Prepared(outcome) => {
            let buffers = runtime.buffers();
            let values = outcome->Done_0;
            assert forall|i: int| 0 <= i < tensors.len() implies (#[trigger] tensors[i]).name
                == specs[i].name && tensors[i].data.dtype() == specs[i].dtype by {
                assert(crate::buffers::slot_matches(buffers.outputs[i], specs[i]));
                assert(values[i].dtype() == buffers.outputs[i].data.dtype());
            }
        },
        ResultView::Dynamic(Ok(values)) => {
            lemma_named_outputs(specs, values);
            assert forall|i: int| 0 <= i < tensors.len() implies (#[trigger] tensors[i]).name
                == specs[i].name && tensors[i].data.dtype() == specs[i].dtype by {
                assert(values[i].data.dtype() == specs[i].dtype);
            }
        },
        ResultView::Dynamic(Err(_)) => {},
    }
}

/// Feeding a session keeps the invariant.
pub proof fn lemma_feeding_keeps_wf(runtime: RuntimeView, inputs: Seq<TensorModel>)
    requires
        runtime.wf(),
        runtime.active is Some,
    ensures
        runtime.with(runtime.active->0.fed(inputs)).wf(),
{
    let session = runtime.active->0;
    if let Some(buffers) = session.buffers {
        lemma_fed_slots_match(buffers.inputs, inputs, runtime.info.inputs);
    }
}

/// Recording what came of a run keeps the invariant.
pub proof fn lemma_recording_keeps_wf(runtime: RuntimeView, outcome: OutcomeView)
    requires
        runtime.wf(),
        runtime.admits(ResultView::Prepared(outcome)),
    ensures
        runtime.recorded(ResultView::Prepared(outcome)).wf(),
{
}

/// A compilation of a model for one target.
#[derive(Debug)]
pub struct CompileJob {
    options: OnnxOptions,
    backend: String,
}

/// The contents of a [`CompileJob`].
pub struct JobView {
    /// The options of the sessions that compile and validate.
    pub options: OnnxOptions,
    /// The target's name.
    pub backend: Seq<char>,
}

impl View for CompileJob {
    type V = JobView;

    closed spec fn view(&self) -> JobView {
        JobView { options: self.options, backend: self.backend@ }
    }
}

impl JobView {
    /// A failure of the compilation.
    pub open spec fn failed(self, error: ErrorView) -> ErrorView {
        ErrorView::Context { context: "Compile for "@ + self.backend, cause: Box::new(error) }
    }

    /// The options are valid and require the target.
    pub open spec fn wf(self) -> bool {
        &&& self.options.wf()
        &&& self.options.fault() is None
        &&& self.options.backend.is_strict()
        &&& self.options.profiling is None
        &&& self.backend == self.options.backend.list()[0].label()
    }
}

/// A compiled model that has not been validated yet.
#[derive(Debug)]
pub struct StagedModel {
    job: CompileJob,
    format: CompiledFormat,
}

impl StagedModel {
    /// The compilation.
    pub closed spec fn job(self) -> JobView {
        self.job@
    }

    /// The format that the compiler chose.
    pub closed spec fn compiled_format(self) -> CompiledFormat {
        self.format
    }
}

/// The format of a compiled model.
pub open spec fn compiled_format(format: ModelFormat) -> CompiledFormat {
    match format {
        ModelFormat::Onnx => CompiledFormat::OptimizedOnnx,
        ModelFormat::EpContext => CompiledFormat::EpContext,
    }
}

/// Why a model file is no source to compile.
pub open spec fn source_fault(
    model: Result<Option<crate::engine::GraphView>, Seq<char>>,
    path: Seq<char>,
    overrides: Map<Seq<char>, usize>,
) -> Option<ErrorView> {
    match inspected_model(model, path, overrides) {
        Err(error) => Some(error),
        Ok((ModelFormat::EpContext, _)) => Some(ErrorView::Fault(Fault::CompileContext)),
        Ok((ModelFormat::Onnx, _)) => None,
    }
}

impl OnnxRuntime {
    /// Begin to compile for an explicit target. [`CompileOptions`] requires a target
    /// with its provider configuration. Any target failure is returned directly;
    /// compilation never falls back to another provider. An existing destination is
    /// never overwritten.
    pub fn compile(destination_exists: bool, options: CompileOptions) -> (r: Result<
        CompileJob,
        Error,
    >)
        requires
            options.dimension_overrides.wf(),
        ensures
            failure(r) == if destination_exists {
                Some(ErrorView::Fault(Fault::DestinationExists))
            } else if options.target.fault() is Some {
                options.target.fault()
            } else {
                options.runtime_options().fault()
            },
            r matches Ok(job) ==> {
                &&& job@.options == options.runtime_options()
                &&& job@.backend == options.target.backend().label()
                &&& job@.wf()
            },
    {
        if destination_exists {
            return Err(Error::Fault(Fault::DestinationExists));
        }
        let options = match options.into_runtime_options() {
            Err(error) => {
                return Err(error);
            },
            Ok(options) => options,
        };
        match options.validate() {
            Err(error) => {
                return Err(error);
            },
            Ok(()) => {},
        }
        let backend = options.backend.candidates()[0].name().to_owned();
        Ok(CompileJob { options, backend })
    }
}

impl CompileJob {
    /// The options of the sessions that compile and validate.
    pub fn options(&self) -> (r: &OnnxOptions)
        ensures
            *r == self@.options,
    {
        &self.options
    }

    /// Check that the source is an ordinary graph.
    pub fn check_source(&self, bytes: &[u8], path: &str) -> (r: Result<(), Error>)
        ensures
            failure(r) == source_fault(
                read_model(bytes@),
                path@,
                self@.options.dimension_overrides@,
            ),
    {
        match inspect(bytes, path, &self.options) {
            Err(error) => Err(error),
            Ok((ModelFormat::EpContext, _)) => Err(Error::Fault(Fault::CompileContext)),
            Ok((ModelFormat::Onnx, _)) => Ok(()),
        }
    }

    /// Report a failure of the compilation.
    pub fn failed(&self, error: Error) -> (r: Error)
        ensures
            r@ == self@.failed(error@),
    {
        error.context(text::concat("Compile for ", self.backend.as_str()))
    }

    /// The options for a profiled session, from which the engine is exported. Only
    /// TensorRT compiles in this way; the other targets use the runtime's compiler.
    pub fn profiled_options(&self, profile: HostText) -> (r: Option<OnnxOptions>)
        requires
            self@.wf(),
        ensures
            match r {
                None => self@.options.backend.list()[0] != Backend::TensorRt,
                Some(options) => {
                    &&& self@.options.backend.list()[0] == Backend::TensorRt
                    &&& same_configuration(options, self@.options)
                    &&& options.profiling == Some(profile)
                    &&& options.wf()
                    &&& options.fault() is None
                },
            },
    {
        match &self.options.backend.candidates()[0] {
            Backend::TensorRt => {
                let mut options = self.options.clone();
                options.profiling = Some(profile);
                Some(options)
            },
            _ => None,
        }
    }

    /// The device on which the runtime's compiler needs a stream.
    pub fn compile_stream(&self, environment: &Environment) -> (r: Result<Option<i32>, Error>)
        requires
            self@.wf(),
        ensures
            device_result(r) == stream_device(self@.options, 0, environment.tf32_override),
    {
        stream_for_backend(&self.options, 0, environment)
    }

    /// How the session of the runtime's compiler is to be configured: as for an
    /// ordinary graph, without graph capture.
    pub fn compile_builder(&self, environment: &Environment) -> (r: Result<BuilderPlan, Error>)
        requires
            self@.wf(),
        ensures
            ({
                let backend = self@.options.backend.list()[0];
                &&& failure(r) == if is_raw_gpu_provider(backend) {
                    Some(explained(backend, ErrorView::Fault(Fault::CustomGpuProvider)))
                } else {
                    None
                }
                &&& r matches Ok(plan) ==> {
                    &&& plan.intra_threads == self@.options.intra_threads
                    &&& plan.inter_threads == self@.options.inter_threads
                    &&& plan.parallel_execution == self@.options.parallel_execution
                    &&& crate::session::lists_overrides(
                        plan.dimension_overrides@,
                        self@.options.dimension_overrides@,
                    )
                    &&& plan.profiling is None
                    &&& plan.disable_cpu_fallback == !crate::session::is_cpu_target(backend)
                    &&& crate::session::plans_result(plan.providers) == explained_providers(
                        backend,
                        crate::session::planned_providers(
                            self@.options,
                            0,
                            false,
                            false,
                            None,
                            environment.tf32_override,
                            environment.tensorrt_cache,
                        ),
                    )
                }
            }),
    {
        let backend = &self.options.backend.candidates()[0];
        match configured_builder(&self.options, 0, false, false, &None, environment) {
            Err(error) => Err(provider_error(backend, error)),
            Ok(plan) => {
                let mut plan = plan;
                plan.providers = match plan.providers {
                    Ok(providers) => Ok(providers),
                    Err(error) => Err(provider_error(backend, error)),
                };
                Ok(plan)
            },
        }
    }

    /// Stage compiled bytes, which the caller has stored at `path`. They are then to
    /// be loaded from there with the job's options and run on the given inputs.
    pub fn stage(self, bytes: &[u8], path: &str) -> (r: Result<StagedModel, Error>)
        ensures
            match inspected_model(
                read_model(bytes@),
                path@,
                self@.options.dimension_overrides@,
            ) {
                Err(error) => failure(r) == Some(self@.failed(error)),
                Ok((format, _)) => {
                    &&& r is Ok
                    &&& r->Ok_0.job() == self@
                    &&& r->Ok_0.compiled_format() == compiled_format(format)
                },
            },
    {
        let format = match inspect(bytes, path, &self.options) {
            Err(error) => {
                return Err(self.failed(error));
            },
            Ok((ModelFormat::Onnx, _)) => CompiledFormat::OptimizedOnnx,
            Ok((ModelFormat::EpContext, _)) => CompiledFormat::EpContext,
        };
        Ok(StagedModel { job: self, format })
    }
}

impl StagedModel {
    /// The compilation.
    pub fn compile_job(&self) -> (r: &CompileJob)
        ensures
            r@ == self.job(),
    {
        &self.job
    }

    /// Report the compilation, which may be published only if the staged bytes were
    /// loaded and run successfully.
    pub fn publish(self, validated: Result<(), Error>) -> (r: Result<Compilation, Error>)
        ensures
            match validated {
                Err(error) => failure(r) == Some(self.job().failed(error@)),
                Ok(()) => {
                    &&& r is Ok
                    &&& r->Ok_0.backend@ == self.job().backend
                    &&& r->Ok_0.format == self.compiled_format()
                },
            },
    {
        match validated {
            Err(error) => Err(self.job.failed(error)),
            Ok(()) => Ok(Compilation { backend: self.job.backend, format: self.format }),
        }
    }
}

} // verus!
