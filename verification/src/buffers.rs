//! Reusable tensors for fixed, dense tensor I/O.
//!
//! A session with fixed, positive shapes keeps one host tensor per input and output.
//! Inputs start at zero and keep their values until they are overwritten; outputs
//! can be read only after a successful run for the current inputs.
use crate::api::{spec_views, InfoView, ModelInfo};
use crate::error::{failure, Error, ErrorView, Fault};
use crate::tensor::{
    copy_fault, count_fault, element_count, fixed_dims, product, tensor_models, tensor_names,
    view_models, Elements, SpecView, Tensor, TensorBuffer, TensorDataMut, TensorModel, TensorSpec,
    TensorView, TensorViewMut,
};
use crate::text::{first_index, same};
use vstd::prelude::*;
use vstd::string::*;

verus! {

/// Whether a specification has a known rank and only known, positive sizes.
pub open spec fn is_fixed_positive(spec: SpecView) -> bool {
    match spec.shape {
        None => false,
        Some(dims) => forall|i: int|
            0 <= i < dims.len() ==> ((#[trigger] dims[i]) matches Some(n) && n > 0),
    }
}

/// Whether sessions can keep tensors for a model: it has inputs and outputs, all of
/// them with fixed, positive shapes.
pub open spec fn is_eligible(info: InfoView) -> bool {
    &&& info.inputs.len() > 0
    &&& info.outputs.len() > 0
    &&& forall|i: int| 0 <= i < info.inputs.len() ==> is_fixed_positive(#[trigger] info.inputs[i])
    &&& forall|i: int|
        0 <= i < info.outputs.len() ==> is_fixed_positive(#[trigger] info.outputs[i])
}

fn fixed_positive(spec: &TensorSpec) -> (r: bool)
    ensures
        r == is_fixed_positive(spec@),
{
    match &spec.shape {
        None => false,
        Some(dims) => {
            for i in 0..dims.len()
                invariant
                    spec@.shape == Some(dims@),
                    forall|j: int| 0 <= j < i ==> ((#[trigger] dims@[j]) matches Some(n) && n > 0),
            {
                match dims[i] {
                    Some(n) if n > 0 => {},
                    _ => {
                        assert(!(dims@[i as int] matches Some(n) && n > 0));
                        return false;
                    },
                }
            }
            true
        },
    }
}

fn all_fixed_positive(specs: &Vec<TensorSpec>) -> (r: bool)
    ensures
        r == forall|i: int|
            0 <= i < spec_views(specs@).len() ==> is_fixed_positive(
                #[trigger] spec_views(specs@)[i],
            ),
{
    for i in 0..specs.len()
        invariant
            forall|j: int| 0 <= j < i ==> is_fixed_positive(#[trigger] spec_views(specs@)[j]),
    {
        if !fixed_positive(&specs[i]) {
            assert(!is_fixed_positive(spec_views(specs@)[i as int]));
            return false;
        }
    }
    true
}

/// Whether sessions can keep tensors for a model.
pub fn eligible(info: &ModelInfo) -> (r: bool)
    ensures
        r == is_eligible(info@),
{
    info.inputs.len() > 0 && info.outputs.len() > 0 && all_fixed_positive(&info.inputs)
        && all_fixed_positive(&info.outputs)
}

/// One reusable host tensor.
#[derive(Debug)]
pub struct TensorSlot {
    name: String,
    shape: Vec<usize>,
    data: TensorBuffer,
}

impl TensorSlot {
    /// The tensor.
    pub closed spec fn model(self) -> TensorModel {
        TensorModel { name: self.name@, shape: self.shape@, data: self.data.contents() }
    }

    /// Borrow the tensor without copying it.
    pub fn view(&self) -> (r: TensorView<'_>)
        ensures
            r.model() == self.model(),
    {
        TensorView {
            name: self.name.as_str(),
            shape: self.shape.as_slice(),
            data: self.data.view(),
        }
    }

    /// Borrow the tensor for mutation of its elements.
    pub fn view_mut(&mut self) -> (r: TensorViewMut<'_>)
        ensures
            r.model() == old(self).model(),
            final(self).model().name == old(self).model().name,
            final(self).model().shape == old(self).model().shape,
            match (r.data, final(self).model().data) {
                (TensorDataMut::F32(a), Elements::F32(b)) => final(a)@ == b,
                (TensorDataMut::F64(a), Elements::F64(b)) => final(a)@ == b,
                (TensorDataMut::F16(a), Elements::F16(b)) => final(a)@ == b,
                (TensorDataMut::BF16(a), Elements::BF16(b)) => final(a)@ == b,
                (TensorDataMut::I64(a), Elements::I64(b)) => final(a)@ == b,
                (TensorDataMut::I32(a), Elements::I32(b)) => final(a)@ == b,
                (TensorDataMut::I16(a), Elements::I16(b)) => final(a)@ == b,
                (TensorDataMut::I8(a), Elements::I8(b)) => final(a)@ == b,
                (TensorDataMut::U64(a), Elements::U64(b)) => final(a)@ == b,
                (TensorDataMut::U32(a), Elements::U32(b)) => final(a)@ == b,
                (TensorDataMut::U16(a), Elements::U16(b)) => final(a)@ == b,
                (TensorDataMut::U8(a), Elements::U8(b)) => final(a)@ == b,
                (TensorDataMut::Bool(a), Elements::Bool(b)) => final(a)@ == b,
                _ => false,
            },
    {
        TensorViewMut {
            name: self.name.as_str(),
            shape: self.shape.as_slice(),
            data: self.data.view_mut(),
        }
    }
}

/// The tensors in slots.
pub open spec fn slot_models(slots: Seq<TensorSlot>) -> Seq<TensorModel> {
    Seq::new(slots.len(), |i: int| slots[i].model())
}

/// What the native side is to do for a run of kept tensors, in this order: upload
/// the inputs to the device, if there is one; bind the inputs, if that is asked
/// for; run; download the outputs, if there is a device.
#[derive(Clone, Copy, Debug, PartialEq, Eq, Structural)]
pub struct RunPlan {
    /// The device that holds copies of the inputs and outputs.
    pub device_id: Option<i32>,
    /// Whether the inputs are to be bound before the run.
    pub bind_inputs: bool,
}

/// What came of a run of kept tensors.
#[derive(Debug)]
pub enum RunOutcome {
    /// It could not begin, and nothing was touched.
    Refused(Error),
    /// Inputs could not be uploaded.
    UploadFailed(Error),
    /// Inputs could not be bound.
    BindFailed(Error),
    /// The run failed.
    InferenceFailed(Error),
    /// Outputs were not there as tensors.
    OutputFailed(Error),
    /// Outputs could not be downloaded.
    DownloadFailed(Error),
    /// The outputs, in the order of the model's.
    Done(Vec<TensorBuffer>),
}

/// The contents of a [`RunOutcome`].
pub enum OutcomeView {
    Refused(ErrorView),
    UploadFailed(ErrorView),
    BindFailed(ErrorView),
    InferenceFailed(ErrorView),
    OutputFailed(ErrorView),
    DownloadFailed(ErrorView),
    Done(Seq<Elements>),
}

/// The elements in buffers.
pub open spec fn buffer_contents(buffers: Seq<TensorBuffer>) -> Seq<Elements> {
    Seq::new(buffers.len(), |i: int| buffers[i].contents())
}

impl View for RunOutcome {
    type V = OutcomeView;

    open spec fn view(&self) -> OutcomeView {
        match self {
            RunOutcome::Refused(error) => OutcomeView::Refused(error@),
            RunOutcome::UploadFailed(error) => OutcomeView::UploadFailed(error@),
            RunOutcome::BindFailed(error) => OutcomeView::BindFailed(error@),
            RunOutcome::InferenceFailed(error) => OutcomeView::InferenceFailed(error@),
            RunOutcome::OutputFailed(error) => OutcomeView::OutputFailed(error@),
            RunOutcome::DownloadFailed(error) => OutcomeView::DownloadFailed(error@),
            RunOutcome::Done(values) => OutcomeView::Done(buffer_contents(values@)),
        }
    }
}

/// An error with a fixed explanation in front.
pub open spec fn explained_by(context: Seq<char>, error: ErrorView) -> ErrorView {
    ErrorView::Context { context, cause: Box::new(error) }
}

impl OutcomeView {
    /// What is reported of the run.
    pub open spec fn fault(self) -> Option<ErrorView> {
        match self {
            OutcomeView::Refused(error) => Some(error),
            OutcomeView::UploadFailed(error) => Some(
                explained_by("Pinned H2D transfers"@, error),
            ),
            OutcomeView::BindFailed(error) => Some(error),
            OutcomeView::InferenceFailed(error) => Some(explained_by("Inference"@, error)),
            OutcomeView::OutputFailed(error) => Some(error),
            OutcomeView::DownloadFailed(error) => Some(
                explained_by("Pinned D2H transfers"@, error),
            ),
            OutcomeView::Done(_) => None,
        }
    }

    /// Whether the run got past the binding of its inputs.
    pub open spec fn passed_binding(self) -> bool {
        self is InferenceFailed || self is OutputFailed || self is DownloadFailed || self is Done
    }
}

/// The host side of a session with fixed shapes.
#[derive(Debug)]
pub struct InferenceBuffers {
    inputs: Vec<TensorSlot>,
    outputs: Vec<TensorSlot>,
    device_id: Option<i32>,
    rebind_inputs: bool,
    inputs_bound: bool,
    outputs_valid: bool,
    outputs_held: bool,
}

/// The contents of [`InferenceBuffers`].
#[verifier::ext_equal]
pub struct BuffersView {
    /// The input tensors.
    pub inputs: Seq<TensorModel>,
    /// The output tensors.
    pub outputs: Seq<TensorModel>,
    /// The device that holds copies of them.
    pub device_id: Option<i32>,
    /// Whether inputs are bound before every run.
    pub rebind_inputs: bool,
    /// Whether inputs have been bound.
    pub inputs_bound: bool,
    /// Whether the outputs belong to the current inputs and can be read.
    pub outputs_valid: bool,
    /// Whether they could be read when the current run was begun.
    pub outputs_held: bool,
}

impl View for InferenceBuffers {
    type V = BuffersView;

    closed spec fn view(&self) -> BuffersView {
        BuffersView {
            inputs: slot_models(self.inputs@),
            outputs: slot_models(self.outputs@),
            device_id: self.device_id,
            rebind_inputs: self.rebind_inputs,
            inputs_bound: self.inputs_bound,
            outputs_valid: self.outputs_valid,
            outputs_held: self.outputs_held,
        }
    }
}

/// Whether a tensor has exactly the name, type, shape and length of a fixed
/// specification.
pub open spec fn slot_matches(slot: TensorModel, spec: SpecView) -> bool {
    &&& slot.name == spec.name
    &&& fixed_dims(spec.shape) == Some(slot.shape)
    &&& slot.data.dtype() == spec.dtype
    &&& slot.data.len() == product(slot.shape)
}

/// Whether tensors match specifications one by one.
pub open spec fn slots_match(slots: Seq<TensorModel>, specs: Seq<SpecView>) -> bool {
    &&& slots.len() == specs.len()
    &&& forall|i: int| 0 <= i < slots.len() ==> slot_matches(#[trigger] slots[i], specs[i])
}

/// The tensor of a fixed specification with all elements zero.
pub open spec fn zero_slot(spec: SpecView) -> TensorModel {
    let shape = fixed_dims(spec.shape)->0;
    TensorModel { name: spec.name, shape, data: Elements::zeros(spec.dtype, product(shape)) }
}

/// The zero tensors of specifications.
pub open spec fn zero_slots(specs: Seq<SpecView>) -> Seq<TensorModel> {
    Seq::new(specs.len(), |i: int| zero_slot(specs[i]))
}

/// Whether all tensors of specifications can be counted.
pub open spec fn all_countable(specs: Seq<SpecView>) -> bool {
    forall|i: int|
        0 <= i < specs.len() ==> count_fault(fixed_dims((#[trigger] specs[i]).shape)->0) is None
}

/// The tensors after one of them took the elements of an input of its name.
pub open spec fn fed_one(slots: Seq<TensorModel>, input: TensorModel) -> Result<
    Seq<TensorModel>,
    ErrorView,
> {
    match first_index(tensor_names(slots), input.name, 0) {
        None => Err(ErrorView::Fault(Fault::UnknownInput)),
        Some(at) => match copy_fault(slots[at].data, input.data) {
            Some(error) => Err(error),
            None => Ok(slots.update(at, TensorModel { data: input.data, ..slots[at] })),
        },
    }
}

/// The tensors after the inputs were copied to them in turn up to the first that
/// does not fit, and what is wrong with that one.
pub open spec fn fed(slots: Seq<TensorModel>, inputs: Seq<TensorModel>) -> (
    Seq<TensorModel>,
    Option<ErrorView>,
)
    decreases inputs.len(),
{
    if inputs.len() == 0 {
        (slots, None)
    } else {
        let (before, fault) = fed(slots, inputs.drop_last());
        if fault is Some {
            (before, fault)
        } else {
            match fed_one(before, inputs.last()) {
                Err(error) => (before, Some(error)),
                Ok(after) => (after, None),
            }
        }
    }
}

impl BuffersView {
    /// Whether the tensors are those of a model.
    pub open spec fn prepared_for(self, info: InfoView) -> bool {
        &&& slots_match(self.inputs, info.inputs)
        &&& slots_match(self.outputs, info.outputs)
    }

    /// Fresh tensors for a model: all zero, nothing bound, no outputs yet.
    pub open spec fn fresh(info: InfoView, device_id: Option<i32>, rebind_inputs: bool) -> Self {
        BuffersView {
            inputs: zero_slots(info.inputs),
            outputs: zero_slots(info.outputs),
            device_id,
            rebind_inputs,
            inputs_bound: false,
            outputs_valid: false,
            outputs_held: false,
        }
    }

    /// After the outputs ceased to belong to the current inputs.
    pub open spec fn invalidated(self) -> BuffersView {
        BuffersView { outputs_valid: false, outputs_held: false, ..self }
    }

    /// After the elements of an input were replaced.
    pub open spec fn edited(self, at: int, data: Elements) -> BuffersView {
        BuffersView {
            inputs: self.inputs.update(at, TensorModel { data, ..self.inputs[at] }),
            ..self.invalidated()
        }
    }

    /// After inputs were copied to the tensors.
    pub open spec fn fed(self, inputs: Seq<TensorModel>) -> BuffersView {
        BuffersView { inputs: fed(self.inputs, inputs).0, ..self.invalidated() }
    }

    /// What a run has to do.
    pub open spec fn plan(self) -> RunPlan {
        RunPlan {
            device_id: self.device_id,
            bind_inputs: !self.inputs_bound || self.rebind_inputs,
        }
    }

    /// After a run was begun: earlier outputs cannot be read during it.
    pub open spec fn begun(self) -> BuffersView {
        BuffersView { outputs_valid: false, outputs_held: self.outputs_valid, ..self }
    }

    /// Whether values have the types and lengths of the outputs.
    pub open spec fn fits(self, values: Seq<Elements>) -> bool {
        &&& values.len() == self.outputs.len()
        &&& forall|i: int|
            0 <= i < values.len() ==> (#[trigger] values[i]).dtype()
                == self.outputs[i].data.dtype() && values[i].len() == self.outputs[i].data.len()
    }

    /// Whether an outcome can be that of a run of these tensors.
    pub open spec fn admits(self, outcome: OutcomeView) -> bool {
        outcome matches OutcomeView::Done(values) ==> self.fits(values)
    }

    /// After a run: bound inputs stay bound, a successful run fills the outputs, and a
    /// run that could not begin leaves the outputs as they were before it.
    pub open spec fn finished(self, outcome: OutcomeView) -> BuffersView {
        BuffersView {
            outputs: match outcome {
                OutcomeView::Done(values) => Seq::new(
                    self.outputs.len(),
                    |i: int| TensorModel { data: values[i], ..self.outputs[i] },
                ),
                _ => self.outputs,
            },
            inputs_bound: self.inputs_bound || outcome.passed_binding(),
            outputs_valid: outcome is Done || (outcome is Refused && self.outputs_held),
            outputs_held: false,
            ..self
        }
    }
}

fn zero_tensors(specs: &Vec<TensorSpec>) -> (r: Result<Vec<TensorSlot>, Error>)
    requires
        forall|i: int|
            0 <= i < spec_views(specs@).len() ==> is_fixed_positive(
                #[trigger] spec_views(specs@)[i],
            ),
    ensures
        failure(r) == if all_countable(spec_views(specs@)) {
            None
        } else {
            Some(ErrorView::Fault(Fault::ElementCountOverflow))
        },
        r matches Ok(slots) ==> slot_models(slots@) == zero_slots(spec_views(specs@)),
{
    let ghost views = spec_views(specs@);
    let mut slots: Vec<TensorSlot> = Vec::new();
    for i in 0..specs.len()
        invariant
            views == spec_views(specs@),
            forall|j: int| 0 <= j < views.len() ==> is_fixed_positive(#[trigger] views[j]),
            slots@.len() == i,
            forall|j: int| 0 <= j < i ==> (#[trigger] slots@[j]).model() == zero_slot(views[j]),
            forall|j: int|
                0 <= j < i ==> count_fault(fixed_dims((#[trigger] views[j]).shape)->0) is None,
    {
        assert(is_fixed_positive(views[i as int]));
        match specs[i].fixed_shape() {
            None => {
                assert(false);
            },
            Some(shape) => {
                match element_count(shape.as_slice()) {
                    Err(error) => {
                        assert(count_fault(fixed_dims(views[i as int].shape)->0) is Some);
                        return Err(error);
                    },
                    Ok(n) => {
                        let data = TensorBuffer::zeros(specs[i].dtype, n);
                        slots.push(TensorSlot { name: specs[i].name.clone(), shape, data });
                    },
                }
            },
        }
    }
    assert(slot_models(slots@) =~= zero_slots(views));
    Ok(slots)
}

fn find_slot(slots: &Vec<TensorSlot>, name: &str) -> (r: Option<usize>)
    ensures
        match r {
            None => first_index(tensor_names(slot_models(slots@)), name@, 0) is None,
            Some(i) => first_index(tensor_names(slot_models(slots@)), name@, 0) == Some(i as int)
                && i < slots@.len(),
        },
{
    let ghost names = tensor_names(slot_models(slots@));
    for i in 0..slots.len()
        invariant
            names == tensor_names(slot_models(slots@)),
            first_index(names, name@, 0) == first_index(names, name@, i as int),
    {
        if same(slots[i].name.as_str(), name) {
            return Some(i);
        }
    }
    None
}

fn copies(slots: &Vec<TensorSlot>) -> (r: Vec<Tensor>)
    ensures
        tensor_models(r@) == slot_models(slots@),
{
    let mut out: Vec<Tensor> = Vec::new();
    for i in 0..slots.len()
        invariant
            out@.len() == i,
            forall|j: int| 0 <= j < i ==> (#[trigger] out@[j]).model() == slots@[j].model(),
    {
        out.push(slots[i].view().to_owned());
    }
    assert(tensor_models(out@) =~= slot_models(slots@));
    out
}

impl InferenceBuffers {
    /// Fresh tensors for a model with fixed, positive shapes.
    pub fn new(info: &ModelInfo, device_id: Option<i32>, rebind_inputs: bool) -> (r: Result<
        Self,
        Error,
    >)
        ensures
            failure(r) == if !is_eligible(info@) {
                Some(ErrorView::Fault(Fault::BufferShapes))
            } else if !all_countable(info@.inputs) || !all_countable(info@.outputs) {
                Some(ErrorView::Fault(Fault::ElementCountOverflow))
            } else {
                None
            },
            r matches Ok(buffers) ==> buffers@ == BuffersView::fresh(
                info@,
                device_id,
                rebind_inputs,
            ),
    {
        if !eligible(info) {
            return Err(Error::Fault(Fault::BufferShapes));
        }
        let inputs = match zero_tensors(&info.inputs) {
            Err(error) => {
                return Err(error);
            },
            Ok(inputs) => inputs,
        };
        let outputs = match zero_tensors(&info.outputs) {
            Err(error) => {
                return Err(error);
            },
            Ok(outputs) => outputs,
        };
        Ok(
            InferenceBuffers {
                inputs,
                outputs,
                device_id,
                rebind_inputs,
                inputs_bound: false,
                outputs_valid: false,
                outputs_held: false,
            },
        )
    }

    /// Borrow an input for mutation. This invalidates the outputs, whether or not
    /// there is such an input.
    pub fn input_mut(&mut self, name: &str) -> (r: Result<TensorViewMut<'_>, Error>)
        ensures
            match first_index(tensor_names(old(self)@.inputs), name@, 0) {
                None => {
                    &&& failure(r) == Some(ErrorView::Fault(Fault::UnknownInput))
                    &&& final(self)@ == old(self)@.invalidated()
                },
                Some(at) => r is Ok && r->Ok_0.model() == old(self)@.inputs[at] && match r->Ok_0.data {
                    TensorDataMut::F32(x) => final(self)@ == old(self)@.edited(
                        at,
                        Elements::F32(final(x)@),
                    ),
                    TensorDataMut::F64(x) => final(self)@ == old(self)@.edited(
                        at,
                        Elements::F64(final(x)@),
                    ),
                    TensorDataMut::F16(x) => final(self)@ == old(self)@.edited(
                        at,
                        Elements::F16(final(x)@),
                    ),
                    TensorDataMut::BF16(x) => final(self)@ == old(self)@.edited(
                        at,
                        Elements::BF16(final(x)@),
                    ),
                    TensorDataMut::I64(x) => final(self)@ == old(self)@.edited(
                        at,
                        Elements::I64(final(x)@),
                    ),
                    TensorDataMut::I32(x) => final(self)@ == old(self)@.edited(
                        at,
                        Elements::I32(final(x)@),
                    ),
                    TensorDataMut::I16(x) => final(self)@ == old(self)@.edited(
                        at,
                        Elements::I16(final(x)@),
                    ),
                    TensorDataMut::I8(x) => final(self)@ == old(self)@.edited(
                        at,
                        Elements::I8(final(x)@),
                    ),
                    TensorDataMut::U64(x) => final(self)@ == old(self)@.edited(
                        at,
                        Elements::U64(final(x)@),
                    ),
                    TensorDataMut::U32(x) => final(self)@ == old(self)@.edited(
                        at,
                        Elements::U32(final(x)@),
                    ),
                    TensorDataMut::U16(x) => final(self)@ == old(self)@.edited(
                        at,
                        Elements::U16(final(x)@),
                    ),
                    TensorDataMut::U8(x) => final(self)@ == old(self)@.edited(
                        at,
                        Elements::U8(final(x)@),
                    ),
                    TensorDataMut::Bool(x) => final(self)@ == old(self)@.edited(
                        at,
                        Elements::Bool(final(x)@),
                    ),
                },
            },
    {
        self.outputs_valid = false;
        self.outputs_held = false;
        match find_slot(&self.inputs, name) {
            None => Err(Error::Fault(Fault::UnknownInput)),
            Some(at) => Ok(self.inputs[at].view_mut()),
        }
    }

    /// Borrow an output of the last successful run.
    pub fn output(&self, name: &str) -> (r: Result<TensorView<'_>, Error>)
        ensures
            if !self@.outputs_valid {
                failure(r) == Some(ErrorView::Fault(Fault::NoOutput))
            } else {
                match first_index(tensor_names(self@.outputs), name@, 0) {
                    None => failure(r) == Some(ErrorView::Fault(Fault::UnknownOutput)),
                    Some(at) => r is Ok && r->Ok_0.model() == self@.outputs[at],
                }
            },
    {
        if !self.outputs_valid {
            return Err(Error::Fault(Fault::NoOutput));
        }
        match find_slot(&self.outputs, name) {
            None => Err(Error::Fault(Fault::UnknownOutput)),
            Some(at) => Ok(self.outputs[at].view()),
        }
    }

    /// Copy inputs to the tensors of their names.
    pub fn feed(&mut self, inputs: &[TensorView<'_>]) -> (r: Result<(), Error>)
        ensures
            failure(r) == fed(old(self)@.inputs, view_models(inputs@)).1,
            final(self)@ == old(self)@.fed(view_models(inputs@)),
    {
        let ghost models = view_models(inputs@);
        let ghost start = self@;
        self.outputs_valid = false;
        self.outputs_held = false;
        assert(models.take(0) =~= Seq::<TensorModel>::empty());
        for i in 0..inputs.len()
            invariant
                models == view_models(inputs@),
                start == old(self)@,
                fed(start.inputs, models.take(i as int)).1 is None,
                self@ == start.fed(models.take(i as int)),
        {
            let ghost before = self@;
            assert(models.take(i + 1).drop_last() =~= models.take(i as int));
            match find_slot(&self.inputs, inputs[i].name) {
                None => {
                    proof {
                        lemma_feeding_stops(start.inputs, models, i + 1);
                    }
                    return Err(Error::Fault(Fault::UnknownInput));
                },
                Some(at) => {
                    let mut slot = self.inputs[at].view_mut();
                    match slot.data.copy_from(inputs[i].data) {
                        Err(error) => {
                            proof {
                                lemma_feeding_stops(start.inputs, models, i + 1);
                                assert(self@.inputs =~= before.inputs);
                            }
                            return Err(error);
                        },
                        Ok(()) => {},
                    }
                    assert(self@.inputs =~= before.inputs.update(
                        at as int,
                        TensorModel { data: models[i as int].data, ..before.inputs[at as int] },
                    ));
                },
            }
        }
        assert(models.take(models.len() as int) =~= models);
        Ok(())
    }

    /// Begin a run: the outputs can no longer be read.
    pub fn begin_run(&mut self) -> (r: RunPlan)
        ensures
            r == old(self)@.plan(),
            final(self)@ == old(self)@.begun(),
    {
        self.outputs_held = self.outputs_valid;
        self.outputs_valid = false;
        RunPlan {
            device_id: self.device_id,
            bind_inputs: !self.inputs_bound || self.rebind_inputs,
        }
    }

    /// Whether an outcome can be that of a run of these tensors.
    pub fn accepts(&self, outcome: &RunOutcome) -> (r: bool)
        ensures
            r == self@.admits(outcome@),
    {
        match outcome {
            RunOutcome::Done(values) => {
                if values.len() != self.outputs.len() {
                    return false;
                }
                let ghost contents = buffer_contents(values@);
                for i in 0..values.len()
                    invariant
                        values@.len() == self.outputs@.len(),
                        contents == buffer_contents(values@),
                        outcome@ == OutcomeView::Done(contents),
                        forall|j: int|
                            0 <= j < i ==> (#[trigger] contents[j]).dtype()
                                == self@.outputs[j].data.dtype() && contents[j].len()
                                == self@.outputs[j].data.len(),
                {
                    if values[i].dtype() != self.outputs[i].data.dtype() || values[i].len()
                        != self.outputs[i].data.len() {
                        assert(contents[i as int] == values@[i as int].contents());
                        return false;
                    }
                }
                true
            },
            _ => true,
        }
    }

    /// Record what came of a run, and say what is to be reported of it.
    pub fn finish_run(&mut self, outcome: RunOutcome) -> (r: Result<(), Error>)
        requires
            old(self)@.admits(outcome@),
        ensures
            failure(r) == outcome@.fault(),
            final(self)@ == old(self)@.finished(outcome@),
    {
        let held = self.outputs_held;
        self.outputs_valid = false;
        self.outputs_held = false;
        match outcome {
            RunOutcome::Refused(error) => {
                self.outputs_valid = held;
                Err(error)
            },
            RunOutcome::UploadFailed(error) => Err(
                error.context("Pinned H2D transfers".to_owned()),
            ),
            RunOutcome::BindFailed(error) => Err(error),
            RunOutcome::InferenceFailed(error) => {
                self.inputs_bound = true;
                Err(error.context("Inference".to_owned()))
            },
            RunOutcome::OutputFailed(error) => {
                self.inputs_bound = true;
                Err(error)
            },
            RunOutcome::DownloadFailed(error) => {
                self.inputs_bound = true;
                Err(error.context("Pinned D2H transfers".to_owned()))
            },
            RunOutcome::Done(values) => {
                self.inputs_bound = true;
                self.store_outputs(values);
                self.outputs_valid = true;
                assert(self@ =~= old(self)@.finished(outcome@));
                Ok(())
            },
        }
    }

    fn store_outputs(&mut self, values: Vec<TensorBuffer>)
        requires
            values@.len() == old(self)@.outputs.len(),
        ensures
            final(self)@ == (BuffersView {
                outputs: Seq::new(
                    old(self)@.outputs.len(),
                    |i: int|
                        TensorModel { data: values@[i].contents(), ..old(self)@.outputs[i] },
                ),
                ..old(self)@
            }),
    {
        let ghost start = self@;
        let count: usize = values.len();
        let mut i: usize = 0;
        for value in it: values
            invariant
                count == values@.len(),
                it.seq() == values@,
                i == it.index(),
                start == old(self)@,
                values@.len() == start.outputs.len(),
                self@.outputs.len() == start.outputs.len(),
                self@ == (BuffersView { outputs: self@.outputs, ..start }),
                forall|j: int|
                    0 <= j < i ==> (#[trigger] self@.outputs[j]) == (TensorModel {
                        data: values@[j].contents(),
                        ..start.outputs[j]
                    }),
                forall|j: int|
                    i <= j < start.outputs.len() ==> (#[trigger] self@.outputs[j])
                        == start.outputs[j],
        {
            let ghost before = self@.outputs;
            self.outputs[i].data = value;
            assert(self@.outputs =~= before.update(
                i as int,
                TensorModel { data: value.contents(), ..before[i as int] },
            ));
            i += 1;
        }
        assert(self@.outputs =~= Seq::new(
            start.outputs.len(),
            |i: int| TensorModel { data: values@[i].contents(), ..start.outputs[i] },
        ));
    }

    /// The inputs, as a run is to use them.
    pub fn input_views(&self) -> (r: Vec<TensorView<'_>>)
        ensures
            view_models(r@) == self@.inputs,
    {
        let mut out: Vec<TensorView<'_>> = Vec::new();
        for i in 0..self.inputs.len()
            invariant
                out@.len() == i,
                forall|j: int|
                    0 <= j < i ==> (#[trigger] out@[j]).model() == self.inputs@[j].model(),
        {
            out.push(self.inputs[i].view());
        }
        assert(view_models(out@) =~= self@.inputs);
        out
    }

    /// Copies of the inputs.
    pub fn inputs_to_owned(&self) -> (r: Vec<Tensor>)
        ensures
            tensor_models(r@) == self@.inputs,
    {
        copies(&self.inputs)
    }

    /// Copies of the outputs.
    pub fn outputs_to_owned(&self) -> (r: Vec<Tensor>)
        ensures
            tensor_models(r@) == self@.outputs,
    {
        copies(&self.outputs)
    }
}

proof fn lemma_feeding_stops(slots: Seq<TensorModel>, inputs: Seq<TensorModel>, n: int)
    requires
        0 <= n <= inputs.len(),
        fed(slots, inputs.take(n)).1 is Some,
    ensures
        fed(slots, inputs) == fed(slots, inputs.take(n)),
    decreases inputs.len() - n,
{
    if n == inputs.len() {
        assert(inputs.take(n) =~= inputs);
    } else {
        assert(inputs.take(n + 1).drop_last() =~= inputs.take(n));
        lemma_feeding_stops(slots, inputs, n + 1);
    }
}

} // verus!
