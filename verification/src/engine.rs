//! Detect provider context models and describe TensorRT engines in the EPContext format.
use crate::api::{spec_views, InfoView, ModelInfo};
use crate::error::{failure, optional_text, Error, ErrorView, Fault, NamedFault};
use crate::options::{DimensionOverrides, OnnxOptions};
use crate::tensor::{DType, SpecView, TensorSpec};
use crate::text;
use crate::wire::{nesting, nests_within, NESTING_LIMIT};
use onnx_rs::ast::Dimension;
use vstd::prelude::*;
use vstd::string::*;

verus! {

/// What a model file holds.
#[derive(Clone, Copy, Debug, PartialEq, Eq, Structural)]
pub enum ModelFormat {
    /// An ordinary graph.
    Onnx,
    /// A graph around a provider's compiled state.
    EpContext,
}

/// One declared dimension.
#[derive(Debug)]
pub enum DimensionDecl {
    /// A number, which is negative where the size is unknown.
    Value(i64),
    /// A symbolic size.
    Param(String),
}

/// One declared input or output.
#[derive(Debug)]
pub struct ValueDecl {
    /// The name.
    pub name: String,
    /// ONNX's number for the element type; `None` where it is no dense tensor.
    pub elem_type: Option<i32>,
    /// The dimensions; `None` where the rank is unknown.
    pub shape: Option<Vec<DimensionDecl>>,
}

/// What is read of a graph.
#[derive(Debug)]
pub struct GraphDecl {
    /// Domain and operator of each node.
    pub operators: Vec<(String, String)>,
    /// The names of the initial values; `None` for one that lacks its tensor.
    pub initializers: Vec<Option<String>>,
    /// The declared inputs, with those that have an initial value.
    pub inputs: Vec<ValueDecl>,
    /// The declared outputs.
    pub outputs: Vec<ValueDecl>,
}

/// The contents of a [`DimensionDecl`].
pub enum DimensionView {
    Value(i64),
    Param(Seq<char>),
}

/// The contents of a [`ValueDecl`].
#[verifier::ext_equal]
pub struct ValueView {
    pub name: Seq<char>,
    pub elem_type: Option<i32>,
    pub shape: Option<Seq<DimensionView>>,
}

/// The contents of a [`GraphDecl`].
#[verifier::ext_equal]
pub struct GraphView {
    pub operators: Seq<(Seq<char>, Seq<char>)>,
    pub initializers: Seq<Option<Seq<char>>>,
    pub inputs: Seq<ValueView>,
    pub outputs: Seq<ValueView>,
}

impl View for DimensionDecl {
    type V = DimensionView;

    open spec fn view(&self) -> DimensionView {
        match self {
            DimensionDecl::Value(n) => DimensionView::Value(*n),
            DimensionDecl::Param(name) => DimensionView::Param(name@),
        }
    }
}

/// The contents of declared dimensions.
pub open spec fn dimension_views(dims: Seq<DimensionDecl>) -> Seq<DimensionView> {
    Seq::new(dims.len(), |i: int| dims[i]@)
}

impl View for ValueDecl {
    type V = ValueView;

    open spec fn view(&self) -> ValueView {
        ValueView {
            name: self.name@,
            elem_type: self.elem_type,
            shape: match self.shape {
                None => None,
                Some(dims) => Some(dimension_views(dims@)),
            },
        }
    }
}

/// The contents of declared inputs or outputs.
pub open spec fn value_views(values: Seq<ValueDecl>) -> Seq<ValueView> {
    Seq::new(values.len(), |i: int| values[i]@)
}

/// The contents of domains and operators.
pub open spec fn operator_views(operators: Seq<(String, String)>) -> Seq<(Seq<char>, Seq<char>)> {
    Seq::new(operators.len(), |i: int| (operators[i].0@, operators[i].1@))
}

/// The contents of optional names.
pub open spec fn name_views(names: Seq<Option<String>>) -> Seq<Option<Seq<char>>> {
    Seq::new(names.len(), |i: int| optional_text(names[i]))
}

impl View for GraphDecl {
    type V = GraphView;

    open spec fn view(&self) -> GraphView {
        GraphView {
            operators: operator_views(self.operators@),
            initializers: name_views(self.initializers@),
            inputs: value_views(self.inputs@),
            outputs: value_views(self.outputs@),
        }
    }
}

/// What `onnx_rs::parse` reads: the graph of a model, if it has one, or the text of
/// the error. The parser reads lengths as `usize`, so the result also depends on
/// the largest one.
pub uninterp spec fn parsed_model(bytes: Seq<u8>, limit: usize) -> Result<
    Option<GraphView>,
    Seq<char>,
>;

/// `onnx_rs::parse`, of whose result this hands over the operators and the names of
/// the initial values. A dense initial value always has a name, which may be empty;
/// a sparse one has that of its values, if they are there. The parser descends by
/// recursion without a limit of its own, so deeply nested files are left out.
#[verifier::external_body]
fn parse_operators(bytes: &[u8]) -> (r: Result<
    Option<(Vec<(String, String)>, Vec<Option<String>>)>,
    String,
>)
    requires
        nesting(bytes@) <= NESTING_LIMIT,
    ensures
        match (r, parsed_model(bytes@, usize::MAX)) {
            (Ok(Some(found)), Ok(Some(graph))) => {
                &&& operator_views(found.0@) == graph.operators
                &&& name_views(found.1@) == graph.initializers
            },
            (Ok(None), Ok(None)) => true,
            (Err(error), Err(text)) => error@ == text,
            _ => false,
        },
{
    let model = onnx_rs::parse(bytes).map_err(|e| e.to_string())?;
    Ok(model.graph.map(|g| {
        let dense = g.initializer.iter().map(|t| Some(t.name().to_owned()));
        let sparse = g.sparse_initializer.iter();
        let sparse = sparse.map(|t| t.values.as_ref().map(|v| v.name().to_owned()));
        let operators = g.node.iter().map(|n| (n.domain.to_owned(), n.op_type.to_string()));
        (operators.collect(), dense.chain(sparse).collect())
    }))
}

/// `onnx_rs::parse`, of whose result this hands over the declared inputs and
/// outputs, one behind the other, with the number of the inputs. Element types are
/// given by their numbers in the ONNX format. Deeply nested files are left out, as
/// above.
#[verifier::external_body]
fn parse_values(bytes: &[u8]) -> (r: Result<Option<(usize, Vec<ValueDecl>)>, String>)
    requires
        nesting(bytes@) <= NESTING_LIMIT,
    ensures
        match (r, parsed_model(bytes@, usize::MAX)) {
            (Ok(Some(found)), Ok(Some(graph))) => {
                &&& found.0 == graph.inputs.len()
                &&& value_views(found.1@) == graph.inputs + graph.outputs
            },
            (Ok(None), Ok(None)) => true,
            (Err(error), Err(text)) => error@ == text,
            _ => false,
        },
{
    let model = onnx_rs::parse(bytes).map_err(|e| e.to_string())?;
    Ok(model.graph.map(|g| {
        let values = g.input.iter().chain(&g.output).map(|v| ValueDecl {
            name: v.name.to_owned(),
            elem_type: v.tensor_elem_type().map(|t| t as i32),
            shape: v.tensor_shape().map(|s| s.dim.iter().map(|d| match d.value {
                Dimension::Value(n) => DimensionDecl::Value(n),
                Dimension::Param(p) => DimensionDecl::Param(p.to_owned()),
            }).collect()),
        });
        (g.input.len(), values.collect())
    }))
}

/// The element type with a number of the ONNX format.
pub open spec fn supported_type(code: i32) -> Option<DType> {
    match code {
        1 => Some(DType::F32),
        2 => Some(DType::U8),
        3 => Some(DType::I8),
        4 => Some(DType::U16),
        5 => Some(DType::I16),
        6 => Some(DType::I32),
        7 => Some(DType::I64),
        9 => Some(DType::Bool),
        10 => Some(DType::F16),
        11 => Some(DType::F64),
        12 => Some(DType::U32),
        13 => Some(DType::U64),
        16 => Some(DType::BF16),
        _ => None,
    }
}

/// The number of an element type in the ONNX format.
pub open spec fn type_code(dtype: DType) -> i32 {
    match dtype {
        DType::F32 => 1,
        DType::U8 => 2,
        DType::I8 => 3,
        DType::U16 => 4,
        DType::I16 => 5,
        DType::I32 => 6,
        DType::I64 => 7,
        DType::Bool => 9,
        DType::F16 => 10,
        DType::F64 => 11,
        DType::U32 => 12,
        DType::U64 => 13,
        DType::BF16 => 16,
    }
}

/// The name of an element type that tensors cannot have here.
pub open spec fn unsupported_type_name(code: i32) -> Seq<char> {
    match code {
        8 => "String"@,
        14 => "Complex64"@,
        15 => "Complex128"@,
        17 => "Float8e4m3fn"@,
        18 => "Float8e4m3fnuz"@,
        19 => "Float8e5m2"@,
        20 => "Float8e5m2fnuz"@,
        21 => "Uint4"@,
        22 => "Int4"@,
        23 => "Float4e2m1"@,
        _ => "Undefined"@,
    }
}

fn find_type(code: i32) -> (r: Option<DType>)
    ensures
        r == supported_type(code),
{
    match code {
        1 => Some(DType::F32),
        2 => Some(DType::U8),
        3 => Some(DType::I8),
        4 => Some(DType::U16),
        5 => Some(DType::I16),
        6 => Some(DType::I32),
        7 => Some(DType::I64),
        9 => Some(DType::Bool),
        10 => Some(DType::F16),
        11 => Some(DType::F64),
        12 => Some(DType::U32),
        13 => Some(DType::U64),
        16 => Some(DType::BF16),
        _ => None,
    }
}

fn find_code(dtype: DType) -> (r: i32)
    ensures
        r == type_code(dtype),
{
    match dtype {
        DType::F32 => 1,
        DType::U8 => 2,
        DType::I8 => 3,
        DType::U16 => 4,
        DType::I16 => 5,
        DType::I32 => 6,
        DType::I64 => 7,
        DType::Bool => 9,
        DType::F16 => 10,
        DType::F64 => 11,
        DType::U32 => 12,
        DType::U64 => 13,
        DType::BF16 => 16,
    }
}

fn find_unsupported_name(code: i32) -> (r: &'static str)
    ensures
        r@ == unsupported_type_name(code),
{
    match code {
        8 => "String",
        14 => "Complex64",
        15 => "Complex128",
        17 => "Float8e4m3fn",
        18 => "Float8e4m3fnuz",
        19 => "Float8e5m2",
        20 => "Float8e5m2fnuz",
        21 => "Uint4",
        22 => "Int4",
        23 => "Float4e2m1",
        _ => "Undefined",
    }
}

/// The size of a declared dimension: a number that fits, or the override of a symbol.
pub open spec fn resolved(dim: DimensionView, overrides: Map<Seq<char>, usize>) -> Option<usize> {
    match dim {
        DimensionView::Value(n) => if 0 <= n <= usize::MAX {
            Some(n as usize)
        } else {
            None
        },
        DimensionView::Param(name) => if overrides.contains_key(name) {
            Some(overrides[name])
        } else {
            None
        },
    }
}

/// The specification of a declared input or output.
pub open spec fn declared_spec(
    value: ValueView,
    overrides: Map<Seq<char>, usize>,
) -> Result<SpecView, ErrorView> {
    match value.elem_type {
        None => Err(ErrorView::Named { fault: NamedFault::NotDense, name: value.name }),
        Some(code) => match supported_type(code) {
            None => Err(
                ErrorView::UnsupportedType {
                    element_type: unsupported_type_name(code),
                    name: Some(value.name),
                },
            ),
            Some(dtype) => Ok(
                SpecView {
                    name: value.name,
                    dtype,
                    shape: match value.shape {
                        None => None,
                        Some(dims) => Some(
                            Seq::new(dims.len(), |i: int| resolved(dims[i], overrides)),
                        ),
                    },
                },
            ),
        },
    }
}

/// A result over the contents of what a function returned.
pub open spec fn spec_result(r: Result<TensorSpec, Error>) -> Result<SpecView, ErrorView> {
    match r {
        Ok(spec) => Ok(spec@),
        Err(error) => Err(error@),
    }
}

/// Read the specification of a declared input or output.
pub fn tensor_spec(value: &ValueDecl, overrides: &DimensionOverrides) -> (r: Result<
    TensorSpec,
    Error,
>)
    ensures
        spec_result(r) == declared_spec(value@, overrides@),
{
    let code = match value.elem_type {
        None => {
            return Err(Error::Named { fault: NamedFault::NotDense, name: value.name.clone() });
        },
        Some(code) => code,
    };
    let dtype = match find_type(code) {
        None => {
            return Err(
                Error::UnsupportedType {
                    element_type: find_unsupported_name(code).to_owned(),
                    name: Some(value.name.clone()),
                },
            );
        },
        Some(dtype) => dtype,
    };
    let shape = match &value.shape {
        None => None,
        Some(dims) => {
            let mut out: Vec<Option<usize>> = Vec::new();
            for i in 0..dims.len()
                invariant
                    out@ == Seq::new(i as nat, |j: int| resolved(dims@[j]@, overrides@)),
            {
                let size: Option<usize> = match &dims[i] {
                    DimensionDecl::Value(n) => {
                        if *n >= 0 && *n as u64 <= usize::MAX as u64 {
                            Some(*n as usize)
                        } else {
                            None
                        }
                    },
                    DimensionDecl::Param(name) => overrides.get(name.as_str()),
                };
                out.push(size);
                assert(out@ =~= Seq::new((i + 1) as nat, |j: int| resolved(dims@[j]@, overrides@)));
            }
            assert(out@ =~= Seq::new(
                dims@.len(),
                |i: int| resolved(dimension_views(dims@)[i], overrides@),
            ));
            Some(out)
        },
    };
    Ok(TensorSpec { name: value.name.clone(), dtype, shape })
}

/// The specifications of declared outputs, or the first error among them.
pub open spec fn declared_specs(
    values: Seq<ValueView>,
    overrides: Map<Seq<char>, usize>,
) -> Result<Seq<SpecView>, ErrorView>
    decreases values.len(),
{
    if values.len() == 0 {
        Ok(Seq::empty())
    } else {
        match declared_specs(values.drop_last(), overrides) {
            Err(error) => Err(error),
            Ok(specs) => match declared_spec(values.last(), overrides) {
                Err(error) => Err(error),
                Ok(spec) => Ok(specs.push(spec)),
            },
        }
    }
}

/// Whether a name has an initial value.
pub open spec fn is_initialized(initializers: Seq<Option<Seq<char>>>, name: Seq<char>) -> bool {
    exists|i: int| 0 <= i < initializers.len() && #[trigger] initializers[i] == Some(name)
}

/// The declared inputs that have no initial value.
pub open spec fn required_inputs(
    values: Seq<ValueView>,
    initializers: Seq<Option<Seq<char>>>,
) -> Seq<ValueView>
    decreases values.len(),
{
    if values.len() == 0 {
        Seq::empty()
    } else {
        let earlier = required_inputs(values.drop_last(), initializers);
        if is_initialized(initializers, values.last().name) {
            earlier
        } else {
            earlier.push(values.last())
        }
    }
}

/// Whether a graph holds a provider's compiled state.
pub open spec fn holds_context(operators: Seq<(Seq<char>, Seq<char>)>) -> bool {
    exists|i: int|
        0 <= i < operators.len() && #[trigger] operators[i] == ("com.microsoft"@, "EPContext"@)
}

/// What a graph is and what its sessions take and give.
pub open spec fn inspected_graph(
    graph: GraphView,
    overrides: Map<Seq<char>, usize>,
) -> Result<(ModelFormat, InfoView), ErrorView> {
    match declared_specs(required_inputs(graph.inputs, graph.initializers), overrides) {
        Err(error) => Err(error),
        Ok(inputs) => match declared_specs(graph.outputs, overrides) {
            Err(error) => Err(error),
            Ok(outputs) => Ok(
                (
                    if holds_context(graph.operators) {
                        ModelFormat::EpContext
                    } else {
                        ModelFormat::Onnx
                    },
                    InfoView { inputs, outputs },
                ),
            ),
        },
    }
}

/// The contents of an inspection's result.
pub open spec fn inspection(r: Result<(ModelFormat, ModelInfo), Error>) -> Result<
    (ModelFormat, InfoView),
    ErrorView,
> {
    match r {
        Ok(found) => Ok((found.0, found.1@)),
        Err(error) => Err(error@),
    }
}

fn initialized(initializers: &Vec<Option<String>>, name: &String) -> (r: bool)
    ensures
        r == is_initialized(name_views(initializers@), name@),
{
    for i in 0..initializers.len()
        invariant
            forall|j: int| 0 <= j < i ==> optional_text(#[trigger] initializers@[j]) != Some(name@),
    {
        match &initializers[i] {
            None => {},
            Some(other) => {
                if text::same(other.as_str(), name.as_str()) {
                    assert(name_views(initializers@)[i as int] == Some(name@));
                    return true;
                }
            },
        }
    }
    proof {
        assert forall|j: int| 0 <= j < name_views(initializers@).len() implies #[trigger] name_views(
            initializers@,
        )[j] != Some(name@) by {
            assert(optional_text(initializers@[j]) != Some(name@));
        }
    }
    false
}

fn context_operator(operators: &Vec<(String, String)>) -> (r: bool)
    ensures
        r == holds_context(operator_views(operators@)),
{
    for i in 0..operators.len()
        invariant
            forall|j: int|
                0 <= j < i ==> !((#[trigger] operators@[j]).0@ == "com.microsoft"@
                    && operators@[j].1@ == "EPContext"@),
    {
        if text::same(operators[i].0.as_str(), "com.microsoft") && text::same(
            operators[i].1.as_str(),
            "EPContext",
        ) {
            assert(operator_views(operators@)[i as int] == ("com.microsoft"@, "EPContext"@));
            return true;
        }
    }
    proof {
        assert forall|j: int| 0 <= j < operator_views(operators@).len() implies #[trigger] operator_views(
            operators@,
        )[j] != ("com.microsoft"@, "EPContext"@) by {
            assert(!(operators@[j].0@ == "com.microsoft"@ && operators@[j].1@ == "EPContext"@));
        }
    }
    false
}

fn input_specs(
    values: &Vec<ValueDecl>,
    initializers: &Vec<Option<String>>,
    overrides: &DimensionOverrides,
) -> (r: Result<Vec<TensorSpec>, Error>)
    ensures
        match r {
            Ok(specs) => declared_specs(
                required_inputs(value_views(values@), name_views(initializers@)),
                overrides@,
            ) == Ok::<Seq<SpecView>, ErrorView>(spec_views(specs@)),
            Err(error) => declared_specs(
                required_inputs(value_views(values@), name_views(initializers@)),
                overrides@,
            ) == Err::<Seq<SpecView>, ErrorView>(error@),
        },
{
    let ghost views = value_views(values@);
    let ghost names = name_views(initializers@);
    let mut specs: Vec<TensorSpec> = Vec::new();
    assert(views.take(0) =~= Seq::<ValueView>::empty());
    assert(spec_views(specs@) =~= Seq::<SpecView>::empty());
    for i in 0..values.len()
        invariant
            views == value_views(values@),
            names == name_views(initializers@),
            declared_specs(required_inputs(views.take(i as int), names), overrides@) == Ok::<
                Seq<SpecView>,
                ErrorView,
            >(spec_views(specs@)),
    {
        assert(views.take(i + 1).drop_last() =~= views.take(i as int));
        let ghost before = required_inputs(views.take(i as int), names);
        assert(before.push(views[i as int]).drop_last() =~= before);
        if !initialized(initializers, &values[i].name) {
            match tensor_spec(&values[i], overrides) {
                Err(error) => {
                    proof {
                        lemma_errors_stay(views, names, overrides@, i + 1);
                    }
                    return Err(error);
                },
                Ok(spec) => {
                    let ghost earlier = specs@;
                    specs.push(spec);
                    assert(spec_views(specs@) =~= spec_views(earlier).push(spec@));
                },
            }
        }
    }
    assert(views.take(views.len() as int) =~= views);
    Ok(specs)
}

proof fn lemma_errors_stay(
    values: Seq<ValueView>,
    initializers: Seq<Option<Seq<char>>>,
    overrides: Map<Seq<char>, usize>,
    n: int,
)
    requires
        0 <= n <= values.len(),
        declared_specs(required_inputs(values.take(n), initializers), overrides) is Err,
    ensures
        declared_specs(required_inputs(values, initializers), overrides) == declared_specs(
            required_inputs(values.take(n), initializers),
            overrides,
        ),
    decreases values.len() - n,
{
    if n == values.len() {
        assert(values.take(n) =~= values);
    } else {
        let next = values.take(n + 1);
        assert(next.drop_last() =~= values.take(n));
        let before = required_inputs(values.take(n), initializers);
        assert(before.push(next.last()).drop_last() =~= before);
        lemma_errors_stay(values, initializers, overrides, n + 1);
    }
}

proof fn lemma_nothing_initialized(values: Seq<ValueView>)
    ensures
        required_inputs(values, Seq::<Option<Seq<char>>>::empty()) == values,
    decreases values.len(),
{
    if values.len() > 0 {
        lemma_nothing_initialized(values.drop_last());
        assert(values.drop_last().push(values.last()) =~= values);
    } else {
        assert(values =~= Seq::<ValueView>::empty());
    }
}

fn output_specs(values: &Vec<ValueDecl>, overrides: &DimensionOverrides) -> (r: Result<
    Vec<TensorSpec>,
    Error,
>)
    ensures
        match r {
            Ok(specs) => declared_specs(value_views(values@), overrides@) == Ok::<
                Seq<SpecView>,
                ErrorView,
            >(spec_views(specs@)),
            Err(error) => declared_specs(value_views(values@), overrides@) == Err::<
                Seq<SpecView>,
                ErrorView,
            >(error@),
        },
{
    let none: Vec<Option<String>> = Vec::new();
    proof {
        assert(name_views(none@) =~= Seq::<Option<Seq<char>>>::empty());
        lemma_nothing_initialized(value_views(values@));
    }
    input_specs(values, &none, overrides)
}

/// Tell what a graph is and what its sessions take and give. Inputs with an initial
/// value need not be supplied and are left out.
pub fn inspect_graph(graph: &GraphDecl, overrides: &DimensionOverrides) -> (r: Result<
    (ModelFormat, ModelInfo),
    Error,
>)
    ensures
        inspection(r) == inspected_graph(graph@, overrides@),
{
    let inputs = match input_specs(&graph.inputs, &graph.initializers, overrides) {
        Err(error) => {
            return Err(error);
        },
        Ok(inputs) => inputs,
    };
    let outputs = match output_specs(&graph.outputs, overrides) {
        Err(error) => {
            return Err(error);
        },
        Ok(outputs) => outputs,
    };
    let format = if context_operator(&graph.operators) {
        ModelFormat::EpContext
    } else {
        ModelFormat::Onnx
    };
    Ok((format, ModelInfo { inputs, outputs }))
}

/// What a model file is, given what the parser reads of it.
pub open spec fn inspected_model(
    model: Result<Option<GraphView>, Seq<char>>,
    path: Seq<char>,
    overrides: Map<Seq<char>, usize>,
) -> Result<(ModelFormat, InfoView), ErrorView> {
    match model {
        Err(text) => Err(
            ErrorView::Context {
                context: "Parse ONNX model "@ + path,
                cause: Box::new(ErrorView::External(text)),
            },
        ),
        Ok(None) => Err(ErrorView::Fault(Fault::MissingGraph)),
        Ok(Some(graph)) => inspected_graph(graph, overrides),
    }
}

/// The contents of what is read of a model file.
pub open spec fn graph_result(r: Result<Option<GraphDecl>, String>) -> Result<
    Option<GraphView>,
    Seq<char>,
> {
    match r {
        Ok(None) => Ok(None),
        Ok(Some(graph)) => Ok(Some(graph@)),
        Err(text) => Err(text@),
    }
}

/// What is read of a model file: what the parser reads of it, or an error where its
/// messages are nested too deeply to be parsed.
pub open spec fn read_model(bytes: Seq<u8>) -> Result<Option<GraphView>, Seq<char>> {
    if nesting(bytes) <= NESTING_LIMIT {
        parsed_model(bytes, usize::MAX)
    } else {
        Err("Messages are nested too deeply"@)
    }
}

/// Read the graph of a model file.
pub fn read_graph(bytes: &[u8]) -> (r: Result<Option<GraphDecl>, String>)
    ensures
        graph_result(r) == read_model(bytes@),
{
    if !nests_within(bytes, NESTING_LIMIT) {
        return Err("Messages are nested too deeply".to_owned());
    }
    let (operators, initializers) = match parse_operators(bytes) {
        Err(text) => {
            return Err(text);
        },
        Ok(None) => {
            return Ok(None);
        },
        Ok(Some(found)) => found,
    };
    let (count, values) = match parse_values(bytes) {
        Err(text) => {
            return Err(text);
        },
        Ok(None) => {
            return Ok(None);
        },
        Ok(Some(found)) => found,
    };
    let ghost graph = parsed_model(bytes@, usize::MAX)->Ok_0->0;
    let mut inputs = values;
    assert(value_views(values@).len() == values@.len());
    let outputs = inputs.split_off(count);
    assert(value_views(inputs@) =~= graph.inputs) by {
        assert forall|i: int| 0 <= i < count implies value_views(inputs@)[i] == graph.inputs[i] by {
            assert(value_views(values@)[i] == graph.inputs[i]);
        }
    }
    assert(value_views(outputs@) =~= graph.outputs) by {
        assert forall|i: int| 0 <= i < outputs@.len() implies value_views(outputs@)[i]
            == graph.outputs[i] by {
            assert(value_views(values@)[count + i] == graph.outputs[i]);
        }
    }
    Ok(Some(GraphDecl { operators, initializers, inputs, outputs }))
}

/// Tell what a model is from what was read of its file.
pub fn inspect_model(
    model: Result<Option<GraphDecl>, String>,
    path: &str,
    overrides: &DimensionOverrides,
) -> (r: Result<(ModelFormat, ModelInfo), Error>)
    ensures
        inspection(r) == inspected_model(graph_result(model), path@, overrides@),
{
    match model {
        Err(text) => Err(Error::External(text).context(text::concat("Parse ONNX model ", path))),
        Ok(None) => Err(Error::Fault(Fault::MissingGraph)),
        Ok(Some(graph)) => inspect_graph(&graph, overrides),
    }
}

/// Detect compiled wrappers from their contents, regardless of the file extension.
/// `bytes` are those of the file at `path`. Reading them does not need a session:
/// some valid models have kernels only in the selected GPU provider. A file that is
/// nested too deeply is one that cannot be parsed.
pub fn inspect(bytes: &[u8], path: &str, options: &OnnxOptions) -> (r: Result<
    (ModelFormat, ModelInfo),
    Error,
>)
    ensures
        inspection(r) == inspected_model(
            read_model(bytes@),
            path@,
            options.dimension_overrides@,
        ),
{
    inspect_model(read_graph(bytes), path, &options.dimension_overrides)
}

/// What is read of one event of a profile.
#[derive(Debug)]
pub struct ProfileEvent {
    /// Its category, where it is a string.
    pub category: Option<String>,
    /// The provider that ran it, where it is a string.
    pub provider: Option<String>,
    /// Its name, where it is a string.
    pub name: Option<String>,
}

/// The contents of a [`ProfileEvent`].
pub struct EventView {
    pub category: Option<Seq<char>>,
    pub provider: Option<Seq<char>>,
    pub name: Option<Seq<char>>,
}

impl View for ProfileEvent {
    type V = EventView;

    open spec fn view(&self) -> EventView {
        EventView {
            category: optional_text(self.category),
            provider: optional_text(self.provider),
            name: optional_text(self.name),
        }
    }
}

/// The contents of profile events.
pub open spec fn event_views(events: Seq<ProfileEvent>) -> Seq<EventView> {
    Seq::new(events.len(), |i: int| events[i]@)
}

/// The contents of what is read of a profile.
pub open spec fn events_result(r: Result<Vec<ProfileEvent>, String>) -> Result<
    Seq<EventView>,
    Seq<char>,
> {
    match r {
        Ok(events) => Ok(event_views(events@)),
        Err(text) => Err(text@),
    }
}

/// What `serde_json::from_slice` reads of a profile: for each element of the array
/// its strings `cat`, `args.provider` and `name`, or the text of the error.
pub uninterp spec fn parsed_profile(bytes: Seq<u8>) -> Result<Seq<EventView>, Seq<char>>;

/// `serde_json::from_slice` for an array of any values, of each of which this hands
/// over the strings `cat`, `args.provider` and `name` where they are there.
#[verifier::external_body]
fn parse_profile(bytes: &[u8]) -> (r: Result<Vec<ProfileEvent>, String>)
    ensures
        events_result(r) == parsed_profile(bytes@),
{
    let values = serde_json::from_slice::<Vec<serde_json::Value>>(bytes);
    let values = values.map_err(|e| e.to_string())?;
    let events = values.iter().map(|v| ProfileEvent {
        category: v["cat"].as_str().map(|s| s.to_owned()),
        provider: v["args"]["provider"].as_str().map(|s| s.to_owned()),
        name: v["name"].as_str().map(|s| s.to_owned()),
    });
    Ok(events.collect())
}

/// Whether an event is a node that some provider ran.
pub open spec fn is_node_run(event: EventView) -> bool {
    event.category == Some("Node"@) && event.provider is Some
}

/// The names of the nodes that ran, or the first thing that rules out an export.
pub open spec fn profiled_nodes(events: Seq<EventView>) -> Result<Set<Seq<char>>, ErrorView>
    decreases events.len(),
{
    if events.len() == 0 {
        Ok(Set::empty())
    } else {
        let event = events.last();
        match profiled_nodes(events.drop_last()) {
            Err(error) => Err(error),
            Ok(names) => if !is_node_run(event) {
                Ok(names)
            } else if event.provider != Some("TensorrtExecutionProvider"@) {
                Err(ErrorView::Fault(Fault::ProfileProvider))
            } else {
                match event.name {
                    None => Err(ErrorView::Fault(Fault::ProfileNodeName)),
                    Some(name) => Ok(names.insert(name)),
                }
            },
        }
    }
}

/// Why a profiled model cannot be exported: all nodes must have run in TensorRT,
/// under exactly one name.
pub open spec fn partition_fault(events: Seq<EventView>) -> Option<ErrorView> {
    match profiled_nodes(events) {
        Err(error) => Some(error),
        Ok(names) => if exists|name: Seq<char>| #[trigger]
            names.contains(name) && names == Set::<Seq<char>>::empty().insert(name) {
            None
        } else {
            Some(ErrorView::Fault(Fault::PartitionCount))
        },
    }
}

proof fn lemma_profile_errors_stay(events: Seq<EventView>, n: int)
    requires
        0 <= n <= events.len(),
        profiled_nodes(events.take(n)) is Err,
    ensures
        profiled_nodes(events) == profiled_nodes(events.take(n)),
    decreases events.len() - n,
{
    if n == events.len() {
        assert(events.take(n) =~= events);
    } else {
        assert(events.take(n + 1).drop_last() =~= events.take(n));
        lemma_profile_errors_stay(events, n + 1);
    }
}

fn text_is(value: &Option<String>, wanted: &str) -> (r: bool)
    ensures
        r == (optional_text(*value) == Some(wanted@)),
{
    match value {
        None => false,
        Some(s) => text::same(s.as_str(), wanted),
    }
}

/// What a count of names knows: the first name and whether another one was seen.
spec fn counted(
    names: Set<Seq<char>>,
    first: Option<Seq<char>>,
    several: bool,
    other: Seq<char>,
) -> bool {
    match first {
        None => names == Set::<Seq<char>>::empty() && !several,
        Some(name) => if several {
            names.contains(name) && names.contains(other) && other != name
        } else {
            names == Set::<Seq<char>>::empty().insert(name)
        },
    }
}

/// Check that a model ran as one TensorRT partition.
pub fn check_partition(events: &Vec<ProfileEvent>) -> (r: Result<(), Error>)
    ensures
        failure(r) == partition_fault(event_views(events@)),
{
    let ghost views = event_views(events@);
    let mut first: Option<&String> = None;
    let mut several = false;
    let ghost mut other: Seq<char> = Seq::empty();
    assert(views.take(0) =~= Seq::<EventView>::empty());
    for i in 0..events.len()
        invariant
            views == event_views(events@),
            profiled_nodes(views.take(i as int)) is Ok,
            counted(
                profiled_nodes(views.take(i as int))->Ok_0,
                match first {
                    None => None,
                    Some(name) => Some(name@),
                },
                several,
                other,
            ),
    {
        let ghost next = views.take(i + 1);
        assert(next.drop_last() =~= views.take(i as int));
        let ghost names = profiled_nodes(views.take(i as int))->Ok_0;
        assert(next.last() == views[i as int]);
        let event = &events[i];
        if text_is(&event.category, "Node") && event.provider.is_some() {
            if !text_is(&event.provider, "TensorrtExecutionProvider") {
                proof {
                    lemma_profile_errors_stay(views, i + 1);
                }
                return Err(Error::Fault(Fault::ProfileProvider));
            }
            match &event.name {
                None => {
                    proof {
                        lemma_profile_errors_stay(views, i + 1);
                    }
                    return Err(Error::Fault(Fault::ProfileNodeName));
                },
                Some(name) => {
                    match first {
                        None => {
                            first = Some(name);
                        },
                        Some(earlier) => {
                            if !text::same(earlier.as_str(), name.as_str()) {
                                several = true;
                                proof {
                                    other = name@;
                                }
                            } else {
                                assert(names.insert(name@) =~= names);
                            }
                        },
                    }
                    assert(profiled_nodes(next)->Ok_0 == names.insert(name@));
                },
            }
        }
    }
    assert(views.take(views.len() as int) =~= views);
    let ghost names = profiled_nodes(views)->Ok_0;
    if first.is_none() || several {
        proof {
            if let Some(name) = first {
                assert(names.contains(name@));
            }
        }
        return Err(Error::Fault(Fault::PartitionCount));
    }
    proof {
        let name = (first->0)@;
        assert(names.contains(name));
    }
    Ok(())
}

/// Why a profile rules out an export.
pub open spec fn profile_fault(profile: Result<Seq<EventView>, Seq<char>>) -> Option<ErrorView> {
    match profile {
        Err(text) => Some(ErrorView::External(text)),
        Ok(events) => partition_fault(events),
    }
}

/// Check that a profile shows one TensorRT partition and nothing else.
pub fn check_profile(bytes: &[u8]) -> (r: Result<(), Error>)
    ensures
        failure(r) == profile_fault(parsed_profile(bytes@)),
{
    match parse_profile(bytes) {
        Err(text) => Err(Error::External(text)),
        Ok(events) => check_partition(&events),
    }
}

/// Whether a file name has the extension `engine`.
pub open spec fn is_engine_file(name: Seq<char>) -> bool {
    &&& name.len() > ".engine"@.len()
    &&& text::occurs_at(name, ".engine"@, name.len() - ".engine"@.len())
}

fn engine_file(name: &str) -> (r: bool)
    ensures
        r == is_engine_file(name@),
{
    let wanted = text::chars_of(".engine");
    let chars = text::chars_of(name);
    if chars.len() <= wanted.len() {
        return false;
    }
    text::stands_at(&chars, &wanted, chars.len() - wanted.len())
}

/// Whether entry `i` is the only engine file.
pub open spec fn is_only_engine(entries: Seq<String>, i: int) -> bool {
    &&& 0 <= i < entries.len()
    &&& is_engine_file(entries[i]@)
    &&& forall|j: int|
        0 <= j < entries.len() && j != i ==> !is_engine_file((#[trigger] entries[j])@)
}

/// Pick the one engine file among the names of a directory's entries.
pub fn select_engine(entries: &Vec<String>) -> (r: Result<usize, Error>)
    ensures
        match r {
            Ok(i) => is_only_engine(entries@, i as int),
            Err(error) => {
                &&& error@ == ErrorView::Fault(Fault::EngineCount)
                &&& forall|i: int| !is_only_engine(entries@, i)
            },
        },
{
    let mut found: Option<usize> = None;
    for i in 0..entries.len()
        invariant
            match found {
                None => forall|j: int| 0 <= j < i ==> !is_engine_file((#[trigger] entries@[j])@),
                Some(at) => {
                    &&& at < i
                    &&& is_engine_file(entries@[at as int]@)
                    &&& forall|j: int|
                        0 <= j < i && j != at ==> !is_engine_file((#[trigger] entries@[j])@)
                },
            },
    {
        if engine_file(entries[i].as_str()) {
            match found {
                None => {
                    found = Some(i);
                },
                Some(at) => {
                    assert forall|k: int| !is_only_engine(entries@, k) by {
                        if is_only_engine(entries@, k) {
                            assert(is_engine_file(entries@[i as int]@));
                            assert(is_engine_file(entries@[at as int]@));
                        }
                    }
                    return Err(Error::Fault(Fault::EngineCount));
                },
            }
        }
    }
    match found {
        Some(at) => Ok(at),
        None => Err(Error::Fault(Fault::EngineCount)),
    }
}

/// An attribute of a context node.
#[derive(Debug)]
#[allow(inconsistent_fields)]
pub enum AttributeDecl {
    /// A number.
    Int {
        /// The attribute's name.
        name: String,
        /// Its value.
        value: i64,
    },
    /// A string of bytes.
    Bytes {
        /// The attribute's name.
        name: String,
        /// Its value.
        value: Vec<u8>,
    },
}

/// A whole model with one node that embeds a compiled engine.
#[derive(Debug)]
pub struct ContextModel {
    /// Version of the intermediate representation.
    pub ir_version: i64,
    /// Who made the model.
    pub producer_name: String,
    /// Imported operator sets: domain and version.
    pub opset_import: Vec<(String, i64)>,
    /// The name of the graph and of its node.
    pub name: String,
    /// The node's domain.
    pub domain: String,
    /// The node's operator.
    pub operator: String,
    /// The node's attributes.
    pub attributes: Vec<AttributeDecl>,
    /// The graph's inputs, which are the node's.
    pub inputs: Vec<ValueDecl>,
    /// The graph's outputs, which are the node's.
    pub outputs: Vec<ValueDecl>,
}

/// The contents of an [`AttributeDecl`].
#[allow(inconsistent_fields)]
pub enum AttributeView {
    Int { name: Seq<char>, value: i64 },
    Bytes { name: Seq<char>, value: Seq<u8> },
}

/// The contents of a [`ContextModel`].
#[verifier::ext_equal]
pub struct ContextView {
    pub ir_version: i64,
    pub producer_name: Seq<char>,
    pub opset_import: Seq<(Seq<char>, i64)>,
    pub name: Seq<char>,
    pub domain: Seq<char>,
    pub operator: Seq<char>,
    pub attributes: Seq<AttributeView>,
    pub inputs: Seq<ValueView>,
    pub outputs: Seq<ValueView>,
}

impl View for AttributeDecl {
    type V = AttributeView;

    open spec fn view(&self) -> AttributeView {
        match self {
            AttributeDecl::Int { name, value } => AttributeView::Int { name: name@, value: *value },
            AttributeDecl::Bytes { name, value } => AttributeView::Bytes {
                name: name@,
                value: value@,
            },
        }
    }
}

impl View for ContextModel {
    type V = ContextView;

    open spec fn view(&self) -> ContextView {
        ContextView {
            ir_version: self.ir_version,
            producer_name: self.producer_name@,
            opset_import: Seq::new(
                self.opset_import@.len(),
                |i: int| (self.opset_import@[i].0@, self.opset_import@[i].1),
            ),
            name: self.name@,
            domain: self.domain@,
            operator: self.operator@,
            attributes: Seq::new(self.attributes@.len(), |i: int| self.attributes@[i]@),
            inputs: value_views(self.inputs@),
            outputs: value_views(self.outputs@),
        }
    }
}

impl ContextView {
    /// What is read of the graph once the model is stored.
    pub open spec fn graph(self) -> GraphView {
        GraphView {
            operators: seq![(self.domain, self.operator)],
            initializers: Seq::empty(),
            inputs: self.inputs,
            outputs: self.outputs,
        }
    }
}

/// The symbol that stands for a dynamic dimension of a named tensor.
pub open spec fn symbol(name: Seq<char>, i: int) -> Seq<char> {
    name + "_d"@ + text::decimal(i as nat)
}

/// How a dimension is declared: its size, or a symbol of its own.
pub open spec fn declared_dimension(spec: SpecView, i: int) -> DimensionView {
    match spec.shape->0[i] {
        Some(n) => DimensionView::Value(n as i64),
        None => DimensionView::Param(symbol(spec.name, i)),
    }
}

/// Whether every size of a specification can be written as a signed number.
pub open spec fn fits_format(spec: SpecView) -> bool {
    spec.shape matches Some(dims) ==> forall|i: int|
        0 <= i < dims.len() ==> ((#[trigger] dims[i]) matches Some(n) ==> n <= i64::MAX)
}

/// The declaration of an input or output.
pub open spec fn value_declaration(spec: SpecView) -> ValueView {
    ValueView {
        name: spec.name,
        elem_type: Some(type_code(spec.dtype)),
        shape: match spec.shape {
            None => None,
            Some(dims) => Some(Seq::new(dims.len(), |i: int| declared_dimension(spec, i))),
        },
    }
}

/// Declare an input or output.
pub fn value(spec: &TensorSpec) -> (r: Result<ValueDecl, Error>)
    ensures
        failure(r) == if fits_format(spec@) {
            None
        } else {
            Some(ErrorView::Fault(Fault::DimensionRange))
        },
        r matches Ok(declared) ==> declared@ == value_declaration(spec@),
{
    let shape = match &spec.shape {
        None => None,
        Some(dims) => {
            let mut out: Vec<DimensionDecl> = Vec::new();
            for i in 0..dims.len()
                invariant
                    spec@.shape == Some(dims@),
                    out@.len() == i,
                    forall|j: int|
                        0 <= j < i ==> (#[trigger] out@[j])@ == declared_dimension(spec@, j),
                    forall|j: int|
                        0 <= j < i ==> ((#[trigger] dims@[j]) matches Some(n) ==> n <= i64::MAX),
            {
                match dims[i] {
                    Some(n) => {
                        if n as u64 > 0x7fff_ffff_ffff_ffff {
                            assert(dims@[i as int] == Some(n));
                            return Err(Error::Fault(Fault::DimensionRange));
                        }
                        out.push(DimensionDecl::Value(n as i64));
                    },
                    None => {
                        let mut name = text::concat(spec.name.as_str(), "_d");
                        text::push_decimal(&mut name, i as u64);
                        out.push(DimensionDecl::Param(name));
                    },
                }
                assert(out@[i as int]@ == declared_dimension(spec@, i as int));
            }
            assert(dimension_views(out@) =~= Seq::new(
                dims@.len(),
                |i: int| declared_dimension(spec@, i),
            ));
            Some(out)
        },
    };
    Ok(ValueDecl { name: spec.name.clone(), elem_type: Some(find_code(spec.dtype)), shape })
}

/// Whether every size of a model's inputs and outputs can be written.
pub open spec fn all_fit(specs: Seq<SpecView>) -> bool {
    forall|i: int| 0 <= i < specs.len() ==> fits_format(#[trigger] specs[i])
}

/// The declarations of inputs or outputs.
pub open spec fn value_declarations(specs: Seq<SpecView>) -> Seq<ValueView> {
    Seq::new(specs.len(), |i: int| value_declaration(specs[i]))
}

fn declare_all(specs: &Vec<TensorSpec>) -> (r: Result<Vec<ValueDecl>, Error>)
    ensures
        failure(r) == if all_fit(spec_views(specs@)) {
            None
        } else {
            Some(ErrorView::Fault(Fault::DimensionRange))
        },
        r matches Ok(declared) ==> value_views(declared@) == value_declarations(spec_views(specs@)),
{
    let mut out: Vec<ValueDecl> = Vec::new();
    for i in 0..specs.len()
        invariant
            out@.len() == i,
            forall|j: int| 0 <= j < i ==> fits_format(#[trigger] spec_views(specs@)[j]),
            forall|j: int|
                0 <= j < i ==> (#[trigger] out@[j])@ == value_declaration(spec_views(specs@)[j]),
    {
        match value(&specs[i]) {
            Err(error) => {
                assert(!fits_format(spec_views(specs@)[i as int]));
                return Err(error);
            },
            Ok(declared) => {
                out.push(declared);
            },
        }
    }
    assert(value_views(out@) =~= value_declarations(spec_views(specs@)));
    Ok(out)
}

/// The bytes of the provider's name.
pub open spec fn source_bytes() -> Seq<u8> {
    seq![
        84u8,
        101u8,
        110u8,
        115u8,
        111u8,
        114u8,
        114u8,
        116u8,
        69u8,
        120u8,
        101u8,
        99u8,
        117u8,
        116u8,
        105u8,
        111u8,
        110u8,
        80u8,
        114u8,
        111u8,
        118u8,
        105u8,
        100u8,
        101u8,
        114u8,
    ]
}

/// The model that embeds an engine for a model's inputs and outputs.
pub open spec fn exported(info: InfoView, engine: Seq<u8>) -> ContextView {
    ContextView {
        ir_version: 8,
        producer_name: "native-onnx"@,
        opset_import: seq![(""@, 17i64), ("com.microsoft"@, 1i64)],
        name: "compiled_model"@,
        domain: "com.microsoft"@,
        operator: "EPContext"@,
        attributes: seq![
            AttributeView::Int { name: "embed_mode"@, value: 1 },
            AttributeView::Bytes { name: "ep_cache_context"@, value: engine },
            AttributeView::Bytes { name: "source"@, value: source_bytes() },
        ],
        inputs: value_declarations(info.inputs),
        outputs: value_declarations(info.outputs),
    }
}

/// Wrap a whole-model engine in a model of its own.
pub fn export_context(info: &ModelInfo, engine: Vec<u8>) -> (r: Result<ContextModel, Error>)
    ensures
        failure(r) == if all_fit(info@.inputs) && all_fit(info@.outputs) {
            None
        } else {
            Some(ErrorView::Fault(Fault::DimensionRange))
        },
        r matches Ok(model) ==> model@ == exported(info@, engine@),
{
    let inputs = match declare_all(&info.inputs) {
        Err(error) => {
            return Err(error);
        },
        Ok(inputs) => inputs,
    };
    let outputs = match declare_all(&info.outputs) {
        Err(error) => {
            return Err(error);
        },
        Ok(outputs) => outputs,
    };
    let source: Vec<u8> = vec![
        84u8,
        101u8,
        110u8,
        115u8,
        111u8,
        114u8,
        114u8,
        116u8,
        69u8,
        120u8,
        101u8,
        99u8,
        117u8,
        116u8,
        105u8,
        111u8,
        110u8,
        80u8,
        114u8,
        111u8,
        118u8,
        105u8,
        100u8,
        101u8,
        114u8,
    ];
    let mut opset_import: Vec<(String, i64)> = Vec::new();
    opset_import.push(("".to_owned(), 17));
    opset_import.push(("com.microsoft".to_owned(), 1));
    let mut attributes: Vec<AttributeDecl> = Vec::new();
    attributes.push(AttributeDecl::Int { name: "embed_mode".to_owned(), value: 1 });
    attributes.push(AttributeDecl::Bytes { name: "ep_cache_context".to_owned(), value: engine });
    attributes.push(AttributeDecl::Bytes { name: "source".to_owned(), value: source });
    let model = ContextModel {
        ir_version: 8,
        producer_name: "native-onnx".to_owned(),
        opset_import,
        name: "compiled_model".to_owned(),
        domain: "com.microsoft".to_owned(),
        operator: "EPContext".to_owned(),
        attributes,
        inputs,
        outputs,
    };
    assert(source@ =~= source_bytes());
    assert(model@.opset_import =~= exported(info@, engine@).opset_import);
    assert(model@.attributes =~= exported(info@, engine@).attributes);
    Ok(model)
}

/// Whether no symbol that a declaration introduces is overridden.
pub open spec fn symbols_are_free(spec: SpecView, overrides: Map<Seq<char>, usize>) -> bool {
    spec.shape matches Some(dims) ==> forall|i: int|
        0 <= i < dims.len() && (#[trigger] dims[i]) is None ==> !overrides.contains_key(
            symbol(spec.name, i),
        )
}

/// Reading a declaration gives back the specification that was declared: name,
/// element type, rank, sizes, and which dimensions are dynamic.
pub proof fn law_declarations_read_back(spec: SpecView, overrides: Map<Seq<char>, usize>)
    requires
        fits_format(spec),
        symbols_are_free(spec, overrides),
    ensures
        declared_spec(value_declaration(spec), overrides) == Ok::<SpecView, ErrorView>(spec),
{
    if let Some(dims) = spec.shape {
        let read = Seq::new(
            dims.len(),
            |i: int| resolved(value_declaration(spec).shape->0[i], overrides),
        );
        assert forall|i: int| 0 <= i < dims.len() implies read[i] == dims[i] by {
            assert(value_declaration(spec).shape->0[i] == declared_dimension(spec, i));
            match dims[i] {
                Some(n) => {
                    assert(n <= i64::MAX);
                },
                None => {},
            }
        }
        assert(read =~= dims);
    }
}

proof fn lemma_all_read_back(specs: Seq<SpecView>, overrides: Map<Seq<char>, usize>)
    requires
        all_fit(specs),
        forall|i: int| 0 <= i < specs.len() ==> symbols_are_free(#[trigger] specs[i], overrides),
    ensures
        declared_specs(value_declarations(specs), overrides) == Ok::<Seq<SpecView>, ErrorView>(
            specs,
        ),
    decreases specs.len(),
{
    let declared = value_declarations(specs);
    if specs.len() > 0 {
        let front = specs.drop_last();
        assert forall|i: int| 0 <= i < front.len() implies fits_format(#[trigger] front[i])
            && symbols_are_free(front[i], overrides) by {
            assert(front[i] == specs[i]);
        }
        lemma_all_read_back(front, overrides);
        assert(declared.drop_last() =~= value_declarations(front));
        law_declarations_read_back(specs.last(), overrides);
        assert(front.push(specs.last()) =~= specs);
    } else {
        assert(specs =~= Seq::<SpecView>::empty());
        assert(declared.len() == 0);
    }
}

/// An exported model is recognized as compiled, whatever the file is called, and
/// takes and gives what the model did that it was compiled from. So is every file of
/// which the parser reads that graph.
pub proof fn law_exports_are_recognized(
    info: InfoView,
    engine: Seq<u8>,
    overrides: Map<Seq<char>, usize>,
)
    requires
        all_fit(info.inputs),
        all_fit(info.outputs),
        forall|i: int|
            0 <= i < info.inputs.len() ==> symbols_are_free(#[trigger] info.inputs[i], overrides),
        forall|i: int|
            0 <= i < info.outputs.len() ==> symbols_are_free(#[trigger] info.outputs[i], overrides),
    ensures
        inspected_graph(exported(info, engine).graph(), overrides) == Ok::<
            (ModelFormat, InfoView),
            ErrorView,
        >((ModelFormat::EpContext, info)),
        forall|bytes: Seq<u8>, path: Seq<char>|
            read_model(bytes) == Ok::<Option<GraphView>, Seq<char>>(
                Some(exported(info, engine).graph()),
            ) ==> #[trigger] inspected_model(read_model(bytes), path, overrides) == Ok::<
                (ModelFormat, InfoView),
                ErrorView,
            >((ModelFormat::EpContext, info)),
{
    let graph = exported(info, engine).graph();
    lemma_nothing_initialized(graph.inputs);
    lemma_all_read_back(info.inputs, overrides);
    lemma_all_read_back(info.outputs, overrides);
    assert(graph.operators[0] == ("com.microsoft"@, "EPContext"@));
}

/// An input with an initial value is never asked for, and every other one is.
pub proof fn law_initialized_inputs_are_optional(
    values: Seq<ValueView>,
    initializers: Seq<Option<Seq<char>>>,
    value: ValueView,
)
    ensures
        required_inputs(values, initializers).contains(value) <==> values.contains(value)
            && !is_initialized(initializers, value.name),
    decreases values.len(),
{
    if values.len() > 0 {
        let front = values.drop_last();
        let earlier = required_inputs(front, initializers);
        law_initialized_inputs_are_optional(front, initializers, value);
        let all = required_inputs(values, initializers);
        assert(values =~= front.push(values.last()));
        assert(front.push(values.last()).contains(value) <==> front.contains(value) || value
            == values.last()) by {
            if front.contains(value) {
                let i = choose|i: int| 0 <= i < front.len() && front[i] == value;
                assert(front.push(values.last())[i] == value);
            }
            if value == values.last() {
                assert(front.push(values.last())[front.len() as int] == value);
            }
        }
        assert(earlier.push(values.last()).contains(value) <==> earlier.contains(value) || value
            == values.last()) by {
            if earlier.contains(value) {
                let i = choose|i: int| 0 <= i < earlier.len() && earlier[i] == value;
                assert(earlier.push(values.last())[i] == value);
            }
            if value == values.last() {
                assert(earlier.push(values.last())[earlier.len() as int] == value);
            }
        }
    }
}

} // verus!
