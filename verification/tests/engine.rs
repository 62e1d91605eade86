use native_onnx::api::ModelInfo;
use native_onnx::engine::{
    self, check_profile, export_context, inspect, inspect_graph, select_engine, AttributeDecl,
    DimensionDecl, GraphDecl, ModelFormat,
};
use native_onnx::options::{DimensionOverrides, OnnxOptions};
use native_onnx::tensor::{DType, TensorSpec};

fn varint(mut n: u64) -> Vec<u8> {
    let mut out = Vec::new();
    while n >= 0x80 {
        out.push((n as u8 & 0x7f) | 0x80);
        n >>= 7;
    }
    out.push(n as u8);
    out
}

fn number(field: u64, n: u64) -> Vec<u8> {
    [varint(field << 3), varint(n)].concat()
}

fn bytes(field: u64, data: &[u8]) -> Vec<u8> {
    [varint(field << 3 | 2), varint(data.len() as u64), data.to_vec()].concat()
}

/// A dimension: a number, or a symbol.
enum Dim {
    N(i64),
    S(&'static str),
}

/// A declared input or output: its name, the number of its element type, its dimensions.
fn value(name: &str, elem_type: u64, dims: Option<&[Dim]>) -> Vec<u8> {
    let mut tensor = number(1, elem_type);
    if let Some(dims) = dims {
        let mut shape = Vec::new();
        for dim in dims {
            let dim = match dim {
                Dim::N(n) => number(1, *n as u64),
                Dim::S(s) => bytes(2, s.as_bytes()),
            };
            shape.extend(bytes(1, &dim));
        }
        tensor.extend(bytes(2, &shape));
    }
    [bytes(1, name.as_bytes()), bytes(2, &bytes(1, &tensor))].concat()
}

fn node(domain: &str, operator: &str) -> Vec<u8> {
    [bytes(4, operator.as_bytes()), bytes(7, domain.as_bytes())].concat()
}

fn model(nodes: &[Vec<u8>], inputs: &[Vec<u8>], outputs: &[Vec<u8>]) -> Vec<u8> {
    let mut graph = Vec::new();
    nodes.iter().for_each(|n| graph.extend(bytes(1, n)));
    inputs.iter().for_each(|v| graph.extend(bytes(11, v)));
    outputs.iter().for_each(|v| graph.extend(bytes(12, v)));
    [number(1, 8), bytes(7, &graph)].concat()
}

fn overrides(entries: &[(&str, usize)]) -> DimensionOverrides {
    let mut out = DimensionOverrides::new();
    for (name, size) in entries {
        out.insert((*name).into(), *size);
    }
    out
}

fn inspected(bytes: &[u8]) -> (ModelFormat, ModelInfo) {
    inspect(bytes, "model.onnx", &OnnxOptions::cpu()).unwrap()
}

fn message(bytes: &[u8]) -> String {
    inspect(bytes, "model.onnx", &OnnxOptions::cpu()).unwrap_err().report()
}

#[test]
fn graphs_are_read_as_declared() {
    let bytes = model(
        &[node("", "Add"), node("ai.onnx.ml", "EPContext"), node("com.microsoft", "Add")],
        &[
            value("a", 1, Some(&[Dim::N(2), Dim::S("batch"), Dim::N(-1), Dim::N(0)])),
            value("b", 16, None),
            value("c", 9, Some(&[])),
        ],
        &[value("d", 13, Some(&[Dim::N(7)]))],
    );
    let (format, info) = inspected(&bytes);
    assert_eq!(format, ModelFormat::Onnx);
    assert_eq!(info.inputs.len(), 3);
    let spec = |name: &str, dtype, shape| TensorSpec { name: name.into(), dtype, shape };
    assert_eq!(
        info.inputs[0],
        spec("a", DType::F32, Some(vec![Some(2), None, None, Some(0)]))
    );
    assert_eq!(info.inputs[1], spec("b", DType::BF16, None));
    assert_eq!(info.inputs[2], spec("c", DType::Bool, Some(vec![])));
    assert_eq!(info.outputs, [spec("d", DType::U64, Some(vec![Some(7)]))]);
    let mut options = OnnxOptions::cpu();
    options.dimension_overrides = overrides(&[("batch", 5), ("other", 1)]);
    let (_, info) = inspect(&bytes, "model.onnx", &options).unwrap();
    assert_eq!(info.inputs[0].shape, Some(vec![Some(2), Some(5), None, Some(0)]));
    let clone = info.clone();
    assert_eq!((clone.inputs, clone.outputs), (info.inputs, info.outputs));
}

#[test]
fn inputs_with_initial_values_are_left_out() {
    let dims = [Dim::N(1)];
    let mut graph = Vec::new();
    for name in ["x", "w", "s", "y"] {
        graph.extend(bytes(11, &value(name, 1, Some(&dims))));
    }
    graph.extend(bytes(5, &bytes(8, b"w")));
    graph.extend(bytes(15, &bytes(1, &bytes(8, b"s"))));
    graph.extend(bytes(15, &[]));
    let (_, info) = inspected(&bytes(7, &graph));
    assert_eq!(info.inputs.iter().map(|s| s.name.as_str()).collect::<Vec<_>>(), ["x", "y"]);
    assert!(info.outputs.is_empty());
}

#[test]
fn compiled_wrappers_are_detected_from_their_contents() {
    let bytes = model(&[node("", "Add"), node("com.microsoft", "EPContext")], &[], &[]);
    let (format, _) = inspected(&bytes);
    assert_eq!(format, ModelFormat::EpContext);
}

#[test]
fn all_element_types_are_told_apart() {
    for (code, expected) in [
        (1, Ok(DType::F32)),
        (2, Ok(DType::U8)),
        (3, Ok(DType::I8)),
        (4, Ok(DType::U16)),
        (5, Ok(DType::I16)),
        (6, Ok(DType::I32)),
        (7, Ok(DType::I64)),
        (9, Ok(DType::Bool)),
        (10, Ok(DType::F16)),
        (11, Ok(DType::F64)),
        (12, Ok(DType::U32)),
        (13, Ok(DType::U64)),
        (16, Ok(DType::BF16)),
        (0, Err("Undefined")),
        (8, Err("String")),
        (14, Err("Complex64")),
        (15, Err("Complex128")),
        (17, Err("Float8e4m3fn")),
        (18, Err("Float8e4m3fnuz")),
        (19, Err("Float8e5m2")),
        (20, Err("Float8e5m2fnuz")),
        (21, Err("Uint4")),
        (22, Err("Int4")),
        (23, Err("Float4e2m1")),
    ] {
        let bytes = model(&[], &[], &[value("x", code, None)]);
        match expected {
            Ok(dtype) => {
                let info = inspected(&bytes).1;
                assert_eq!(info.outputs[0].dtype, dtype);
                let declared = engine::value(&info.outputs[0]).unwrap();
                assert_eq!(declared.elem_type, Some(code as i32));
            }
            Err(name) => {
                assert_eq!(message(&bytes), format!("Unsupported I/O dtype {name}: x"))
            }
        }
    }
}

#[test]
fn unreadable_models_say_why() {
    assert_eq!(message(&[]), "Missing ONNX graph");
    assert_eq!(
        message(&[0x08]),
        "Parse ONNX model model.onnx: unexpected EOF at offset 1 while reading varint"
    );
    // A sequence of tensors is no dense tensor.
    let sequence = [bytes(1, b"x"), bytes(2, &bytes(4, &[]))].concat();
    assert_eq!(
        message(&model(&[], &[sequence], &[])),
        "Only dense tensor I/O is supported: x"
    );
    let untyped = bytes(1, b"x");
    assert_eq!(
        message(&model(&[], &[], &[untyped])),
        "Only dense tensor I/O is supported: x"
    );
}

const TOO_DEEP: &str = "Parse ONNX model model.onnx: Messages are nested too deeply";

/// A graph that holds `n` graphs, each in an attribute of a node of the one around it.
/// Tags have the wire type of messages, or another one.
fn nested_graphs(n: usize, wire: u8) -> Vec<u8> {
    let wrap = |field: u8, inner: &[u8]| {
        [vec![field << 3 | wire], varint(inner.len() as u64), inner.to_vec()].concat()
    };
    let graph = (0..n).fold(Vec::new(), |graph, _| wrap(1, &wrap(5, &wrap(6, &graph))));
    [number(1, 8), wrap(7, &graph)].concat()
}

#[test]
fn deeply_nested_graphs_are_refused() {
    // The graph of the model is one level, and each further graph three.
    assert_eq!(inspected(&nested_graphs(0, 2)).0, ModelFormat::Onnx);
    assert_eq!(inspected(&nested_graphs(33, 2)).0, ModelFormat::Onnx);
    assert_eq!(message(&nested_graphs(34, 2)), TOO_DEEP);
    assert_eq!(message(&nested_graphs(2000, 2)), TOO_DEEP);
    // The parser goes by the numbers of the fields, not by their wire types.
    assert_eq!(inspected(&nested_graphs(33, 0)).0, ModelFormat::Onnx);
    assert_eq!(message(&nested_graphs(34, 0)), TOO_DEEP);
    assert_eq!(message(&nested_graphs(2000, 5)), TOO_DEEP);
}

#[test]
fn deeply_nested_types_are_refused() {
    // A value's type is the third level, and each type inside a type two more.
    for (outer, inner) in [(4, 1), (5, 2), (9, 1)] {
        let nested = |n: usize| {
            let ty = (0..n).fold(Vec::new(), |ty, _| bytes(outer, &bytes(inner, &ty)));
            model(&[], &[[bytes(1, b"x"), bytes(2, &ty)].concat()], &[])
        };
        assert_eq!(message(&nested(48)), "Only dense tensor I/O is supported: x");
        assert_eq!(message(&nested(49)), TOO_DEEP);
    }
}

#[test]
fn deep_nesting_is_found_wherever_graphs_are_read() {
    let graph = |n: usize| (0..n).fold(Vec::new(), |g, _| bytes(1, &bytes(5, &bytes(11, &g))));
    let file = |field: u64, content: &[u8]| {
        [number(1, 8), bytes(7, &[]), bytes(field, content)].concat()
    };
    // Training information and functions hold graphs as well.
    assert_eq!(message(&file(20, &bytes(2, &graph(40)))), TOO_DEEP);
    assert_eq!(message(&file(25, &bytes(7, &bytes(5, &bytes(6, &graph(40)))))), TOO_DEEP);
    // Nothing is read behind a field that is not whole.
    let broken = [number(99, 7), vec![99]].concat();
    assert_eq!(
        message(&[broken, nested_graphs(40, 2)].concat()),
        "Parse ONNX model model.onnx: invalid wire type 3 at offset 4"
    );
    // Unknown fields are skipped by their wire types.
    let skipped = [number(99, 300), varint(99 << 3 | 1), vec![255; 8], varint(98 << 3 | 5)];
    let skipped = [skipped.concat(), vec![255; 4], bytes(97, &[255; 200])].concat();
    assert_eq!(message(&[skipped.clone(), nested_graphs(40, 2)].concat()), TOO_DEEP);
    assert_eq!(inspected(&[skipped, nested_graphs(3, 2)].concat()).0, ModelFormat::Onnx);
}

#[test]
fn contents_that_only_look_nested_are_read() {
    // Raw weights and names are not looked into.
    let deep = nested_graphs(200, 2);
    let weights = [bytes(8, b"w"), bytes(9, &deep)].concat();
    let graph = [bytes(5, &weights), bytes(1, &bytes(5, &bytes(4, &deep)))].concat();
    assert_eq!(inspected(&[number(1, 8), bytes(7, &graph)].concat()).0, ModelFormat::Onnx);
}

#[test]
fn profiles_must_show_one_tensorrt_partition() {
    let event = |name: &str, provider: &str| {
        format!(r#"{{"cat":"Node","name":{name},"args":{{"provider":{provider}}}}}"#)
    };
    let trt = r#""TensorrtExecutionProvider""#;
    let check = |events: &[String]| {
        check_profile(format!("[{}]", events.join(",")).as_bytes()).map_err(|e| e.report())
    };
    let session = r#"{"cat":"Session","name":"load","args":{}}"#.to_owned();
    let plain = r#"{"cat":"Node","name":"fence","args":{"op":"x"}}"#.to_owned();
    let a = event(r#""a""#, trt);
    let b = event(r#""b""#, trt);
    assert_eq!(check(&[session.clone(), plain.clone(), a.clone(), a.clone()]), Ok(()));
    let several = "Full-model engine export requires exactly one TensorRT partition";
    assert_eq!(check(&[a.clone(), b.clone(), a.clone()]), Err(several.into()));
    assert_eq!(check(&[session, plain]), Err(several.into()));
    assert_eq!(check(&[]), Err(several.into()));
    assert_eq!(
        check(&[a.clone(), event(r#""a""#, r#""CPUExecutionProvider""#)]),
        Err("Full-model engine export requires all compute in TensorRT".into())
    );
    assert_eq!(check(&[a, event("3", trt)]), Err("Missing profile node name".into()));
    assert_eq!(check(&[event(r#""a""#, "7")]), Err(several.into()));
    let error = check_profile(b"[").unwrap_err().report();
    assert_eq!(error, "EOF while parsing a list at line 1 column 1");
    let error = check_profile(b"{}").unwrap_err().report();
    assert_eq!(error, "invalid type: map, expected a sequence at line 1 column 0");
}

#[test]
fn exactly_one_engine_file_is_selected() {
    let select = |names: &[&str]| {
        let names = names.iter().map(|s| s.to_string()).collect();
        select_engine(&names).map_err(|e| e.message())
    };
    let count = "Full-model engine export requires one engine file";
    assert_eq!(select(&["profile.json", "a.engine", "engine", ".engine"]), Ok(1));
    assert_eq!(select(&["a.engine.bak", "b.x.engine"]), Ok(1));
    assert_eq!(select(&[]), Err(count.into()));
    assert_eq!(select(&[".engine", "a.Engine"]), Err(count.into()));
    assert_eq!(select(&["a.engine", "b.engine"]), Err(count.into()));
    for name in ["a.engine", ".engine", "engine", "..engine", "a.engine.b", "aengine", "a.b.engine"]
    {
        let expected = std::path::Path::new(name).extension().is_some_and(|s| s == "engine");
        assert_eq!(select(&[name]).is_ok(), expected, "{name}");
    }
}

#[test]
fn engines_are_embedded_in_a_context_model() {
    let spec = |name: &str, dtype, shape| TensorSpec { name: name.into(), dtype, shape };
    let info = ModelInfo {
        inputs: vec![
            spec("x", DType::F16, Some(vec![None, Some(3), None])),
            spec("s", DType::I64, Some(vec![])),
        ],
        outputs: vec![spec("y", DType::F32, None)],
    };
    let context = export_context(&info, vec![1, 2, 3]).unwrap();
    assert_eq!(context.ir_version, 8);
    assert_eq!(context.producer_name, "native-onnx");
    assert_eq!(context.opset_import, [("".to_owned(), 17), ("com.microsoft".to_owned(), 1)]);
    assert_eq!(context.name, "compiled_model");
    assert_eq!((context.domain.as_str(), context.operator.as_str()), ("com.microsoft", "EPContext"));
    assert!(matches!(
        &context.attributes[0],
        AttributeDecl::Int { name, value: 1 } if name == "embed_mode"
    ));
    assert!(matches!(
        &context.attributes[1],
        AttributeDecl::Bytes { name, value } if name == "ep_cache_context" && value == &[1, 2, 3]
    ));
    assert!(matches!(
        &context.attributes[2],
        AttributeDecl::Bytes { name, value }
            if name == "source" && value == b"TensorrtExecutionProvider"
    ));
    let dims = context.inputs[0].shape.as_ref().unwrap();
    assert!(matches!(&dims[0], DimensionDecl::Param(s) if s == "x_d0"));
    assert!(matches!(&dims[1], DimensionDecl::Value(3)));
    assert!(matches!(&dims[2], DimensionDecl::Param(s) if s == "x_d2"));
    assert!(context.outputs[0].shape.is_none());
    // What is stored is recognized again and declares the same inputs and outputs.
    let graph = GraphDecl {
        operators: vec![(context.domain, context.operator)],
        initializers: vec![],
        inputs: context.inputs,
        outputs: context.outputs,
    };
    let (format, read) = inspect_graph(&graph, &overrides(&[])).unwrap();
    assert_eq!(format, ModelFormat::EpContext);
    assert_eq!((read.inputs, read.outputs), (info.inputs, info.outputs));
    let huge = ModelInfo {
        inputs: vec![],
        outputs: vec![spec("y", DType::U8, Some(vec![Some(usize::MAX)]))],
    };
    assert_eq!(
        export_context(&huge, vec![]).unwrap_err().message(),
        "out of range integral type conversion attempted"
    );
}
