use native_onnx::element::ElementType;
use native_onnx::tensor::{
    copy_outputs, element_count, BFloat16, DType, Float16, Float32, Float64, Tensor, TensorBuffer,
    TensorData, TensorDataMut, TensorSpec, TensorView, TensorViewMut,
};
use ort::value::TensorElementType;


fn bits(values: &[f32]) -> Vec<Float32> {
    values.iter().map(|v| Float32 { bits: v.to_bits() }).collect()
}

#[test]
fn checked_dimensions_and_scalar() {
    assert_eq!(element_count(&[]).unwrap(), 1);
    assert_eq!(element_count(&[usize::MAX, 0]).unwrap(), 0);
    assert!(element_count(&[usize::MAX, 2]).is_err());
    let spec = TensorSpec {
        name: "x".into(),
        dtype: DType::F32,
        shape: Some(vec![None, Some(2)]),
    };
    let six = bits(&[0.0; 6]);
    let five = bits(&[0.0; 5]);
    assert!(spec.validate(&TensorView::float32("x", &[3, 2], &six)).is_ok());
    assert!(spec.validate(&TensorView::float32("x", &[2, 3], &six)).is_err());
    assert!(spec.validate(&TensorView::float32("x", &[3, 2], &five)).is_err());
}

#[test]
fn element_counts_are_products() {
    assert_eq!(element_count(&[2, 3, 4]).unwrap(), 24);
    assert_eq!(element_count(&[usize::MAX]).unwrap(), usize::MAX);
    assert_eq!(element_count(&[0, usize::MAX, usize::MAX]).unwrap(), 0);
    assert_eq!(
        element_count(&[usize::MAX / 2 + 1, 2]).unwrap_err().message(),
        "Tensor element count overflow"
    );
}

#[test]
fn validation_reports_the_first_fault() {
    let spec = |shape| TensorSpec { name: "x".into(), dtype: DType::F32, shape };
    let data = bits(&[0.0; 6]);
    let fixed = spec(Some(vec![None, Some(2)]));
    let message = |spec: &TensorSpec, view: TensorView<'_>| spec.validate(&view).unwrap_err().message();
    assert_eq!(
        message(&fixed, TensorView::float32("y", &[1], &data)),
        "Tensor name mismatch: y"
    );
    let integers = [0i32; 6];
    let view = TensorView { name: "x", shape: &[3, 2], data: TensorData::I32(&integers) };
    assert_eq!(message(&fixed, view), "Tensor x expects F32, got I32");
    assert_eq!(
        message(&fixed, TensorView::float32("x", &[6], &data)),
        "Tensor x expects shape Some([None, Some(2)]), got [6]"
    );
    assert_eq!(
        message(&fixed, TensorView::float32("x", &[10, 3], &data)),
        "Tensor x expects shape Some([None, Some(2)]), got [10, 3]"
    );
    assert_eq!(
        message(&fixed, TensorView::float32("x", &[4, 2], &data)),
        "Tensor length mismatch: x"
    );
    let any = spec(None);
    assert_eq!(
        message(&any, TensorView::float32("x", &[usize::MAX, 2], &data)),
        "Tensor element count overflow"
    );
    assert!(any.validate(&TensorView::float32("x", &[3, 2], &data)).is_ok());
    assert!(any.validate(&TensorView::float32("x", &[6], &data)).is_ok());
    let scalar = spec(Some(vec![]));
    assert_eq!(
        message(&scalar, TensorView::float32("x", &[1], &data[..1])),
        "Tensor x expects shape Some([]), got [1]"
    );
    assert!(scalar.validate(&TensorView::float32("x", &[], &data[..1])).is_ok());
}

#[test]
fn fixed_shapes_need_every_dimension() {
    let spec = |shape| TensorSpec { name: "x".into(), dtype: DType::U8, shape };
    assert_eq!(spec(None).fixed_shape(), None);
    assert_eq!(spec(Some(vec![])).fixed_shape(), Some(vec![]));
    assert_eq!(spec(Some(vec![Some(2), None])).fixed_shape(), None);
    assert_eq!(spec(Some(vec![Some(2), Some(0)])).fixed_shape(), Some(vec![2, 0]));
}

#[test]
fn copies_check_length_and_type() {
    let mut target = [1u8, 2, 3];
    let mut view = TensorDataMut::U8(&mut target);
    assert_eq!(view.dtype(), DType::U8);
    assert_eq!(view.len(), 3);
    assert!(!view.is_empty());
    assert_eq!(
        view.copy_from(TensorData::U8(&[7])).unwrap_err().message(),
        "Output buffer length mismatch"
    );
    assert_eq!(
        view.copy_from(TensorData::I8(&[7, 8, 9])).unwrap_err().message(),
        "Output buffer dtype mismatch"
    );
    view.copy_from(TensorData::U8(&[7, 8, 9])).unwrap();
    assert_eq!(target, [7, 8, 9]);
}

#[test]
fn owned_tensors_hold_what_was_viewed() {
    let data = [true, false];
    let view = TensorView { name: "flags", shape: &[2], data: TensorData::Bool(&data) };
    let mut tensor = view.to_owned();
    assert_eq!(tensor.name, "flags");
    assert_eq!(tensor.shape, [2]);
    assert_eq!(tensor.data, TensorBuffer::Bool(vec![true, false]));
    assert_eq!(tensor.clone(), tensor);
    assert!(tensor.view().as_f32().is_err());
    assert_eq!(tensor.view_mut().as_f32_mut().unwrap_err().message(), "Not an FP32 tensor");
    if let TensorDataMut::Bool(values) = tensor.view_mut().data {
        values[1] = true;
    }
    assert!(matches!(tensor.view().data, TensorData::Bool(&[true, true])));
    assert!(!tensor.data.is_empty());
    assert!(TensorBuffer::U8(vec![]).is_empty());
}

#[test]
fn zero_buffers_have_the_type_and_length() {
    for dtype in [
        DType::F32, DType::F64, DType::F16, DType::BF16, DType::I64, DType::I32, DType::I16,
        DType::I8, DType::U64, DType::U32, DType::U16, DType::U8, DType::Bool,
    ] {
        let buffer = TensorBuffer::zeros(dtype, 3);
        assert_eq!(buffer.dtype(), dtype);
        assert_eq!(buffer.len(), 3);
        assert_eq!(buffer, TensorBuffer::zeros(dtype, 3));
        assert_eq!(dtype.text(), format!("{dtype:?}"));
    }
    assert_eq!(TensorBuffer::zeros(DType::I16, 2), TensorBuffer::I16(vec![0, 0]));
    assert_eq!(TensorBuffer::zeros(DType::Bool, 1), TensorBuffer::Bool(vec![false]));
}

#[test]
fn numbers_compare_by_value() {
    let samples = [
        0.0f32, -0.0, 1.0, -1.0, f32::NAN, -f32::NAN, f32::INFINITY, f32::NEG_INFINITY, f32::MIN,
        f32::MIN_POSITIVE, f32::from_bits(1), f32::from_bits(0x7f80_0001),
    ];
    for a in samples {
        for b in samples {
            let (x, y) = (Float32 { bits: a.to_bits() }, Float32 { bits: b.to_bits() });
            assert_eq!(x == y, a == b, "{a} {b}");
            let (c, d) = (a as f64, b as f64);
            let (x, y) = (Float64 { bits: c.to_bits() }, Float64 { bits: d.to_bits() });
            assert_eq!(x == y, c == d, "{c} {d}");
        }
    }
    for a in 0..=u16::MAX {
        for b in [0, 0x8000, 0x3c00, 0x7c00, 0x7c01, 0x7f80, 0x7f81, 0xffff, a] {
            let (c, d) = (half::f16::from_bits(a), half::f16::from_bits(b));
            assert_eq!(Float16 { bits: a } == Float16 { bits: b }, c == d, "{a} {b}");
            let (c, d) = (half::bf16::from_bits(a), half::bf16::from_bits(b));
            assert_eq!(BFloat16 { bits: a } == BFloat16 { bits: b }, c == d, "{a} {b}");
        }
    }
}

#[test]
fn outputs_are_copied_by_name_all_or_none() {
    let tensor = |name: &str, data: Vec<u8>| Tensor {
        name: name.into(),
        shape: vec![data.len()],
        data: TensorBuffer::U8(data),
    };
    let source = [tensor("a", vec![1, 2]), tensor("b", vec![3])];
    let (mut a, mut b) = ([0u8; 2], [0u8; 1]);
    let mut wrong = [9i8; 1];
    let message = |targets: &mut [TensorViewMut<'_>]| {
        copy_outputs(&source, targets).unwrap_err().message()
    };
    assert_eq!(message(&mut []), "Output count mismatch");
    assert_eq!(
        message(&mut [
            TensorViewMut { name: "a", shape: &[2], data: TensorDataMut::U8(&mut a) },
            TensorViewMut { name: "a", shape: &[1], data: TensorDataMut::U8(&mut b) },
        ]),
        "Duplicate output a"
    );
    assert_eq!(
        message(&mut [
            TensorViewMut { name: "a", shape: &[2], data: TensorDataMut::U8(&mut a) },
            TensorViewMut { name: "c", shape: &[1], data: TensorDataMut::U8(&mut b) },
        ]),
        "Unknown output c"
    );
    assert_eq!(
        message(&mut [
            TensorViewMut { name: "a", shape: &[2], data: TensorDataMut::U8(&mut a) },
            TensorViewMut { name: "b", shape: &[1], data: TensorDataMut::I8(&mut wrong) },
        ]),
        "Output shape/type/length mismatch: b"
    );
    assert_eq!((a, b, wrong), ([0, 0], [0], [9]));
    copy_outputs(
        &source,
        &mut [
            TensorViewMut { name: "b", shape: &[1], data: TensorDataMut::U8(&mut b) },
            TensorViewMut { name: "a", shape: &[2], data: TensorDataMut::U8(&mut a) },
        ],
    )
    .unwrap();
    assert_eq!((a, b), ([1, 2], [3]));
}

#[test]
fn element_types_have_the_sizes_of_the_runtime() {
    for (own, native) in [
        (ElementType::Float32, TensorElementType::Float32),
        (ElementType::Uint8, TensorElementType::Uint8),
        (ElementType::Int8, TensorElementType::Int8),
        (ElementType::Uint16, TensorElementType::Uint16),
        (ElementType::Int16, TensorElementType::Int16),
        (ElementType::Int32, TensorElementType::Int32),
        (ElementType::Int64, TensorElementType::Int64),
        (ElementType::String, TensorElementType::String),
        (ElementType::Bool, TensorElementType::Bool),
        (ElementType::Float16, TensorElementType::Float16),
        (ElementType::Float64, TensorElementType::Float64),
        (ElementType::Uint32, TensorElementType::Uint32),
        (ElementType::Uint64, TensorElementType::Uint64),
        (ElementType::Bfloat16, TensorElementType::Bfloat16),
        (ElementType::Complex64, TensorElementType::Complex64),
        (ElementType::Complex128, TensorElementType::Complex128),
        (ElementType::Float8E4M3FN, TensorElementType::Float8E4M3FN),
        (ElementType::Float8E4M3FNUZ, TensorElementType::Float8E4M3FNUZ),
        (ElementType::Float8E5M2, TensorElementType::Float8E5M2),
        (ElementType::Float8E5M2FNUZ, TensorElementType::Float8E5M2FNUZ),
        (ElementType::Uint4, TensorElementType::Uint4),
        (ElementType::Int4, TensorElementType::Int4),
        (ElementType::Undefined, TensorElementType::Undefined),
    ] {
        assert_eq!(own.width(), native.byte_size(1).filter(|&n| n > 0), "{own:?}");
        assert_eq!(own.text(), format!("{native:?}"));
        if let Some(dtype) = own.dtype() {
            assert_eq!(ElementType::of(dtype), own);
        }
    }
}
