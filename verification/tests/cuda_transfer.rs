use native_onnx::cuda_transfer::{
    check, check_status, checked_bytes, validate, DriverCall, MemoryKind, NativeTensor, Reply,
    Transfer,
};
use native_onnx::element::ElementType;
use native_onnx::error::Error;

#[test]
fn cuda_transfer_copy_sizes_reject_overflow_and_non_byte_types() {
    assert_eq!(checked_bytes(&[2, 3], ElementType::Float32).unwrap(), 24);
    assert_eq!(checked_bytes(&[], ElementType::Int64).unwrap(), 8);
    assert_eq!(checked_bytes(&[i64::MAX, 0], ElementType::Float64).unwrap(), 0);
    assert!(checked_bytes(&[-1], ElementType::Float32).is_err());
    assert!(checked_bytes(&[i64::MAX, 2], ElementType::Float64).is_err());
    assert!(checked_bytes(&[4], ElementType::String).is_err());
    assert!(checked_bytes(&[4], ElementType::Int4).is_err());
}

#[test]
fn copy_size_errors_say_what_is_wrong() {
    let message = |shape: &[i64], t| checked_bytes(shape, t).unwrap_err().message();
    assert_eq!(message(&[-1, 0], ElementType::Float32), "Negative CUDA copy dimension");
    assert_eq!(message(&[i64::MAX, 3], ElementType::Uint8), "CUDA copy byte count overflow");
    assert_eq!(
        message(&[-1], ElementType::Undefined),
        "CUDA copy requires a byte-addressable tensor type"
    );
}

fn host_tensor(address: u64) -> NativeTensor {
    NativeTensor {
        element_type: ElementType::Float32,
        shape: vec![2, 3],
        memory: MemoryKind::CudaPinned,
        cpu_accessible: true,
        device_id: 0,
        address,
    }
}

fn device_tensor(address: u64) -> NativeTensor {
    NativeTensor { memory: MemoryKind::Cuda, cpu_accessible: false, ..host_tensor(address) }
}

#[test]
fn pairs_are_checked_before_any_call() {
    let message = |source: NativeTensor, target: NativeTensor, upload: bool| {
        validate(&source, &target, 0, upload).unwrap_err().message()
    };
    assert_eq!(validate(&host_tensor(1), &device_tensor(2), 0, true).unwrap(), 24);
    assert_eq!(validate(&device_tensor(1), &host_tensor(2), 0, false).unwrap(), 24);
    assert_eq!(
        message(NativeTensor { shape: vec![3, 2], ..host_tensor(1) }, device_tensor(2), true),
        "CUDA copy shape/type mismatch"
    );
    assert_eq!(
        message(
            NativeTensor { element_type: ElementType::Int32, ..host_tensor(1) },
            device_tensor(2),
            true
        ),
        "CUDA copy shape/type mismatch"
    );
    assert_eq!(
        message(device_tensor(1), host_tensor(2), true),
        "Asynchronous CUDA copy requires ORT pinned host memory"
    );
    assert_eq!(
        message(NativeTensor { cpu_accessible: false, ..host_tensor(1) }, device_tensor(2), true),
        "Asynchronous CUDA copy requires ORT pinned host memory"
    );
    assert_eq!(
        message(host_tensor(1), NativeTensor { device_id: 1, ..device_tensor(2) }, true),
        "CUDA copy device mismatch"
    );
    assert_eq!(message(host_tensor(0), device_tensor(2), true), "Null CUDA copy buffer");
    let empty = |t: NativeTensor| NativeTensor { shape: vec![0], ..t };
    assert_eq!(validate(&empty(host_tensor(0)), &empty(device_tensor(0)), 0, true).unwrap(), 0);
    let pairs = vec![
        (host_tensor(1), device_tensor(2)),
        (host_tensor(1), NativeTensor { device_id: 1, ..device_tensor(2) }),
    ];
    assert_eq!(
        Transfer::copy_batch(&pairs, 0, true).unwrap_err().message(),
        "CUDA copy device mismatch"
    );
}

/// Run a transfer against a driver whose call number `failing` fails.
fn drive(mut transfer: Transfer, failing: usize) -> (Vec<DriverCall>, Result<(), Error>) {
    let mut calls = vec![];
    while let Some(call) = transfer.next_call() {
        calls.push(call);
        let reply = if calls.len() == failing {
            Reply::Failed(check_status(call, 719, Some("CUDA_ERROR_LAUNCH_FAILED")).unwrap_err())
        } else {
            match call {
                DriverCall::PointerContext { address } => Reply::Context(address / 100),
                DriverCall::CurrentDevice => Reply::Device(0),
                _ => Reply::Done,
            }
        };
        transfer.advance(reply);
    }
    (calls, transfer.finish())
}

fn batch(addresses: &[(u64, u64)], upload: bool) -> Transfer {
    let pairs = addresses
        .iter()
        .map(|&(host, device)| {
            if upload {
                (host_tensor(host), device_tensor(device))
            } else {
                (device_tensor(device), host_tensor(host))
            }
        })
        .collect();
    Transfer::copy_batch(&pairs, 0, upload).unwrap()
}

#[test]
fn a_batch_is_copied_in_order_inside_its_context() {
    let (calls, result) = drive(batch(&[(1, 700), (2, 701)], true), 0);
    assert!(result.is_ok());
    assert_eq!(
        calls,
        [
            DriverCall::PointerContext { address: 700 },
            DriverCall::PushContext { context: 7 },
            DriverCall::CurrentDevice,
            DriverCall::SynchronizeContext,
            DriverCall::PointerContext { address: 700 },
            DriverCall::Upload { host: 1, device: 700, bytes: 24 },
            DriverCall::PointerContext { address: 701 },
            DriverCall::Upload { host: 2, device: 701, bytes: 24 },
            DriverCall::SynchronizeStream,
            DriverCall::PopContext,
        ]
    );
    let (calls, result) = drive(batch(&[(1, 700)], false), 0);
    assert!(result.is_ok());
    assert_eq!(calls[5], DriverCall::Download { host: 1, device: 700, bytes: 24 });
}

#[test]
fn every_failure_settles_and_restores() {
    for failing in 1..=10 {
        let (calls, result) = drive(batch(&[(1, 700), (2, 701)], true), failing);
        let count = |call| calls.iter().filter(|&&c| c == call).count();
        let pushed = count(DriverCall::PushContext { context: 7 });
        let failed_push = usize::from(failing == 2);
        assert_eq!(count(DriverCall::PopContext), pushed - failed_push);
        assert_eq!(count(DriverCall::SynchronizeStream), pushed - failed_push);
        let operation = match failing {
            1 | 5 | 7 => "cuPointerGetAttribute(CONTEXT)",
            2 => "cuCtxPushCurrent",
            3 => "cuCtxGetDevice",
            4 => "cuCtxSynchronize before copies",
            6 | 8 => "cuMemcpyHtoDAsync",
            9 => "cuStreamSynchronize copies",
            _ => "cuCtxPopCurrent",
        };
        assert_eq!(
            result.unwrap_err().report(),
            format!("{operation}: CUDA_ERROR_LAUNCH_FAILED (719)")
        );
    }
}

#[test]
fn foreign_contexts_and_devices_are_refused() {
    let (calls, result) = drive(batch(&[(1, 700), (2, 800)], true), 0);
    assert_eq!(result.unwrap_err().message(), "Mixed CUDA contexts in transfer batch");
    assert_eq!(calls.last(), Some(&DriverCall::PopContext));
    let (calls, result) = drive(batch(&[(1, 7)], true), 0);
    assert_eq!(result.unwrap_err().message(), "CUDA tensor has no owning context");
    assert_eq!(calls.len(), 1);
    let mut transfer = batch(&[(1, 700)], true);
    transfer.advance(Reply::Context(7));
    transfer.advance(Reply::Done);
    transfer.advance(Reply::Device(1));
    assert_eq!(transfer.next_call(), Some(DriverCall::SynchronizeStream));
    transfer.advance(Reply::Done);
    transfer.advance(Reply::Failed(Error::External("late".into())));
    assert_eq!(
        transfer.finish().unwrap_err().message(),
        "CUDA allocation context device mismatch"
    );
}

#[test]
fn nothing_to_copy_needs_no_driver() {
    let empty = |t: NativeTensor| NativeTensor { shape: vec![2, 0], ..t };
    let pairs = vec![(empty(host_tensor(0)), empty(device_tensor(0)))];
    let transfer = Transfer::copy_batch(&pairs, 0, true).unwrap();
    assert_eq!(transfer.next_call(), None);
    assert!(transfer.finish().is_ok());
    assert!(Transfer::copy_batch(&vec![], 0, false).unwrap().finish().is_ok());
}

#[test]
fn driver_statuses_are_named() {
    assert!(check_status(DriverCall::PopContext, 0, None).is_ok());
    assert_eq!(
        check_status(DriverCall::PopContext, -3, None).unwrap_err().message(),
        "cuCtxPopCurrent: unknown CUDA error (-3)"
    );
    assert!(check(0, "cuInit", Some("CUDA_SUCCESS")).is_ok());
    assert_eq!(
        check(100, "cuInit", Some("CUDA_ERROR_NO_DEVICE")).unwrap_err().message(),
        "cuInit: CUDA_ERROR_NO_DEVICE (100)"
    );
}
