//! What holds of batched copies: what is copied, and in which order the driver is called.
use crate::cuda_transfer::{
    answers, byte_count, count_result, law_byte_counts_are_exact, law_first_fault_is_kept,
    law_transfers_end, multiplied, pair_bytes, pair_views, planned, status_fault, CopyJob,
    DriverCall, MemoryKind, NativeTensor, NativeView, Phase, Reply, ReplyView, TransferView,
};
use crate::element::ElementType;
use crate::error::{Error, ErrorView, Fault};
use crate::tensor::{product, DType};
use crate::text::signed_decimal;
use vstd::prelude::*;

verus! {

// ---------------------------------------------------------------------------
// Sizes

/// Elements of tensors take as many bytes as their type has bits, by eight; a `Bool`
/// takes one.
pub proof fn law_elements_have_their_width(dtype: DType)
    ensures
        ElementType::native_type(dtype).whole_bytes() == Some(
            match dtype {
                DType::F64 | DType::I64 | DType::U64 => 8usize,
                DType::F32 | DType::I32 | DType::U32 => 4usize,
                DType::F16 | DType::BF16 | DType::I16 | DType::U16 => 2usize,
                DType::I8 | DType::U8 | DType::Bool => 1usize,
            },
        ),
{
}

/// Complex numbers take two numbers, eight-bit numbers one byte, and neither texts nor
/// types of less than a byte can be copied.
pub proof fn law_other_elements_have_their_width(element_type: ElementType)
    requires
        element_type.tensor_type() is None,
    ensures
        element_type is Complex64 <==> element_type.whole_bytes() == Some(8usize),
        element_type is Complex128 <==> element_type.whole_bytes() == Some(16usize),
        element_type.whole_bytes() == Some(1usize) <==> element_type is Float8E4M3FN || element_type
            is Float8E4M3FNUZ || element_type is Float8E5M2 || element_type is Float8E5M2FNUZ,
        element_type is String ==> element_type.whole_bytes() is None,
        element_type is Int4 ==> element_type.whole_bytes() is None,
        element_type is Uint4 ==> element_type.whole_bytes() is None,
{
}

proof fn lemma_multiplied_is_checked(width: nat, shape: Seq<i64>)
    requires
        width <= usize::MAX,
    ensures
        multiplied(width, shape) matches Ok(bytes) ==> bytes <= usize::MAX,
        (exists|i: int| 0 <= i < shape.len() && #[trigger] shape[i] > usize::MAX) ==> multiplied(
            width,
            shape,
        ) is Err,
    decreases shape.len(),
{
    if shape.len() > 0 {
        let front = shape.drop_last();
        lemma_multiplied_is_checked(width, front);
        if exists|i: int| 0 <= i < shape.len() && #[trigger] shape[i] > usize::MAX {
            let i = choose|i: int| 0 <= i < shape.len() && #[trigger] shape[i] > usize::MAX;
            if i < front.len() {
                assert(front[i] > usize::MAX);
            }
        }
    }
}

/// A byte count is refused exactly for elements that are no whole bytes, for negative
/// dimensions, and where the bytes cannot be counted although no dimension is zero.
/// Otherwise it is the width of an element times the sizes of the dimensions, and none
/// where a dimension is zero.
pub proof fn law_byte_counts_are_given_where_they_exist(
    shape: Seq<i64>,
    element_type: ElementType,
)
    ensures
        match byte_count(shape, element_type) {
            Ok(bytes) => {
                &&& element_type.whole_bytes() is Some
                &&& forall|i: int| 0 <= i < shape.len() ==> 0 <= #[trigger] shape[i]
                &&& bytes <= usize::MAX
                &&& shape.contains(0) ==> bytes == 0
                &&& !shape.contains(0) ==> {
                    &&& forall|i: int| 0 <= i < shape.len() ==> #[trigger] shape[i] <= usize::MAX
                    &&& bytes == (element_type.whole_bytes()->0) * product(
                        Seq::new(shape.len(), |i: int| shape[i] as usize),
                    )
                }
            },
            Err(_) => {
                ||| element_type.whole_bytes() is None
                ||| exists|i: int| 0 <= i < shape.len() && #[trigger] shape[i] < 0
                ||| !shape.contains(0) && exists|i: int|
                    0 <= i < shape.len() && #[trigger] shape[i] > usize::MAX
                ||| !shape.contains(0) && (element_type.whole_bytes()->0) * product(
                    Seq::new(shape.len(), |i: int| shape[i] as usize),
                ) > usize::MAX
            },
        },
{
    if element_type.whole_bytes() is Some && !shape.contains(0) && forall|i: int|
        0 <= i < shape.len() ==> 0 <= #[trigger] shape[i] {
        lemma_multiplied_is_checked(element_type.whole_bytes()->0 as nat, shape);
        if forall|i: int| 0 <= i < shape.len() ==> #[trigger] shape[i] <= usize::MAX {
            law_byte_counts_are_exact(shape, element_type);
        }
    }
}

// ---------------------------------------------------------------------------
// Plans

/// Whether a pair can be copied: both have one type and one shape, the host's side is
/// accessible pinned memory, the device's side is memory of that device, and neither
/// address is null unless there is nothing to copy.
pub open spec fn can_be_copied(
    source: NativeView,
    target: NativeView,
    device_id: i32,
    upload: bool,
) -> bool {
    let host = if upload {
        source
    } else {
        target
    };
    let device = if upload {
        target
    } else {
        source
    };
    &&& source.element_type == target.element_type
    &&& source.shape == target.shape
    &&& byte_count(source.shape, source.element_type) is Ok
    &&& host.cpu_accessible
    &&& host.memory == MemoryKind::CudaPinned
    &&& device.memory == MemoryKind::Cuda
    &&& device.device_id == device_id
    &&& byte_count(source.shape, source.element_type) != Ok::<nat, ErrorView>(0nat) ==> {
        &&& source.address != 0
        &&& target.address != 0
    }
}

/// A pair is accepted exactly when it can be copied, and for the bytes of its tensors.
pub proof fn law_pairs_are_checked(
    source: NativeView,
    target: NativeView,
    device_id: i32,
    upload: bool,
)
    ensures
        pair_bytes(source, target, device_id, upload) is Ok <==> can_be_copied(
            source,
            target,
            device_id,
            upload,
        ),
        pair_bytes(source, target, device_id, upload) is Ok ==> pair_bytes(
            source,
            target,
            device_id,
            upload,
        ) == byte_count(source.shape, source.element_type),
{
}

/// A pair is refused for the first thing that is wrong with it: its types and shapes, its
/// size, the host's memory, the device's memory, then its addresses.
pub proof fn law_pairs_are_refused_for_the_first(
    source: NativeView,
    target: NativeView,
    device_id: i32,
    upload: bool,
)
    ensures
        pair_bytes(source, target, device_id, upload) matches Err(error) ==> {
            let host = if upload {
                source
            } else {
                target
            };
            let device = if upload {
                target
            } else {
                source
            };
            let alike = source.element_type == target.element_type && source.shape == target.shape;
            if !alike {
                error == ErrorView::Fault(Fault::CopyMismatch)
            } else if byte_count(source.shape, source.element_type) is Err {
                byte_count(source.shape, source.element_type) == Err::<nat, ErrorView>(error)
            } else if !(host.cpu_accessible && host.memory == MemoryKind::CudaPinned) {
                error == ErrorView::Fault(Fault::CopyHost)
            } else if !(device.memory == MemoryKind::Cuda && device.device_id == device_id) {
                error == ErrorView::Fault(Fault::CopyDevice)
            } else {
                error == ErrorView::Fault(Fault::CopyNull)
            }
        },
{
}

/// A size is refused for its element type first, then for a negative dimension, then
/// because it cannot be counted.
pub proof fn law_sizes_are_refused_for_the_first(shape: Seq<i64>, element_type: ElementType)
    ensures
        byte_count(shape, element_type) matches Err(error) ==> {
            if element_type.whole_bytes() is None {
                error == ErrorView::Fault(Fault::CopyType)
            } else if exists|i: int| 0 <= i < shape.len() && #[trigger] shape[i] < 0 {
                error == ErrorView::Fault(Fault::CopyDimension)
            } else {
                error == ErrorView::Fault(Fault::CopyOverflow) || error == ErrorView::Fault(
                    Fault::DimensionRange,
                )
            }
        },
{
    if element_type.whole_bytes() is Some {
        lemma_overflow_is_reported(element_type.whole_bytes()->0 as nat, shape);
    }
}

proof fn lemma_overflow_is_reported(width: nat, shape: Seq<i64>)
    ensures
        multiplied(width, shape) matches Err(error) ==> error == ErrorView::Fault(
            Fault::CopyOverflow,
        ) || error == ErrorView::Fault(Fault::DimensionRange),
    decreases shape.len(),
{
    if shape.len() > 0 {
        lemma_overflow_is_reported(width, shape.drop_last());
    }
}

/// The pairs that have bytes to copy, in their order.
pub open spec fn with_bytes(pairs: Seq<(NativeView, NativeView)>) -> Seq<(NativeView, NativeView)> {
    pairs.filter(
        |pair: (NativeView, NativeView)|
            byte_count(pair.0.shape, pair.0.element_type) != Ok::<nat, ErrorView>(0nat),
    )
}

/// Whether a copy is that of a pair: it takes the pair's bytes between the addresses of
/// its host and device sides.
pub open spec fn is_copy_of(
    job: CopyJob,
    pair: (NativeView, NativeView),
    upload: bool,
) -> bool {
    &&& byte_count(pair.0.shape, pair.0.element_type) == Ok::<nat, ErrorView>(job.bytes as nat)
    &&& upload ==> job.host == pair.0.address && job.device == pair.1.address
    &&& !upload ==> job.host == pair.1.address && job.device == pair.0.address
}

/// A batch copies every pair that has bytes once, in the order of the pairs, each
/// between its own addresses. It is refused exactly when some pair cannot be copied.
pub proof fn law_batches_copy_every_pair(
    pairs: Seq<(NativeView, NativeView)>,
    device_id: i32,
    upload: bool,
)
    ensures
        match planned(pairs, device_id, upload) {
            Ok(jobs) => {
                &&& jobs.len() == with_bytes(pairs).len()
                &&& forall|k: int|
                    #![trigger jobs[k]]
                    0 <= k < jobs.len() ==> is_copy_of(jobs[k], with_bytes(pairs)[k], upload)
                &&& forall|i: int|
                    0 <= i < pairs.len() ==> can_be_copied(
                        (#[trigger] pairs[i]).0,
                        pairs[i].1,
                        device_id,
                        upload,
                    )
            },
            Err(error) => exists|i: int|
                0 <= i < pairs.len() && !can_be_copied(
                    (#[trigger] pairs[i]).0,
                    pairs[i].1,
                    device_id,
                    upload,
                ) && pair_bytes(pairs[i].0, pairs[i].1, device_id, upload) == Err::<nat, ErrorView>(
                    error,
                ),
        },
    decreases pairs.len(),
{
    reveal(Seq::filter);
    if pairs.len() > 0 {
        let front = pairs.drop_last();
        let last = pairs.last();
        law_batches_copy_every_pair(front, device_id, upload);
        law_pairs_are_checked(last.0, last.1, device_id, upload);
        assert(last == pairs[pairs.len() - 1]);
        law_byte_counts_are_given_where_they_exist(last.0.shape, last.0.element_type);
        match planned(front, device_id, upload) {
            Err(error) => {
                let i = choose|i: int|
                    0 <= i < front.len() && !can_be_copied(
                        (#[trigger] front[i]).0,
                        front[i].1,
                        device_id,
                        upload,
                    ) && pair_bytes(front[i].0, front[i].1, device_id, upload) == Err::<
                        nat,
                        ErrorView,
                    >(error);
                assert(pairs[i] == front[i]);
            },
            Ok(before) => {
                if let Ok(jobs) = planned(pairs, device_id, upload) {
                    assert forall|i: int| 0 <= i < pairs.len() implies can_be_copied(
                        (#[trigger] pairs[i]).0,
                        pairs[i].1,
                        device_id,
                        upload,
                    ) by {
                        if i < front.len() {
                            assert(pairs[i] == front[i]);
                        }
                    }
                    assert forall|k: int|
                        #![trigger jobs[k]]
                        0 <= k < jobs.len() implies is_copy_of(
                        jobs[k],
                        with_bytes(pairs)[k],
                        upload,
                    ) by {
                        if k < before.len() {
                            assert(jobs[k] == before[k]);
                            assert(with_bytes(pairs)[k] == with_bytes(front)[k]);
                        }
                    }
                }
            },
        }
    }
}

// ---------------------------------------------------------------------------
// The order of calls

/// Whether a reply is what a faultless transfer waits for.
pub open spec fn is_expected(transfer: TransferView, reply: ReplyView) -> bool {
    match transfer.phase {
        Phase::Lookup => reply matches ReplyView::Context(context) && context != 0,
        Phase::Device => reply == ReplyView::Device(transfer.device_id),
        Phase::Confirm => reply == ReplyView::Context(transfer.context) && transfer.context != 0,
        _ => reply is Done,
    }
}

/// A transfer stays without a fault exactly as long as every reply is the expected one:
/// calls succeed, the context belongs to the device, and all tensors to the context. A
/// failed call is the fault, in the driver's words.
pub proof fn law_unexpected_replies_are_faults(transfer: TransferView, reply: ReplyView)
    requires
        transfer.wf(),
        answers(transfer.phase, reply),
    ensures
        transfer.next(reply).fault is None <==> transfer.fault is None && is_expected(
            transfer,
            reply,
        ),
        transfer.fault is None && reply is Failed ==> transfer.next(reply).fault == Some(
            reply->Failed_0,
        ),
        transfer.fault is None && transfer.phase == Phase::Device ==> (reply
            matches ReplyView::Device(device) ==> device != transfer.device_id
            ==> transfer.next(reply).fault == Some(ErrorView::Fault(Fault::CopyContextDevice))),
        transfer.fault is None && reply == ReplyView::Context(0) ==> transfer.next(reply).fault
            == Some(ErrorView::Fault(Fault::CopyContext)),
        transfer.fault is None && transfer.phase == Phase::Confirm ==> (reply
            matches ReplyView::Context(context) ==> context != 0 && context != transfer.context
            ==> transfer.next(reply).fault == Some(ErrorView::Fault(Fault::CopyMixed))),
        transfer.next(reply).jobs == transfer.jobs,
        transfer.next(reply).upload == transfer.upload,
        transfer.next(reply).device_id == transfer.device_id,
{
}

/// After a fault no more copies are queued: what was queued is waited for and the
/// context restored, or nothing more is done where none was pushed.
pub proof fn law_faults_end_the_copies(transfer: TransferView, reply: ReplyView)
    requires
        transfer.wf(),
        answers(transfer.phase, reply),
        transfer.next(reply).fault is Some,
    ensures
        ({
            let after = transfer.next(reply);
            &&& after.phase == Phase::Settle || after.phase == Phase::Restore || after.phase
                == Phase::Finished
            &&& after.phase == Phase::Finished <==> transfer.phase == Phase::Lookup
                || transfer.phase == Phase::Push || transfer.phase == Phase::Restore
            &&& after.at == transfer.at
        }),
{
}

/// The replies of a transfer of `n` copies that meets no fault, on this device and in
/// this context: the first tensor's context, the push, the device, the wait for earlier
/// work, for each copy its tensor's context and the copy, the wait for the copies, and
/// the restored context.
pub open spec fn is_faultless(
    reply: ReplyView,
    i: int,
    n: int,
    device_id: i32,
    context: u64,
) -> bool {
    if i == 0 || (4 <= i < 4 + 2 * n && i % 2 == 0) {
        reply == ReplyView::Context(context)
    } else if i == 2 {
        reply == ReplyView::Device(device_id)
    } else {
        reply is Done
    }
}

/// The calls of such a transfer.
pub open spec fn faultless_call(
    jobs: Seq<CopyJob>,
    upload: bool,
    context: u64,
    i: int,
) -> DriverCall {
    let n = jobs.len() as int;
    if i == 0 {
        DriverCall::PointerContext { address: jobs[0].device }
    } else if i == 1 {
        DriverCall::PushContext { context }
    } else if i == 2 {
        DriverCall::CurrentDevice
    } else if i == 3 {
        DriverCall::SynchronizeContext
    } else if i < 4 + 2 * n {
        let job = jobs[(i - 4) / 2];
        if i % 2 == 0 {
            DriverCall::PointerContext { address: job.device }
        } else if upload {
            DriverCall::Upload { host: job.host, device: job.device, bytes: job.bytes }
        } else {
            DriverCall::Download { host: job.host, device: job.device, bytes: job.bytes }
        }
    } else if i == 4 + 2 * n {
        DriverCall::SynchronizeStream
    } else {
        DriverCall::PopContext
    }
}

/// How many calls a faultless transfer has made.
pub open spec fn calls_made(transfer: TransferView) -> int {
    match transfer.phase {
        Phase::Lookup => 0,
        Phase::Push => 1,
        Phase::Device => 2,
        Phase::Synchronize => 3,
        Phase::Confirm => 4 + 2 * transfer.at,
        Phase::Copy => 5 + 2 * transfer.at,
        Phase::Settle => 4 + 2 * transfer.jobs.len() as int,
        Phase::Restore => 5 + 2 * transfer.jobs.len() as int,
        Phase::Finished => 6 + 2 * transfer.jobs.len() as int,
    }
}

/// A transfer without a fault so far has made its calls in one order: it asks for the
/// context of the first tensor, pushes it, asks for its device, waits once for earlier
/// work, then for each copy asks for the tensor's context and queues the copy, in the
/// direction of the transfer and between the copy's addresses, and at last waits for the
/// copies and restores the context. Every reply was the faultless one, so that at the
/// end all copies were made on the device and in the one context.
pub proof fn law_calls_come_in_order(
    jobs: Seq<CopyJob>,
    device_id: i32,
    upload: bool,
    replies: Seq<ReplyView>,
)
    requires
        jobs.len() > 0,
        TransferView::started(jobs, device_id, upload).answered(replies),
        TransferView::started(jobs, device_id, upload).after(replies).fault is None,
    ensures
        ({
            let start = TransferView::started(jobs, device_id, upload);
            let end = start.after(replies);
            let n = jobs.len() as int;
            &&& end.wf()
            &&& replies.len() == calls_made(end)
            &&& end.jobs == jobs && end.device_id == device_id && end.upload == upload
            &&& replies.len() > 0 ==> end.context != 0
            &&& forall|i: int|
                0 <= i < replies.len() ==> is_faultless(
                    #[trigger] replies[i],
                    i,
                    n,
                    device_id,
                    end.context,
                )
            &&& replies.len() == 6 + 2 * n <==> end.phase == Phase::Finished
            &&& end.phase != Phase::Finished ==> end.call() == faultless_call(
                jobs,
                upload,
                end.context,
                replies.len() as int,
            )
        }),
    decreases replies.len(),
{
    let start = TransferView::started(jobs, device_id, upload);
    let end = start.after(replies);
    if replies.len() > 0 {
        let front = replies.drop_last();
        let before = start.after(front);
        let last = replies.last();
        if before.fault is Some {
            law_first_fault_is_kept(before, last);
        }
        law_calls_come_in_order(jobs, device_id, upload, front);
        law_unexpected_replies_are_faults(before, last);
        law_transfers_end(before, last);
        assert forall|i: int| 0 <= i < replies.len() implies is_faultless(
            #[trigger] replies[i],
            i,
            jobs.len() as int,
            device_id,
            end.context,
        ) by {
            if i < front.len() {
                assert(front[i] == replies[i]);
                assert(is_faultless(front[i], i, jobs.len() as int, device_id, before.context));
            } else {
                assert(replies[i] == last);
            }
        }
    }
}

/// Nothing to copy needs no call, and a transfer starts without a fault.
pub proof fn law_empty_batches_make_no_calls(jobs: Seq<CopyJob>, device_id: i32, upload: bool)
    ensures
        ({
            let start = TransferView::started(jobs, device_id, upload);
            &&& start.phase == Phase::Finished <==> jobs.len() == 0
            &&& start.fault is None
            &&& start.jobs == jobs
            &&& start.at == 0
            &&& start.device_id == device_id
            &&& start.upload == upload
        }),
{
}

/// A failed call is reported under the name of the driver's function.
pub proof fn law_calls_are_named(call: DriverCall)
    ensures
        match call {
            DriverCall::Upload { .. } => call.operation() == "cuMemcpyHtoDAsync"@,
            DriverCall::Download { .. } => call.operation() == "cuMemcpyDtoHAsync"@,
            DriverCall::PointerContext { .. } => call.operation()
                == "cuPointerGetAttribute(CONTEXT)"@,
            DriverCall::PushContext { .. } => call.operation() == "cuCtxPushCurrent"@,
            DriverCall::PopContext => call.operation() == "cuCtxPopCurrent"@,
            DriverCall::CurrentDevice => call.operation() == "cuCtxGetDevice"@,
            DriverCall::SynchronizeContext => call.operation()
                == "cuCtxSynchronize before copies"@,
            DriverCall::SynchronizeStream => call.operation() == "cuStreamSynchronize copies"@,
        },
{
}

/// A status is a failure exactly when it is not zero. The error names the operation,
/// the driver's word for the status, and its number.
pub proof fn law_statuses_are_explained(operation: Seq<char>, status: i32, name: Option<&str>)
    ensures
        match status_fault(operation, status, name) {
            None => status == 0,
            Some(error) => {
                &&& status != 0
                &&& name matches Some(word) ==> error.report() == operation + ": "@ + word@ + " ("@
                    + signed_decimal(status as int) + ")"@
                &&& name is None ==> error.report() == operation + ": "@ + "unknown CUDA error"@
                    + " ("@ + signed_decimal(status as int) + ")"@
            },
        },
{
    if let Some(error) = status_fault(operation, status, name) {
        assert(error.report() == error.message());
    }
}

// ---------------------------------------------------------------------------
// Views

/// What contracts say of native tensors and replies is what their fields hold.
pub proof fn law_transfer_values_are_seen_as_they_are(
    tensor: NativeTensor,
    reply: Reply,
    pairs: Seq<(NativeTensor, NativeTensor)>,
    count: Result<usize, Error>,
)
    ensures
        pair_views(pairs).len() == pairs.len(),
        forall|i: int|
            0 <= i < pairs.len() ==> (#[trigger] pair_views(pairs)[i]).0 == pairs[i].0@
                && pair_views(pairs)[i].1 == pairs[i].1@,
        match count {
            Ok(n) => count_result(count) == Ok::<nat, ErrorView>(n as nat),
            Err(error) => count_result(count) == Err::<nat, ErrorView>(error@),
        },
        tensor@.element_type == tensor.element_type,
        tensor@.shape == tensor.shape@,
        tensor@.memory == tensor.memory,
        tensor@.cpu_accessible == tensor.cpu_accessible,
        tensor@.device_id == tensor.device_id,
        tensor@.address == tensor.address,
        match reply {
            Reply::Done => reply@ is Done,
            Reply::Context(context) => reply@ == ReplyView::Context(context),
            Reply::Device(device) => reply@ == ReplyView::Device(device),
            Reply::Failed(error) => reply@ == ReplyView::Failed(error@),
        },
{
}

} // verus!
