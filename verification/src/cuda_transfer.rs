//! Batched copies between pinned host memory and device memory.
//!
//! A [`Transfer`] says which driver call comes next and is told what came of it. It
//! checks every pair before the first call, makes the context of the device
//! allocations current, waits for earlier work, queues the copies, waits for them
//! even when one failed, and restores the previous context.
use crate::element::ElementType;
use crate::error::{failure, Error, ErrorView, Fault};
use crate::tensor::{lemma_zero_dimension, product};
use crate::text;
use vstd::prelude::*;
use vstd::slice::*;
use vstd::string::*;

verus! {

/// Where a native tensor's storage is.
#[derive(Clone, Copy, Debug, PartialEq, Eq, Structural)]
pub enum MemoryKind {
    /// Pinned host memory.
    CudaPinned,
    /// Device memory.
    Cuda,
    /// Any other memory.
    Other,
}

/// What a copy has to know of a native tensor.
#[derive(Debug)]
pub struct NativeTensor {
    /// Element type.
    pub element_type: ElementType,
    /// Dimensions.
    pub shape: Vec<i64>,
    /// Where the storage is.
    pub memory: MemoryKind,
    /// Whether the CPU can access it.
    pub cpu_accessible: bool,
    /// The device that it belongs to.
    pub device_id: i32,
    /// Its address, 0 where there is none.
    pub address: u64,
}

/// The contents of a [`NativeTensor`].
#[verifier::ext_equal]
pub struct NativeView {
    pub element_type: ElementType,
    pub shape: Seq<i64>,
    pub memory: MemoryKind,
    pub cpu_accessible: bool,
    pub device_id: i32,
    pub address: u64,
}

impl View for NativeTensor {
    type V = NativeView;

    open spec fn view(&self) -> NativeView {
        NativeView {
            element_type: self.element_type,
            shape: self.shape@,
            memory: self.memory,
            cpu_accessible: self.cpu_accessible,
            device_id: self.device_id,
            address: self.address,
        }
    }
}

/// Bytes of a tensor of nonzero dimensions, multiplied up from the first dimension,
/// or the first thing that cannot be counted.
pub open spec fn multiplied(width: nat, shape: Seq<i64>) -> Result<nat, ErrorView>
    decreases shape.len(),
{
    if shape.len() == 0 {
        Ok(width)
    } else {
        match multiplied(width, shape.drop_last()) {
            Err(error) => Err(error),
            Ok(bytes) => if shape.last() > usize::MAX {
                Err(ErrorView::Fault(Fault::DimensionRange))
            } else if bytes * (shape.last() as nat) > usize::MAX {
                Err(ErrorView::Fault(Fault::CopyOverflow))
            } else {
                Ok(bytes * (shape.last() as nat))
            },
        }
    }
}

/// The bytes of a tensor's elements, or why they cannot be copied.
pub open spec fn byte_count(shape: Seq<i64>, element_type: ElementType) -> Result<nat, ErrorView> {
    match element_type.whole_bytes() {
        None => Err(ErrorView::Fault(Fault::CopyType)),
        Some(width) => if exists|i: int| 0 <= i < shape.len() && #[trigger] shape[i] < 0 {
            Err(ErrorView::Fault(Fault::CopyDimension))
        } else if shape.contains(0) {
            Ok(0)
        } else {
            multiplied(width as nat, shape)
        },
    }
}

/// A count over what a function returned.
pub open spec fn count_result(r: Result<usize, Error>) -> Result<nat, ErrorView> {
    match r {
        Ok(n) => Ok(n as nat),
        Err(error) => Err(error@),
    }
}

proof fn lemma_counting_stops(width: nat, shape: Seq<i64>, n: int)
    requires
        0 <= n <= shape.len(),
        multiplied(width, shape.take(n)) is Err,
    ensures
        multiplied(width, shape) == multiplied(width, shape.take(n)),
    decreases shape.len() - n,
{
    if n == shape.len() {
        assert(shape.take(n) =~= shape);
    } else {
        assert(shape.take(n + 1).drop_last() =~= shape.take(n));
        lemma_counting_stops(width, shape, n + 1);
    }
}

/// The bytes of a tensor's elements.
pub fn checked_bytes(shape: &[i64], element_type: ElementType) -> (r: Result<usize, Error>)
    ensures
        count_result(r) == byte_count(shape@, element_type),
{
    let width: usize = match element_type.width() {
        None => {
            return Err(Error::Fault(Fault::CopyType));
        },
        Some(width) => width,
    };
    let rank: usize = shape.len();
    for i in 0..rank
        invariant
            rank == shape@.len(),
            element_type.whole_bytes() is Some,
            forall|j: int| 0 <= j < i ==> #[trigger] shape@[j] >= 0,
    {
        if shape[i] < 0 {
            assert(shape@[i as int] < 0);
            return Err(Error::Fault(Fault::CopyDimension));
        }
    }
    for i in 0..rank
        invariant
            rank == shape@.len(),
            element_type.whole_bytes() is Some,
            forall|j: int| 0 <= j < rank ==> #[trigger] shape@[j] >= 0,
            forall|j: int| 0 <= j < i ==> #[trigger] shape@[j] != 0,
    {
        if shape[i] == 0 {
            assert(shape@[i as int] == 0);
            return Ok(0);
        }
    }
    let mut bytes: usize = width;
    assert(shape@.take(0) =~= Seq::<i64>::empty());
    for i in 0..rank
        invariant
            rank == shape@.len(),
            element_type.whole_bytes() == Some(width),
            forall|j: int| 0 <= j < rank ==> #[trigger] shape@[j] > 0,
            multiplied(width as nat, shape@.take(i as int)) == Ok::<nat, ErrorView>(bytes as nat),
    {
        proof {
            assert(shape@.take(i + 1).drop_last() =~= shape@.take(i as int));
            assert(shape@[i as int] > 0);
        }
        let dimension: u64 = shape[i] as u64;
        if dimension > usize::MAX as u64 {
            proof {
                lemma_counting_stops(width as nat, shape@, i + 1);
            }
            return Err(Error::Fault(Fault::DimensionRange));
        }
        match bytes.checked_mul(dimension as usize) {
            Some(next) => {
                bytes = next;
            },
            None => {
                proof {
                    lemma_counting_stops(width as nat, shape@, i + 1);
                }
                return Err(Error::Fault(Fault::CopyOverflow));
            },
        }
    }
    assert(shape@.take(shape@.len() as int) =~= shape@);
    Ok(bytes)
}

/// Why one tensor cannot be copied to another, or the bytes to copy.
pub open spec fn pair_bytes(
    source: NativeView,
    target: NativeView,
    device_id: i32,
    upload: bool,
) -> Result<nat, ErrorView> {
    let (host, device) = if upload {
        (source, target)
    } else {
        (target, source)
    };
    if source.element_type != target.element_type || source.shape != target.shape {
        Err(ErrorView::Fault(Fault::CopyMismatch))
    } else {
        match byte_count(source.shape, source.element_type) {
            Err(error) => Err(error),
            Ok(bytes) => if !host.cpu_accessible || host.memory != MemoryKind::CudaPinned {
                Err(ErrorView::Fault(Fault::CopyHost))
            } else if device.memory != MemoryKind::Cuda || device.device_id != device_id {
                Err(ErrorView::Fault(Fault::CopyDevice))
            } else if bytes != 0 && (source.address == 0 || target.address == 0) {
                Err(ErrorView::Fault(Fault::CopyNull))
            } else {
                Ok(bytes)
            },
        }
    }
}

fn same_shape(a: &Vec<i64>, b: &Vec<i64>) -> (r: bool)
    ensures
        r == (a@ == b@),
{
    if a.len() != b.len() {
        return false;
    }
    for i in 0..a.len()
        invariant
            a@.len() == b@.len(),
            forall|j: int| 0 <= j < i ==> a@[j] == b@[j],
    {
        if a[i] != b[i] {
            return false;
        }
    }
    assert(a@ =~= b@);
    true
}

/// Check a pair of tensors and count the bytes to copy.
pub fn validate(
    source: &NativeTensor,
    target: &NativeTensor,
    device_id: i32,
    upload: bool,
) -> (r: Result<usize, Error>)
    ensures
        count_result(r) == pair_bytes(source@, target@, device_id, upload),
{
    if source.element_type != target.element_type || !same_shape(&source.shape, &target.shape) {
        return Err(Error::Fault(Fault::CopyMismatch));
    }
    let bytes = match checked_bytes(source.shape.as_slice(), source.element_type) {
        Err(error) => {
            return Err(error);
        },
        Ok(bytes) => bytes,
    };
    let (host, device) = if upload {
        (source, target)
    } else {
        (target, source)
    };
    if !host.cpu_accessible || host.memory != MemoryKind::CudaPinned {
        return Err(Error::Fault(Fault::CopyHost));
    }
    if device.memory != MemoryKind::Cuda || device.device_id != device_id {
        return Err(Error::Fault(Fault::CopyDevice));
    }
    if bytes != 0 && (source.address == 0 || target.address == 0) {
        return Err(Error::Fault(Fault::CopyNull));
    }
    Ok(bytes)
}

/// Where a transfer stands: which driver call comes next.
#[derive(Clone, Copy, Debug, PartialEq, Eq, Structural)]
pub enum Phase {
    /// Ask for the context that owns the first device buffer.
    Lookup,
    /// Make it current.
    Push,
    /// Ask for its device.
    Device,
    /// Wait for earlier work in it.
    Synchronize,
    /// Ask for the context that owns the next device buffer.
    Confirm,
    /// Queue the next copy.
    Copy,
    /// Wait for the queued copies.
    Settle,
    /// Restore the previous context.
    Restore,
    /// Nothing is left to do.
    Finished,
}

/// A call of the CUDA driver.
#[derive(Clone, Copy, Debug, PartialEq, Eq, Structural)]
pub enum DriverCall {
    /// The context that owns a device address.
    PointerContext {
        /// The address.
        address: u64,
    },
    /// Make a context current.
    PushContext {
        /// The context.
        context: u64,
    },
    /// The device of the current context.
    CurrentDevice,
    /// Wait for all work in the current context.
    SynchronizeContext,
    /// Queue a copy from host to device.
    Upload {
        /// Host address.
        host: u64,
        /// Device address.
        device: u64,
        /// Bytes.
        bytes: usize,
    },
    /// Queue a copy from device to host.
    Download {
        /// Host address.
        host: u64,
        /// Device address.
        device: u64,
        /// Bytes.
        bytes: usize,
    },
    /// Wait for the queued copies.
    SynchronizeStream,
    /// Restore the context that was current before.
    PopContext,
}

impl DriverCall {
    /// The call as it reads in messages.
    pub open spec fn operation(self) -> Seq<char> {
        match self {
            DriverCall::PointerContext { .. } => "cuPointerGetAttribute(CONTEXT)"@,
            DriverCall::PushContext { .. } => "cuCtxPushCurrent"@,
            DriverCall::CurrentDevice => "cuCtxGetDevice"@,
            DriverCall::SynchronizeContext => "cuCtxSynchronize before copies"@,
            DriverCall::Upload { .. } => "cuMemcpyHtoDAsync"@,
            DriverCall::Download { .. } => "cuMemcpyDtoHAsync"@,
            DriverCall::SynchronizeStream => "cuStreamSynchronize copies"@,
            DriverCall::PopContext => "cuCtxPopCurrent"@,
        }
    }

    fn operation_text(self) -> (r: &'static str)
        ensures
            r@ == self.operation(),
    {
        match self {
            DriverCall::PointerContext { .. } => "cuPointerGetAttribute(CONTEXT)",
            DriverCall::PushContext { .. } => "cuCtxPushCurrent",
            DriverCall::CurrentDevice => "cuCtxGetDevice",
            DriverCall::SynchronizeContext => "cuCtxSynchronize before copies",
            DriverCall::Upload { .. } => "cuMemcpyHtoDAsync",
            DriverCall::Download { .. } => "cuMemcpyDtoHAsync",
            DriverCall::SynchronizeStream => "cuStreamSynchronize copies",
            DriverCall::PopContext => "cuCtxPopCurrent",
        }
    }
}

/// The message of a driver call that returned a status other than zero.
pub open spec fn driver_message(
    operation: Seq<char>,
    name: Option<Seq<char>>,
    status: i32,
) -> Seq<char> {
    operation + ": "@ + (match name {
        Some(name) => name,
        None => "unknown CUDA error"@,
    }) + " ("@ + text::signed_decimal(status as int) + ")"@
}

/// The failure that a driver's status stands for.
pub open spec fn status_fault(operation: Seq<char>, status: i32, name: Option<&str>) -> Option<
    ErrorView,
> {
    if status == 0 {
        None
    } else {
        Some(
            ErrorView::External(
                driver_message(
                    operation,
                    match name {
                        None => None,
                        Some(name) => Some(name@),
                    },
                    status,
                ),
            ),
        )
    }
}

/// Check the status of a driver's operation. `name` is the driver's name for the status.
pub fn check(status: i32, operation: &str, name: Option<&str>) -> (r: Result<(), Error>)
    ensures
        failure(r) == status_fault(operation@, status, name),
{
    if status == 0 {
        return Ok(());
    }
    let mut message = text::concat(operation, ": ");
    match name {
        Some(name) => {
            message.append(name);
        },
        None => {
            message.append("unknown CUDA error");
        },
    }
    message.append(" (");
    text::push_signed_decimal(&mut message, status as i64);
    message.append(")");
    Err(Error::External(message))
}

/// Check the status of a call of a transfer.
pub fn check_status(call: DriverCall, status: i32, name: Option<&str>) -> (r: Result<(), Error>)
    ensures
        failure(r) == status_fault(call.operation(), status, name),
{
    check(status, call.operation_text(), name)
}

/// What came of a driver call.
#[derive(Debug)]
pub enum Reply {
    /// It succeeded.
    Done,
    /// It succeeded with a context, 0 where there is none.
    Context(u64),
    /// It succeeded with a device.
    Device(i32),
    /// It failed.
    Failed(Error),
}

/// The contents of a [`Reply`].
pub enum ReplyView {
    Done,
    Context(u64),
    Device(i32),
    Failed(ErrorView),
}

impl View for Reply {
    type V = ReplyView;

    open spec fn view(&self) -> ReplyView {
        match self {
            Reply::Done => ReplyView::Done,
            Reply::Context(context) => ReplyView::Context(*context),
            Reply::Device(device) => ReplyView::Device(*device),
            Reply::Failed(error) => ReplyView::Failed(error@),
        }
    }
}

/// One copy: host and device address, and the bytes.
#[derive(Clone, Copy, Debug, PartialEq, Eq, Structural)]
pub struct CopyJob {
    /// Host address.
    pub host: u64,
    /// Device address.
    pub device: u64,
    /// Bytes, which are not zero.
    pub bytes: usize,
}

/// A batch of copies in progress.
#[derive(Debug)]
pub struct Transfer {
    jobs: Vec<CopyJob>,
    device_id: i32,
    upload: bool,
    context: u64,
    at: usize,
    phase: Phase,
    fault: Option<Error>,
}

/// The contents of a [`Transfer`].
#[verifier::ext_equal]
pub struct TransferView {
    /// The copies, in order. Pairs without bytes need none.
    pub jobs: Seq<CopyJob>,
    /// The device that all device buffers belong to.
    pub device_id: i32,
    /// Whether the copies go to the device.
    pub upload: bool,
    /// The context that was made current.
    pub context: u64,
    /// The number of copies that were queued.
    pub at: int,
    /// Which call comes next.
    pub phase: Phase,
    /// The first thing that went wrong.
    pub fault: Option<ErrorView>,
}

impl View for Transfer {
    type V = TransferView;

    closed spec fn view(&self) -> TransferView {
        TransferView {
            jobs: self.jobs@,
            device_id: self.device_id,
            upload: self.upload,
            context: self.context,
            at: self.at as int,
            phase: self.phase,
            fault: match self.fault {
                None => None,
                Some(error) => Some(error@),
            },
        }
    }
}

/// Whether a reply is one that a phase's call can have.
pub open spec fn answers(phase: Phase, reply: ReplyView) -> bool {
    match phase {
        Phase::Lookup | Phase::Confirm => reply is Context || reply is Failed,
        Phase::Device => reply is Device || reply is Failed,
        Phase::Finished => false,
        _ => reply is Done || reply is Failed,
    }
}

impl TransferView {
    /// Whether the context was made current and not yet restored.
    pub open spec fn pushed(self) -> bool {
        !(self.phase == Phase::Lookup || self.phase == Phase::Push || self.phase
            == Phase::Finished)
    }

    /// While copies are left there is a next one; all are queued before the wait
    /// unless something went wrong; before that nothing has.
    pub open spec fn wf(self) -> bool {
        &&& 0 <= self.at <= self.jobs.len()
        &&& (self.phase == Phase::Lookup || self.phase == Phase::Push || self.phase == Phase::Device
            || self.phase == Phase::Synchronize) ==> self.at == 0 && self.jobs.len() > 0
            && self.fault is None
        &&& (self.phase == Phase::Confirm || self.phase == Phase::Copy) ==> self.at
            < self.jobs.len() && self.fault is None
        &&& (self.phase == Phase::Settle || self.phase == Phase::Restore || self.phase
            == Phase::Finished) && self.fault is None ==> self.at == self.jobs.len()
    }

    /// With another phase.
    pub open spec fn to(self, phase: Phase) -> TransferView {
        TransferView { phase, ..self }
    }

    /// With another phase, after something went wrong. The first fault is kept.
    pub open spec fn failed(self, phase: Phase, error: ErrorView) -> TransferView {
        TransferView {
            phase,
            fault: if self.fault is Some {
                self.fault
            } else {
                Some(error)
            },
            ..self
        }
    }

    /// Towards the next copy, or the wait where none is left.
    pub open spec fn onward(self) -> TransferView {
        self.to(
            if self.at < self.jobs.len() {
                Phase::Confirm
            } else {
                Phase::Settle
            },
        )
    }

    /// The call that comes next.
    pub open spec fn call(self) -> DriverCall {
        let job = self.jobs[self.at];
        match self.phase {
            Phase::Lookup => DriverCall::PointerContext { address: job.device },
            Phase::Push => DriverCall::PushContext { context: self.context },
            Phase::Device => DriverCall::CurrentDevice,
            Phase::Synchronize => DriverCall::SynchronizeContext,
            Phase::Confirm => DriverCall::PointerContext { address: job.device },
            Phase::Copy => if self.upload {
                DriverCall::Upload { host: job.host, device: job.device, bytes: job.bytes }
            } else {
                DriverCall::Download { host: job.host, device: job.device, bytes: job.bytes }
            },
            Phase::Settle => DriverCall::SynchronizeStream,
            _ => DriverCall::PopContext,
        }
    }

    /// After the reply to the call that comes next.
    pub open spec fn next(self, reply: ReplyView) -> TransferView {
        match (self.phase, reply) {
            (Phase::Lookup, ReplyView::Failed(error)) => self.failed(Phase::Finished, error),
            (Phase::Lookup, ReplyView::Context(context)) => if context == 0 {
                self.failed(Phase::Finished, ErrorView::Fault(Fault::CopyContext))
            } else {
                TransferView { context, phase: Phase::Push, ..self }
            },
            (Phase::Push, ReplyView::Failed(error)) => self.failed(Phase::Finished, error),
            (Phase::Push, _) => self.to(Phase::Device),
            (Phase::Device, ReplyView::Failed(error)) => self.failed(Phase::Settle, error),
            (Phase::Device, ReplyView::Device(device)) => if device != self.device_id {
                self.failed(Phase::Settle, ErrorView::Fault(Fault::CopyContextDevice))
            } else {
                self.to(Phase::Synchronize)
            },
            (Phase::Synchronize, ReplyView::Failed(error)) => self.failed(Phase::Settle, error),
            (Phase::Synchronize, _) => self.onward(),
            (Phase::Confirm, ReplyView::Failed(error)) => self.failed(Phase::Settle, error),
            (Phase::Confirm, ReplyView::Context(context)) => if context == 0 {
                self.failed(Phase::Settle, ErrorView::Fault(Fault::CopyContext))
            } else if context != self.context {
                self.failed(Phase::Settle, ErrorView::Fault(Fault::CopyMixed))
            } else {
                self.to(Phase::Copy)
            },
            (Phase::Copy, ReplyView::Failed(error)) => self.failed(Phase::Settle, error),
            (Phase::Copy, _) => (TransferView { at: self.at + 1, ..self }).onward(),
            (Phase::Settle, ReplyView::Failed(error)) => self.failed(Phase::Restore, error),
            (Phase::Settle, _) => self.to(Phase::Restore),
            (Phase::Restore, ReplyView::Failed(error)) => self.failed(Phase::Finished, error),
            (Phase::Restore, _) => self.to(Phase::Finished),
            _ => self,
        }
    }
}

/// The copies for pairs of tensors, up to the first pair that cannot be copied.
pub open spec fn planned(
    pairs: Seq<(NativeView, NativeView)>,
    device_id: i32,
    upload: bool,
) -> Result<Seq<CopyJob>, ErrorView>
    decreases pairs.len(),
{
    if pairs.len() == 0 {
        Ok(Seq::empty())
    } else {
        let (source, target) = pairs.last();
        match planned(pairs.drop_last(), device_id, upload) {
            Err(error) => Err(error),
            Ok(jobs) => match pair_bytes(source, target, device_id, upload) {
                Err(error) => Err(error),
                Ok(bytes) => if bytes == 0 {
                    Ok(jobs)
                } else {
                    Ok(
                        jobs.push(
                            CopyJob {
                                host: if upload {
                                    source.address
                                } else {
                                    target.address
                                },
                                device: if upload {
                                    target.address
                                } else {
                                    source.address
                                },
                                bytes: bytes as usize,
                            },
                        ),
                    )
                },
            },
        }
    }
}

/// The contents of pairs of tensors.
pub open spec fn pair_views(pairs: Seq<(NativeTensor, NativeTensor)>) -> Seq<
    (NativeView, NativeView),
> {
    Seq::new(pairs.len(), |i: int| (pairs[i].0@, pairs[i].1@))
}

proof fn lemma_planning_stops(
    pairs: Seq<(NativeView, NativeView)>,
    device_id: i32,
    upload: bool,
    n: int,
)
    requires
        0 <= n <= pairs.len(),
        planned(pairs.take(n), device_id, upload) is Err,
    ensures
        planned(pairs, device_id, upload) == planned(pairs.take(n), device_id, upload),
    decreases pairs.len() - n,
{
    if n == pairs.len() {
        assert(pairs.take(n) =~= pairs);
    } else {
        assert(pairs.take(n + 1).drop_last() =~= pairs.take(n));
        lemma_planning_stops(pairs, device_id, upload, n + 1);
    }
}

impl TransferView {
    /// The start of a transfer. Without copies it is finished at once.
    pub open spec fn started(jobs: Seq<CopyJob>, device_id: i32, upload: bool) -> TransferView {
        TransferView {
            jobs,
            device_id,
            upload,
            context: 0,
            at: 0,
            phase: if jobs.len() == 0 {
                Phase::Finished
            } else {
                Phase::Lookup
            },
            fault: None,
        }
    }
}

impl Transfer {
    /// Check all pairs of source and target and plan their copies.
    pub fn copy_batch(
        pairs: &Vec<(NativeTensor, NativeTensor)>,
        device_id: i32,
        upload: bool,
    ) -> (r: Result<Transfer, Error>)
        ensures
            match (r, planned(pair_views(pairs@), device_id, upload)) {
                (Ok(transfer), Ok(jobs)) => {
                    &&& transfer@ == TransferView::started(jobs, device_id, upload)
                    &&& transfer@.wf()
                },
                (Err(error), Err(fault)) => error@ == fault,
                _ => false,
            },
    {
        let ghost views = pair_views(pairs@);
        let mut jobs: Vec<CopyJob> = Vec::new();
        assert(views.take(0) =~= Seq::<(NativeView, NativeView)>::empty());
        for i in 0..pairs.len()
            invariant
                views == pair_views(pairs@),
                planned(views.take(i as int), device_id, upload) == Ok::<Seq<CopyJob>, ErrorView>(
                    jobs@,
                ),
        {
            assert(views.take(i + 1).drop_last() =~= views.take(i as int));
            let source = &pairs[i].0;
            let target = &pairs[i].1;
            match validate(source, target, device_id, upload) {
                Err(error) => {
                    proof {
                        lemma_planning_stops(views, device_id, upload, i + 1);
                    }
                    return Err(error);
                },
                Ok(bytes) => {
                    if bytes != 0 {
                        let host = if upload {
                            source.address
                        } else {
                            target.address
                        };
                        let device = if upload {
                            target.address
                        } else {
                            source.address
                        };
                        jobs.push(CopyJob { host, device, bytes });
                    }
                },
            }
        }
        assert(views.take(views.len() as int) =~= views);
        let phase = if jobs.len() == 0 {
            Phase::Finished
        } else {
            Phase::Lookup
        };
        Ok(Transfer { jobs, device_id, upload, context: 0, at: 0, phase, fault: None })
    }

    /// The next call, or `None` where nothing is left to do.
    pub fn next_call(&self) -> (r: Option<DriverCall>)
        requires
            self@.wf(),
        ensures
            r == if self@.phase == Phase::Finished {
                None
            } else {
                Some(self@.call())
            },
    {
        match self.phase {
            Phase::Lookup | Phase::Confirm => Some(
                DriverCall::PointerContext { address: self.jobs[self.at].device },
            ),
            Phase::Push => Some(DriverCall::PushContext { context: self.context }),
            Phase::Device => Some(DriverCall::CurrentDevice),
            Phase::Synchronize => Some(DriverCall::SynchronizeContext),
            Phase::Copy => {
                let job = self.jobs[self.at];
                if self.upload {
                    Some(
                        DriverCall::Upload { host: job.host, device: job.device, bytes: job.bytes },
                    )
                } else {
                    Some(
                        DriverCall::Download {
                            host: job.host,
                            device: job.device,
                            bytes: job.bytes,
                        },
                    )
                }
            },
            Phase::Settle => Some(DriverCall::SynchronizeStream),
            Phase::Restore => Some(DriverCall::PopContext),
            Phase::Finished => None,
        }
    }

    fn record(&mut self, error: Error)
        ensures
            final(self)@ == old(self)@.failed(old(self)@.phase, error@),
    {
        if self.fault.is_none() {
            self.fault = Some(error);
        }
    }

    fn proceed(&mut self)
        requires
            old(self)@.at <= old(self)@.jobs.len(),
        ensures
            final(self)@ == old(self)@.onward(),
    {
        self.phase = if self.at < self.jobs.len() {
            Phase::Confirm
        } else {
            Phase::Settle
        };
    }

    /// Take note of the reply to the next call.
    pub fn advance(&mut self, reply: Reply)
        requires
            old(self)@.wf(),
            answers(old(self)@.phase, reply@),
        ensures
            final(self)@ == old(self)@.next(reply@),
            final(self)@.wf(),
    {
        match reply {
            Reply::Failed(error) => {
                self.record(error);
                self.phase = match self.phase {
                    Phase::Lookup | Phase::Push | Phase::Restore => Phase::Finished,
                    Phase::Settle => Phase::Restore,
                    _ => Phase::Settle,
                };
            },
            Reply::Context(context) => {
                if let Phase::Lookup = self.phase {
                    if context == 0 {
                        self.record(Error::Fault(Fault::CopyContext));
                        self.phase = Phase::Finished;
                    } else {
                        self.context = context;
                        self.phase = Phase::Push;
                    }
                } else if context == 0 {
                    self.record(Error::Fault(Fault::CopyContext));
                    self.phase = Phase::Settle;
                } else if context != self.context {
                    self.record(Error::Fault(Fault::CopyMixed));
                    self.phase = Phase::Settle;
                } else {
                    self.phase = Phase::Copy;
                }
            },
            Reply::Device(device) => {
                if device != self.device_id {
                    self.record(Error::Fault(Fault::CopyContextDevice));
                    self.phase = Phase::Settle;
                } else {
                    self.phase = Phase::Synchronize;
                }
            },
            Reply::Done => {
                match self.phase {
                    Phase::Push => {
                        self.phase = Phase::Device;
                    },
                    Phase::Synchronize => {
                        self.proceed();
                    },
                    Phase::Copy => {
                        if self.at < self.jobs.len() {
                            self.at += 1;
                        }
                        self.proceed();
                    },
                    Phase::Settle => {
                        self.phase = Phase::Restore;
                    },
                    _ => {
                        self.phase = Phase::Finished;
                    },
                }
            },
        }
    }

    /// What is reported of a finished transfer: the first thing that went wrong.
    pub fn finish(self) -> (r: Result<(), Error>)
        requires
            self@.phase == Phase::Finished,
        ensures
            failure(r) == self@.fault,
    {
        match self.fault {
            Some(error) => Err(error),
            None => Ok(()),
        }
    }
}

/// A byte count is the exact product of the element width and the dimensions, and
/// counting fails exactly when that product is too large.
pub proof fn law_byte_counts_are_exact(shape: Seq<i64>, element_type: ElementType)
    requires
        element_type.whole_bytes() is Some,
        forall|i: int| 0 <= i < shape.len() ==> 0 <= #[trigger] shape[i] <= usize::MAX,
    ensures
        ({
            let bytes = element_type.whole_bytes()->0 * product(
                Seq::new(shape.len(), |i: int| shape[i] as usize),
            );
            byte_count(shape, element_type) == if bytes <= usize::MAX {
                Ok::<nat, ErrorView>(bytes as nat)
            } else {
                Err::<nat, ErrorView>(ErrorView::Fault(Fault::CopyOverflow))
            }
        }),
{
    let width = element_type.whole_bytes()->0 as nat;
    let sizes = Seq::new(shape.len(), |i: int| shape[i] as usize);
    if shape.contains(0) {
        let at = choose|i: int| 0 <= i < shape.len() && shape[i] == 0;
        assert(sizes[at] == 0);
        lemma_zero_dimension(sizes, at);
        assert(width * 0 == 0) by (nonlinear_arith);
    } else {
        assert forall|i: int| 0 <= i < shape.len() implies #[trigger] shape[i] > 0 by {
            assert(shape.contains(shape[i]));
        }
        lemma_multiplied(width, shape);
    }
}

proof fn lemma_multiplied(width: nat, shape: Seq<i64>)
    requires
        0 < width <= usize::MAX,
        forall|i: int| 0 <= i < shape.len() ==> 0 < #[trigger] shape[i] <= usize::MAX,
    ensures
        ({
            let bytes = width * product(Seq::new(shape.len(), |i: int| shape[i] as usize));
            &&& bytes > 0
            &&& multiplied(width, shape) == if bytes <= usize::MAX {
                Ok::<nat, ErrorView>(bytes as nat)
            } else {
                Err::<nat, ErrorView>(ErrorView::Fault(Fault::CopyOverflow))
            }
        }),
    decreases shape.len(),
{
    let sizes = Seq::new(shape.len(), |i: int| shape[i] as usize);
    if shape.len() == 0 {
        assert(product(sizes) == 1);
        assert(width * 1 == width) by (nonlinear_arith);
    } else {
        let front = shape.drop_last();
        assert forall|i: int| 0 <= i < front.len() implies 0 < #[trigger] front[i]
            <= usize::MAX by {
            assert(front[i] == shape[i]);
        }
        lemma_multiplied(width, front);
        let front_sizes = Seq::new(front.len(), |i: int| front[i] as usize);
        assert(sizes.drop_last() =~= front_sizes);
        assert(shape.last() == shape[shape.len() - 1]);
        let left = product(front_sizes);
        let right = shape.last() as nat;
        assert(sizes.last() as nat == right);
        assert(width * (left * right) == (width * left) * right) by (nonlinear_arith);
        assert((width * left) * right >= width * left) by (nonlinear_arith)
            requires
                right >= 1,
        ;
    }
}

impl TransferView {
    /// An upper bound for the calls that are left.
    pub open spec fn calls_left(self) -> nat {
        let copies = 2 * (self.jobs.len() - self.at) as nat;
        match self.phase {
            Phase::Lookup => copies + 6,
            Phase::Push => copies + 5,
            Phase::Device => copies + 4,
            Phase::Synchronize => copies + 3,
            Phase::Confirm => copies + 2,
            Phase::Copy => copies + 1,
            Phase::Settle => 2,
            Phase::Restore => 1,
            Phase::Finished => 0,
        }
    }

    /// After a sequence of replies.
    pub open spec fn after(self, replies: Seq<ReplyView>) -> TransferView
        decreases replies.len(),
    {
        if replies.len() == 0 {
            self
        } else {
            self.after(replies.drop_last()).next(replies.last())
        }
    }

    /// Whether each reply answers the call that it follows.
    pub open spec fn answered(self, replies: Seq<ReplyView>) -> bool
        decreases replies.len(),
    {
        replies.len() > 0 ==> {
            &&& self.answered(replies.drop_last())
            &&& answers(self.after(replies.drop_last()).phase, replies.last())
        }
    }

    /// How often a context was made current.
    pub open spec fn pushes(self, replies: Seq<ReplyView>) -> nat
        decreases replies.len(),
    {
        if replies.len() == 0 {
            0
        } else {
            let earlier = self.pushes(replies.drop_last());
            if self.after(replies.drop_last()).phase == Phase::Push && replies.last() is Done {
                earlier + 1
            } else {
                earlier
            }
        }
    }

    /// How often the previous context was restored.
    pub open spec fn pops(self, replies: Seq<ReplyView>) -> nat
        decreases replies.len(),
    {
        if replies.len() == 0 {
            0
        } else {
            let earlier = self.pops(replies.drop_last());
            if self.after(replies.drop_last()).phase == Phase::Restore {
                earlier + 1
            } else {
                earlier
            }
        }
    }

    /// The copies that were queued, in order.
    pub open spec fn queued(self, replies: Seq<ReplyView>) -> Seq<CopyJob>
        decreases replies.len(),
    {
        if replies.len() == 0 {
            Seq::empty()
        } else {
            let earlier = self.queued(replies.drop_last());
            let before = self.after(replies.drop_last());
            if before.phase == Phase::Copy && replies.last() is Done {
                earlier.push(before.jobs[before.at])
            } else {
                earlier
            }
        }
    }
}

/// Whatever the driver replies, every reply brings a transfer closer to its end.
pub proof fn law_transfers_end(transfer: TransferView, reply: ReplyView)
    requires
        transfer.wf(),
        answers(transfer.phase, reply),
    ensures
        transfer.next(reply).wf(),
        transfer.next(reply).calls_left() < transfer.calls_left(),
{
}

/// Whatever the driver replies, a context that was made current is restored: in a
/// finished transfer there are as many restorations as there were contexts made
/// current, at most one.
pub proof fn law_contexts_are_balanced(
    jobs: Seq<CopyJob>,
    device_id: i32,
    upload: bool,
    replies: Seq<ReplyView>,
)
    requires
        TransferView::started(jobs, device_id, upload).answered(replies),
    ensures
        ({
            let start = TransferView::started(jobs, device_id, upload);
            let end = start.after(replies);
            &&& start.pushes(replies) == start.pops(replies) + if end.pushed() {
                1nat
            } else {
                0nat
            }
            &&& start.pushes(replies) <= 1
            &&& start.pushes(replies) == 1 ==> !(end.phase == Phase::Lookup || end.phase
                == Phase::Push)
        }),
    decreases replies.len(),
{
    if replies.len() > 0 {
        law_contexts_are_balanced(jobs, device_id, upload, replies.drop_last());
    }
}

/// Copies are never left in flight: after the context was made current a transfer
/// always waits for the stream before it restores the context and ends.
pub proof fn law_copies_are_waited_for(transfer: TransferView, reply: ReplyView)
    requires
        transfer.wf(),
        transfer.pushed(),
        answers(transfer.phase, reply),
    ensures
        transfer.next(reply).phase == Phase::Finished <==> transfer.phase == Phase::Restore,
        transfer.next(reply).phase == Phase::Restore <==> transfer.phase == Phase::Settle,
{
}

/// The first thing that goes wrong is what is reported, whatever goes wrong later.
pub proof fn law_first_fault_is_kept(transfer: TransferView, reply: ReplyView)
    requires
        transfer.fault is Some,
    ensures
        transfer.next(reply).fault == transfer.fault,
{
}

/// A transfer that ends without a fault has queued every copy exactly once, in
/// order; one that fails has queued the first few of them.
pub proof fn law_all_copies_are_queued(
    jobs: Seq<CopyJob>,
    device_id: i32,
    upload: bool,
    replies: Seq<ReplyView>,
)
    requires
        TransferView::started(jobs, device_id, upload).answered(replies),
    ensures
        ({
            let start = TransferView::started(jobs, device_id, upload);
            let end = start.after(replies);
            &&& end.wf()
            &&& end.jobs == jobs
            &&& start.queued(replies) == jobs.take(end.at)
            &&& end.phase == Phase::Finished && end.fault is None ==> start.queued(replies) == jobs
        }),
    decreases replies.len(),
{
    let start = TransferView::started(jobs, device_id, upload);
    if replies.len() > 0 {
        law_all_copies_are_queued(jobs, device_id, upload, replies.drop_last());
        let before = start.after(replies.drop_last());
        if before.phase == Phase::Copy && replies.last() is Done {
            assert(jobs.take(before.at).push(jobs[before.at]) =~= jobs.take(before.at + 1));
        }
    } else {
        assert(jobs.take(0) =~= Seq::<CopyJob>::empty());
    }
    let end = start.after(replies);
    assert(jobs.take(jobs.len() as int) =~= jobs);
}

} // verus!
