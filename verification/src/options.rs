//! Backend selection, compilation, and inference configuration.
use crate::error::{failure, Error, ErrorView, Fault};
use crate::text::{first_index, lemma_first_index, lemma_precedes_is_an_order, precedes, same, sorts_before};
use vstd::prelude::*;
use vstd::string::*;

verus! {

/// `core::slice::from_ref`: a slice that holds exactly the referenced value.
pub assume_specification<T>[ core::slice::from_ref::<T> ](s: &T) -> (r: &[T])
    ensures
        r@ == seq![*s],
;

/// The platforms whose defaults differ.
#[derive(Clone, Copy, Debug, PartialEq, Eq, Structural)]
pub enum Platform {
    /// macOS, with CoreML.
    MacOs,
    /// Linux or Windows, with CUDA.
    Cuda,
    /// Any other platform.
    Other,
}

/// A path or an environment value of the host, which need not be Unicode.
#[derive(Debug)]
pub enum HostText {
    /// Unicode text.
    Unicode(String),
    /// Other, nonempty text, which the caller keeps under this number.
    Other(usize),
}

impl Clone for HostText {
    fn clone(&self) -> (r: Self)
        ensures
            r == *self,
    {
        match self {
            HostText::Unicode(text) => HostText::Unicode(text.clone()),
            HostText::Other(id) => HostText::Other(*id),
        }
    }
}

/// What a configured provider of ONNX Runtime is.
#[derive(Clone, Copy, Debug, PartialEq, Eq, Structural)]
pub enum ProviderKind {
    /// The CUDA provider.
    Cuda,
    /// The TensorRT provider.
    TensorRt,
    /// The CPU provider.
    Cpu,
    /// Any other provider.
    Other,
}

/// A configured provider, which the caller keeps under a number.
#[derive(Clone, Copy, Debug, PartialEq, Eq, Structural)]
pub struct CustomProvider {
    /// What the provider is.
    pub kind: ProviderKind,
    /// The caller's number for it.
    pub id: usize,
}

/// An installed ONNX Runtime execution provider.
#[derive(Debug)]
pub enum Backend {
    /// NVIDIA TensorRT execution provider.
    TensorRt,
    /// NVIDIA CUDA execution provider.
    Cuda,
    /// Apple CoreML execution provider (macOS only).
    CoreMl,
    /// ONNX Runtime's CPU execution provider.
    Cpu,
    /// Configure an additional ORT provider without adding its native dependencies.
    /// CUDA/TensorRT dispatches are rejected: use the built-in variants and typed
    /// options so the engine can own streams and coordinate graph capture.
    /// Custom implementations must not register CUDA/TensorRT indirectly.
    Custom {
        /// Display name used in backend reports and fallback events.
        name: String,
        /// Configured provider to register with ONNX Runtime.
        provider: CustomProvider,
    },
}

impl Clone for Backend {
    fn clone(&self) -> (r: Self)
        ensures
            r == *self,
    {
        match self {
            Backend::TensorRt => Backend::TensorRt,
            Backend::Cuda => Backend::Cuda,
            Backend::CoreMl => Backend::CoreMl,
            Backend::Cpu => Backend::Cpu,
            Backend::Custom { name, provider } => Backend::Custom {
                name: name.clone(),
                provider: *provider,
            },
        }
    }
}

impl Backend {
    /// Display name used in backend reports and fallback events.
    pub open spec fn label(self) -> Seq<char> {
        match self {
            Backend::TensorRt => "TensorRT"@,
            Backend::Cuda => "CUDA"@,
            Backend::CoreMl => "CoreML"@,
            Backend::Cpu => "CPU"@,
            Backend::Custom { name, provider } => name@,
        }
    }

    /// Display name used in backend reports and fallback events.
    pub fn name(&self) -> (r: &str)
        ensures
            r@ == self.label(),
    {
        match self {
            Backend::TensorRt => "TensorRT",
            Backend::Cuda => "CUDA",
            Backend::CoreMl => "CoreML",
            Backend::Cpu => "CPU",
            Backend::Custom { name, provider } => name.as_str(),
        }
    }
}

/// Build and execution options used only by TensorRT.
#[derive(Debug)]
pub struct TensorRtOptions {
    /// GPU ordinal, default 0.
    pub device_id: i32,
    /// Allow FP16 computations internally; does not change model I/O types. Default false.
    pub fp16: bool,
    /// Allow TF32 for TensorRT FP32 operations (default true).
    /// The process-wide NVIDIA_TF32_OVERRIDE must be unset for true, or 0 for false.
    pub tf32: bool,
    /// Enable CUDA graphs for fixed-shape tensor I/O with sequential execution.
    /// Defaults true. Effective only with strict GPU placement or a compiled
    /// EPContext; automatic placement, dynamic I/O and parallel execution disable it.
    /// Each session owns a stream. Setup, first-run capture and teardown are
    /// coordinated; subsequent sessions can replay concurrently.
    pub cuda_graph: bool,
    /// Maximum builder workspace in bytes, default 4 GiB on 64-bit targets.
    pub workspace_bytes: usize,
    /// Builder optimization level from 0 through 5, default 3.
    pub builder_optimization_level: u8,
    /// Maximum auxiliary streams; -1 lets TensorRT choose (the default).
    pub auxiliary_streams: i8,
    /// Allow sparse weights where supported, default true.
    pub sparsity: bool,
    /// ORT syntax, e.g. `images:1x3x640x640`. Set all three for dynamic models.
    pub min_shapes: Option<String>,
    /// Preferred dynamic shapes, in the same ORT syntax as [`Self::min_shapes`].
    pub opt_shapes: Option<String>,
    /// Maximum dynamic shapes, in the same ORT syntax as [`Self::min_shapes`].
    pub max_shapes: Option<String>,
}

/// Four binary gigabytes, or all that can be addressed where that is less.
pub open spec fn default_workspace() -> usize {
    if 0x1_0000_0000 <= usize::MAX {
        0x1_0000_0000int as usize
    } else {
        usize::MAX
    }
}

impl TensorRtOptions {
    /// The default options.
    pub open spec fn defaults() -> TensorRtOptions {
        TensorRtOptions {
            device_id: 0,
            fp16: false,
            tf32: true,
            cuda_graph: true,
            workspace_bytes: default_workspace(),
            builder_optimization_level: 3,
            auxiliary_streams: (-1) as i8,
            sparsity: true,
            min_shapes: None,
            opt_shapes: None,
            max_shapes: None,
        }
    }

    /// The first thing that is wrong with the options.
    pub open spec fn fault(self) -> Option<ErrorView> {
        if self.device_id < 0 {
            Some(ErrorView::Fault(Fault::NegativeTensorRtDevice))
        } else if self.builder_optimization_level > 5 {
            Some(ErrorView::Fault(Fault::BuildLevel))
        } else if self.workspace_bytes == 0 {
            Some(ErrorView::Fault(Fault::Workspace))
        } else if self.auxiliary_streams < -1 {
            Some(ErrorView::Fault(Fault::AuxiliaryStreams))
        } else if !(self.min_shapes is Some == self.opt_shapes is Some && self.opt_shapes is Some
            == self.max_shapes is Some) {
            Some(ErrorView::Fault(Fault::Profiles))
        } else {
            None
        }
    }

    /// Checked only when TensorRT is selected, so unrelated settings cannot block CPU/CUDA.
    pub fn validate(&self) -> (r: Result<(), Error>)
        ensures
            failure(r) == self.fault(),
    {
        if self.device_id < 0 {
            return Err(Error::Fault(Fault::NegativeTensorRtDevice));
        }
        if self.builder_optimization_level > 5 {
            return Err(Error::Fault(Fault::BuildLevel));
        }
        if self.workspace_bytes == 0 {
            return Err(Error::Fault(Fault::Workspace));
        }
        if self.auxiliary_streams < -1 {
            return Err(Error::Fault(Fault::AuxiliaryStreams));
        }
        if self.min_shapes.is_some() != self.opt_shapes.is_some() || self.opt_shapes.is_some()
            != self.max_shapes.is_some() {
            return Err(Error::Fault(Fault::Profiles));
        }
        Ok(())
    }
}

impl Default for TensorRtOptions {
    fn default() -> (r: Self)
        ensures
            r == TensorRtOptions::defaults(),
    {
        let wanted: u64 = 0x1_0000_0000;
        TensorRtOptions {
            device_id: 0,
            fp16: false,
            tf32: true,
            cuda_graph: true,
            workspace_bytes: if wanted <= usize::MAX as u64 {
                wanted as usize
            } else {
                usize::MAX
            },
            builder_optimization_level: 3,
            auxiliary_streams: -1,
            sparsity: true,
            min_shapes: None,
            opt_shapes: None,
            max_shapes: None,
        }
    }
}

fn clone_text(text: &Option<String>) -> (r: Option<String>)
    ensures
        r == *text,
{
    match text {
        None => None,
        Some(s) => Some(s.clone()),
    }
}

impl Clone for TensorRtOptions {
    fn clone(&self) -> (r: Self)
        ensures
            r == *self,
    {
        TensorRtOptions {
            device_id: self.device_id,
            fp16: self.fp16,
            tf32: self.tf32,
            cuda_graph: self.cuda_graph,
            workspace_bytes: self.workspace_bytes,
            builder_optimization_level: self.builder_optimization_level,
            auxiliary_streams: self.auxiliary_streams,
            sparsity: self.sparsity,
            min_shapes: clone_text(&self.min_shapes),
            opt_shapes: clone_text(&self.opt_shapes),
            max_shapes: clone_text(&self.max_shapes),
        }
    }
}

/// Options used only by the built-in CUDA execution provider.
#[derive(Clone, Copy, Debug)]
pub struct CudaOptions {
    /// GPU ordinal, default 0.
    pub device_id: i32,
    /// Allow TF32 for CUDA FP32 operations, default true.
    pub tf32: bool,
    /// Capture and replay fixed-shape models through persistent I/O bindings.
    /// Defaults true. Requires fixed positive I/O, sequential execution and strict
    /// GPU placement (or a compiled EPContext). Automatic placement disables it.
    /// Independent sessions can replay concurrently on their own streams;
    /// see [`TensorRtOptions::cuda_graph`] for capture coordination.
    pub cuda_graph: bool,
}

impl CudaOptions {
    /// The default options.
    pub open spec fn defaults() -> CudaOptions {
        CudaOptions { device_id: 0, tf32: true, cuda_graph: true }
    }

    /// The first thing that is wrong with the options.
    pub open spec fn fault(self) -> Option<ErrorView> {
        if self.device_id < 0 {
            Some(ErrorView::Fault(Fault::NegativeCudaDevice))
        } else {
            None
        }
    }

    /// Checked only when CUDA is selected.
    pub fn validate(&self) -> (r: Result<(), Error>)
        ensures
            failure(r) == self.fault(),
    {
        if self.device_id < 0 {
            return Err(Error::Fault(Fault::NegativeCudaDevice));
        }
        Ok(())
    }
}

impl Default for CudaOptions {
    fn default() -> (r: Self)
        ensures
            r == CudaOptions::defaults(),
    {
        CudaOptions { device_id: 0, tf32: true, cuda_graph: true }
    }
}

/// Sizes for symbolic dimensions, each name at most once, in the order of the names.
#[derive(Debug)]
pub struct DimensionOverrides {
    entries: Vec<(String, usize)>,
}

spec fn entry_names(entries: Seq<(String, usize)>) -> Seq<Seq<char>> {
    Seq::new(entries.len(), |i: int| entries[i].0@)
}

spec fn ascending(names: Seq<Seq<char>>) -> bool {
    forall|i: int, j: int|
        0 <= i < j < names.len() ==> precedes(#[trigger] names[i], #[trigger] names[j])
}

/// Where an entry stands after one was inserted at `at`.
spec fn moved(place: Option<int>, at: int) -> Option<int> {
    match place {
        None => None,
        Some(i) => Some(
            if i < at {
                i
            } else {
                i + 1
            },
        ),
    }
}

impl View for DimensionOverrides {
    type V = Map<Seq<char>, usize>;

    closed spec fn view(&self) -> Map<Seq<char>, usize> {
        Map::new(
            |name: Seq<char>| first_index(entry_names(self.entries@), name, 0) is Some,
            |name: Seq<char>|
                self.entries@[first_index(entry_names(self.entries@), name, 0)->0].1,
        )
    }
}

impl DimensionOverrides {
    /// The entries stand in strictly ascending order of their names.
    pub closed spec fn wf(self) -> bool {
        ascending(entry_names(self.entries@))
    }

    /// No overrides.
    pub fn new() -> (r: Self)
        ensures
            r.wf(),
            r@ == Map::<Seq<char>, usize>::empty(),
    {
        let r = DimensionOverrides { entries: Vec::new() };
        assert(r@ =~= Map::<Seq<char>, usize>::empty());
        r
    }

    /// The size for a dimension, if it is overridden.
    pub fn get(&self, name: &str) -> (r: Option<usize>)
        ensures
            r == if self@.contains_key(name@) {
                Some(self@[name@])
            } else {
                None
            },
    {
        let ghost names = entry_names(self.entries@);
        for i in 0..self.entries.len()
            invariant
                names == entry_names(self.entries@),
                first_index(names, name@, 0) == first_index(names, name@, i as int),
        {
            if same(self.entries[i].0.as_str(), name) {
                return Some(self.entries[i].1);
            }
        }
        None
    }

    /// Override a dimension; returns the size that it had been given before.
    pub fn insert(&mut self, name: String, size: usize) -> (r: Option<usize>)
        requires
            old(self).wf(),
        ensures
            final(self).wf(),
            final(self)@ == old(self)@.insert(name@, size),
            r == if old(self)@.contains_key(name@) {
                Some(old(self)@[name@])
            } else {
                None
            },
    {
        let ghost start = self.entries@;
        let ghost names = entry_names(start);
        let mut at: usize = 0;
        while at < self.entries.len() && sorts_before(
            self.entries[at].0.as_str(),
            name.as_str(),
        )
            invariant
                self.entries@ == start,
                names == entry_names(start),
                old(self).wf(),
                old(self).entries@ == start,
                at <= start.len(),
                forall|i: int| 0 <= i < at ==> precedes(#[trigger] names[i], name@),
            decreases start.len() - at,
        {
            at += 1;
        }
        proof {
            lemma_first_index(names, name@, 0);
            if at < start.len() {
                lemma_precedes_is_an_order(names[at as int], name@, name@);
            }
        }
        if at < self.entries.len() && same(self.entries[at].0.as_str(), name.as_str()) {
            let previous: usize = self.entries[at].1;
            self.entries[at] = (name, size);
            proof {
                let now = entry_names(self.entries@);
                assert(now =~= names);
                assert(first_index(names, name@, 0) == Some(at as int)) by {
                    assert forall|i: int| 0 <= i < at implies names[i] != name@ by {
                        lemma_precedes_is_an_order(names[i], name@, names[i]);
                    }
                }
                let wanted = old(self)@.insert(name@, size);
                assert(self@.dom() =~= wanted.dom());
                assert forall|k: Seq<char>| self@.contains_key(k) implies #[trigger] self@[k]
                    == wanted[k] by {
                    lemma_first_index(names, k, 0);
                }
                assert(self@ =~= wanted);
            }
            Some(previous)
        } else {
            self.entries.insert(at, (name, size));
            proof {
                let now = entry_names(self.entries@);
                assert(now =~= names.insert(at as int, name@));
                assert forall|i: int| at <= i < start.len() implies precedes(
                    name@,
                    #[trigger] names[i],
                ) by {
                    lemma_precedes_is_an_order(name@, names[at as int], names[i]);
                }
                assert forall|i: int| 0 <= i < start.len() implies #[trigger] names[i] != name@ by {
                    lemma_precedes_is_an_order(names[i], name@, names[i]);
                }
                assert forall|k: Seq<char>| k != name@ implies #[trigger] first_index(now, k, 0)
                    == moved(first_index(names, k, 0), at as int) by {
                    lemma_first_index(names, k, 0);
                    lemma_first_index(now, k, 0);
                    match first_index(names, k, 0) {
                        Some(i) => {
                            let moved = if i < at { i } else { i + 1 };
                            assert(now[moved] == k);
                        },
                        None => {
                            if let Some(m) = first_index(now, k, 0) {
                                let back = if m < at { m } else { m - 1 };
                                assert(names[back] == k);
                            }
                        },
                    }
                }
                lemma_first_index(now, name@, 0);
                assert(now[at as int] == name@);
                assert(first_index(now, name@, 0) == Some(at as int));
                let wanted = old(self)@.insert(name@, size);
                assert(self@.dom() =~= wanted.dom());
                assert forall|k: Seq<char>| self@.contains_key(k) implies #[trigger] self@[k]
                    == wanted[k] by {
                    lemma_first_index(names, k, 0);
                }
                assert(self@ =~= wanted);
            }
            None
        }
    }
}

impl Clone for DimensionOverrides {
    fn clone(&self) -> (r: Self)
        ensures
            r@ == self@,
            self.wf() ==> r.wf(),
    {
        let mut entries: Vec<(String, usize)> = Vec::new();
        for i in 0..self.entries.len()
            invariant
                entries@ == self.entries@.take(i as int),
        {
            entries.push((self.entries[i].0.clone(), self.entries[i].1));
            assert(entries@ =~= self.entries@.take(i + 1));
        }
        assert(entries@ =~= self.entries@);
        DimensionOverrides { entries }
    }
}

impl DimensionOverrides {
    /// The overrides in the order of their names.
    pub fn as_slice(&self) -> (r: &[(String, usize)])
        requires
            self.wf(),
        ensures
            forall|i: int|
                0 <= i < r@.len() ==> self@.contains_key((#[trigger] r@[i]).0@)
                    && self@[r@[i].0@] == r@[i].1,
            forall|name: Seq<char>|
                self@.contains_key(name) ==> exists|i: int|
                    0 <= i < r@.len() && (#[trigger] r@[i]).0@ == name,
            forall|i: int, j: int|
                0 <= i < j < r@.len() ==> precedes(
                    (#[trigger] r@[i]).0@,
                    (#[trigger] r@[j]).0@,
                ),
    {
        proof {
            let names = entry_names(self.entries@);
            assert forall|i: int| 0 <= i < self.entries@.len() implies first_index(
                names,
                (#[trigger] self.entries@[i]).0@,
                0,
            ) == Some(i) by {
                lemma_unique_index(names, i);
            }
            assert forall|name: Seq<char>| self@.contains_key(name) implies exists|i: int|
                0 <= i < self.entries@.len() && (#[trigger] self.entries@[i]).0@ == name by {
                lemma_first_index(names, name, 0);
                let i = first_index(names, name, 0)->0;
                assert(self.entries@[i].0@ == name);
            }
            assert forall|i: int, j: int| 0 <= i < j < self.entries@.len() implies precedes(
                (#[trigger] self.entries@[i]).0@,
                (#[trigger] self.entries@[j]).0@,
            ) by {
                assert(precedes(names[i], names[j]));
            }
        }
        self.entries.as_slice()
    }
}

proof fn lemma_unique_index(names: Seq<Seq<char>>, i: int)
    requires
        ascending(names),
        0 <= i < names.len(),
    ensures
        first_index(names, names[i], 0) == Some(i),
{
    lemma_first_index(names, names[i], 0);
    let at = first_index(names, names[i], 0)->0;
    if at < i {
        assert(precedes(names[at], names[i]));
        lemma_precedes_is_an_order(names[at], names[at], names[at]);
    }
}

/// One compilation target together with its provider-specific configuration.
/// Compilation never selects a target automatically or falls back to another provider.
#[derive(Debug)]
pub enum CompileTarget {
    /// Compile an embedded TensorRT engine with these builder/execution settings.
    TensorRt(TensorRtOptions),
    /// Optimize an ONNX graph for CUDA with these provider settings.
    Cuda(CudaOptions),
    /// Compile for CoreML using MLProgram (macOS only).
    CoreMl,
    /// Optimize for CPU; threading is configured in [`CompileOptions`].
    Cpu,
    /// Compile with an explicitly configured installed ORT provider.
    /// CUDA/TensorRT must use their typed variants, as with [`Backend::Custom`].
    Custom {
        /// Display name used in compilation reports and errors.
        name: String,
        /// Provider configured with its compilation settings.
        provider: CustomProvider,
    },
}

impl Clone for CompileTarget {
    fn clone(&self) -> (r: Self)
        ensures
            r == *self,
    {
        match self {
            CompileTarget::TensorRt(config) => CompileTarget::TensorRt(config.clone()),
            CompileTarget::Cuda(config) => CompileTarget::Cuda(*config),
            CompileTarget::CoreMl => CompileTarget::CoreMl,
            CompileTarget::Cpu => CompileTarget::Cpu,
            CompileTarget::Custom { name, provider } => CompileTarget::Custom {
                name: name.clone(),
                provider: *provider,
            },
        }
    }
}

impl CompileTarget {
    /// The provider that compiles for this target.
    pub open spec fn backend(self) -> Backend {
        match self {
            CompileTarget::TensorRt(_) => Backend::TensorRt,
            CompileTarget::Cuda(_) => Backend::Cuda,
            CompileTarget::CoreMl => Backend::CoreMl,
            CompileTarget::Cpu => Backend::Cpu,
            CompileTarget::Custom { name, provider } => Backend::Custom { name, provider },
        }
    }

    /// The TensorRT settings that the target carries.
    pub open spec fn tensorrt(self) -> Option<TensorRtOptions> {
        match self {
            CompileTarget::TensorRt(config) => Some(config),
            _ => None,
        }
    }

    /// The CUDA settings that the target carries.
    pub open spec fn cuda(self) -> Option<CudaOptions> {
        match self {
            CompileTarget::Cuda(config) => Some(config),
            _ => None,
        }
    }

    /// The first thing that is wrong with the settings of the target.
    pub open spec fn fault(self) -> Option<ErrorView> {
        match self {
            CompileTarget::TensorRt(config) => config.fault(),
            CompileTarget::Cuda(config) => config.fault(),
            _ => None,
        }
    }
}

/// Compilation configuration with a mandatory target and no automatic fallback.
/// Construct with [`Self::new`], then adjust shared settings as needed.
#[derive(Debug)]
pub struct CompileOptions {
    /// Required target and its provider-specific compilation settings.
    pub target: CompileTarget,
    /// Threads within an operator during compilation/validation, default 1.
    /// Set to 0 to let ONNX Runtime choose.
    pub intra_threads: usize,
    /// Threads across operators, used when parallel execution is enabled; default 1.
    pub inter_threads: usize,
    /// Execute independent operators in parallel, default false.
    /// CUDA graph capture is disabled in this mode.
    pub parallel_execution: bool,
    /// Resolve symbolic ONNX dimensions to fixed sizes before compilation.
    pub dimension_overrides: DimensionOverrides,
}

impl Clone for CompileOptions {
    fn clone(&self) -> (r: Self)
        ensures
            r.target == self.target,
            r.intra_threads == self.intra_threads,
            r.inter_threads == self.inter_threads,
            r.parallel_execution == self.parallel_execution,
            r.dimension_overrides@ == self.dimension_overrides@,
            self.dimension_overrides.wf() ==> r.dimension_overrides.wf(),
    {
        CompileOptions {
            target: self.target.clone(),
            intra_threads: self.intra_threads,
            inter_threads: self.inter_threads,
            parallel_execution: self.parallel_execution,
            dimension_overrides: self.dimension_overrides.clone(),
        }
    }
}

impl CompileOptions {
    /// Select a target explicitly and use defaults for the shared settings.
    /// GPU targets must carry their configuration, including when using defaults.
    pub fn new(target: CompileTarget) -> (r: Self)
        ensures
            r.target == target,
            r.intra_threads == 1,
            r.inter_threads == 1,
            !r.parallel_execution,
            r.dimension_overrides.wf(),
            r.dimension_overrides@ == Map::<Seq<char>, usize>::empty(),
    {
        CompileOptions {
            target,
            intra_threads: 1,
            inter_threads: 1,
            parallel_execution: false,
            dimension_overrides: DimensionOverrides::new(),
        }
    }

    /// The options of the sessions that compile and validate: the target's provider
    /// is required, and only its own settings are kept.
    pub open spec fn runtime_options(self) -> OnnxOptions {
        OnnxOptions {
            backend: BackendSelection::Require(self.target.backend()),
            tensorrt: self.target.tensorrt(),
            cuda: self.target.cuda(),
            intra_threads: self.intra_threads,
            inter_threads: self.inter_threads,
            parallel_execution: self.parallel_execution,
            dimension_overrides: self.dimension_overrides,
            profiling: None,
        }
    }

    /// Options for sessions that compile for the target and for nothing else.
    pub fn into_runtime_options(self) -> (r: Result<OnnxOptions, Error>)
        ensures
            failure(r) == self.target.fault(),
            r matches Ok(options) ==> options == self.runtime_options(),
    {
        let (backend, tensorrt, cuda) = match self.target {
            CompileTarget::TensorRt(config) => {
                match config.validate() {
                    Err(error) => {
                        return Err(error);
                    },
                    Ok(()) => {},
                }
                (Backend::TensorRt, Some(config), None)
            },
            CompileTarget::Cuda(config) => {
                match config.validate() {
                    Err(error) => {
                        return Err(error);
                    },
                    Ok(()) => {},
                }
                (Backend::Cuda, None, Some(config))
            },
            CompileTarget::CoreMl => (Backend::CoreMl, None, None),
            CompileTarget::Cpu => (Backend::Cpu, None, None),
            CompileTarget::Custom { name, provider } => (
                Backend::Custom { name, provider },
                None,
                None,
            ),
        };
        Ok(
            OnnxOptions {
                backend: BackendSelection::Require(backend),
                tensorrt,
                cuda,
                intra_threads: self.intra_threads,
                inter_threads: self.inter_threads,
                parallel_execution: self.parallel_execution,
                dimension_overrides: self.dimension_overrides,
                profiling: None,
            },
        )
    }
}

/// Select one required provider, or try candidates in order with fallback.
#[derive(Debug)]
pub enum BackendSelection {
    /// Fail if registration, node placement, or inference cannot use this provider.
    Require(Backend),
    /// Allow ORT node partitioning and whole-session fallback, in this order.
    Auto(Vec<Backend>),
}

impl BackendSelection {
    /// The providers to try, in order.
    pub open spec fn list(self) -> Seq<Backend> {
        match self {
            BackendSelection::Require(backend) => seq![backend],
            BackendSelection::Auto(backends) => backends@,
        }
    }

    /// Whether exactly one provider may be used.
    pub open spec fn is_strict(self) -> bool {
        self is Require
    }

    /// The providers to try, in order.
    pub fn candidates(&self) -> (r: &[Backend])
        ensures
            r@ == self.list(),
    {
        match self {
            BackendSelection::Require(backend) => core::slice::from_ref(backend),
            BackendSelection::Auto(backends) => backends.as_slice(),
        }
    }

    /// Whether exactly one provider may be used.
    pub fn strict(&self) -> (r: bool)
        ensures
            r == self.is_strict(),
    {
        match self {
            BackendSelection::Require(_) => true,
            BackendSelection::Auto(_) => false,
        }
    }

    /// The default candidates of a platform.
    pub fn for_platform(platform: Platform) -> (r: Self)
        ensures
            !r.is_strict(),
            r.list() == default_backends(platform),
    {
        let mut backends: Vec<Backend> = Vec::new();
        match platform {
            Platform::MacOs => {
                backends.push(Backend::CoreMl);
            },
            Platform::Cuda => {
                backends.push(Backend::TensorRt);
                backends.push(Backend::Cuda);
            },
            Platform::Other => {},
        }
        backends.push(Backend::Cpu);
        assert(backends@ =~= default_backends(platform));
        BackendSelection::Auto(backends)
    }
}

/// The default candidates of a platform: its accelerators, fastest first, then the CPU.
pub open spec fn default_backends(platform: Platform) -> Seq<Backend> {
    match platform {
        Platform::MacOs => seq![Backend::CoreMl, Backend::Cpu],
        Platform::Cuda => seq![Backend::TensorRt, Backend::Cuda, Backend::Cpu],
        Platform::Other => seq![Backend::Cpu],
    }
}

impl Clone for BackendSelection {
    fn clone(&self) -> (r: Self)
        ensures
            r.is_strict() == self.is_strict(),
            r.list() == self.list(),
    {
        match self {
            BackendSelection::Require(backend) => BackendSelection::Require(backend.clone()),
            BackendSelection::Auto(backends) => {
                let mut out: Vec<Backend> = Vec::new();
                for i in 0..backends.len()
                    invariant
                        out@ == backends@.take(i as int),
                {
                    out.push(backends[i].clone());
                    assert(out@ =~= backends@.take(i + 1));
                }
                assert(out@ =~= backends@);
                BackendSelection::Auto(out)
            },
        }
    }
}

/// Backend selection, threading, profiling, and model-shape configuration.
///
/// ONNX Runtime is loaded once per process through the system library loader.
/// Set `ORT_DYLIB_PATH` before starting the process to override its location.
#[derive(Debug)]
pub struct OnnxOptions {
    /// Required provider or ordered fallback candidates; defaults depend on the platform.
    pub backend: BackendSelection,
    /// Optional TensorRT overrides. `None` uses [`TensorRtOptions::default()`] when selected.
    /// Ignored by other providers; does not enable/disable TensorRT.
    pub tensorrt: Option<TensorRtOptions>,
    /// Optional CUDA overrides. `None` uses [`CudaOptions::default()`] when selected.
    /// Ignored by other providers; does not enable/disable CUDA.
    pub cuda: Option<CudaOptions>,
    /// Threads within an operator, default 1; 0 lets ONNX Runtime choose.
    pub intra_threads: usize,
    /// Threads across operators, default 1; used with parallel ORT execution.
    pub inter_threads: usize,
    /// Execute independent operators in parallel, default false.
    /// Enables `inter_threads`; CUDA graph capture is disabled in this mode.
    pub parallel_execution: bool,
    /// Resolve symbolic ONNX dimensions to fixed sizes, enabling the prepared path.
    pub dimension_overrides: DimensionOverrides,
    /// Optional ORT profiling prefix. Leave unset for timing measurements.
    pub profiling: Option<HostText>,
}

impl OnnxOptions {
    /// Whether all settings but the backends are the default ones.
    pub open spec fn has_default_settings(self) -> bool {
        &&& self.tensorrt is None
        &&& self.cuda is None
        &&& self.intra_threads == 1
        &&& self.inter_threads == 1
        &&& !self.parallel_execution
        &&& self.dimension_overrides.wf()
        &&& self.dimension_overrides@ == Map::<Seq<char>, usize>::empty()
        &&& self.profiling is None
    }

    /// The overrides are in order.
    pub open spec fn wf(self) -> bool {
        self.dimension_overrides.wf()
    }

    /// The first thing that is wrong with the shared settings.
    pub open spec fn fault(self) -> Option<ErrorView> {
        if self.backend.list().len() == 0 {
            Some(ErrorView::Fault(Fault::NoBackend))
        } else if self.intra_threads > i32::MAX || self.inter_threads > i32::MAX {
            Some(ErrorView::Fault(Fault::ThreadCount))
        } else if exists|name: Seq<char>|
            self.dimension_overrides@.contains_key(name) && !(0
                < #[trigger] self.dimension_overrides@[name] <= i64::MAX) {
            Some(ErrorView::Fault(Fault::DimensionOverride))
        } else {
            None
        }
    }

    /// Automatic selection with the default candidates of a platform.
    pub fn for_platform(platform: Platform) -> (r: Self)
        ensures
            r.has_default_settings(),
            !r.backend.is_strict(),
            r.backend.list() == default_backends(platform),
    {
        OnnxOptions {
            backend: BackendSelection::for_platform(platform),
            tensorrt: None,
            cuda: None,
            intra_threads: 1,
            inter_threads: 1,
            parallel_execution: false,
            dimension_overrides: DimensionOverrides::new(),
            profiling: None,
        }
    }

    /// Require CPU inference without attempting GPU providers.
    pub fn cpu() -> (r: Self)
        ensures
            r.has_default_settings(),
            r.backend == BackendSelection::Require(Backend::Cpu),
    {
        let mut options = OnnxOptions::for_platform(Platform::Other);
        options.backend = BackendSelection::Require(Backend::Cpu);
        options
    }

    /// Check what every backend depends on.
    pub fn validate(&self) -> (r: Result<(), Error>)
        requires
            self.wf(),
        ensures
            failure(r) == self.fault(),
    {
        if self.backend.candidates().len() == 0 {
            return Err(Error::Fault(Fault::NoBackend));
        }
        let limit: usize = 0x7fff_ffff;
        if self.intra_threads > limit || self.inter_threads > limit {
            return Err(Error::Fault(Fault::ThreadCount));
        }
        let entries = self.dimension_overrides.as_slice();
        for i in 0..entries.len()
            invariant
                self.fault() == Some(ErrorView::Fault(Fault::DimensionOverride))
                    || self.fault() is None,
                forall|j: int|
                    0 <= j < entries@.len() ==> self.dimension_overrides@.contains_key(
                        (#[trigger] entries@[j]).0@,
                    ) && self.dimension_overrides@[entries@[j].0@] == entries@[j].1,
                forall|j: int| 0 <= j < i ==> 0 < (#[trigger] entries@[j]).1 <= i64::MAX,
        {
            let size: usize = entries[i].1;
            if size == 0 || size as u64 > 0x7fff_ffff_ffff_ffff {
                assert(self.dimension_overrides@[entries@[i as int].0@] == size);
                return Err(Error::Fault(Fault::DimensionOverride));
            }
        }
        Ok(())
    }

    /// The TensorRT settings in effect.
    pub open spec fn tensorrt_in_effect(self) -> TensorRtOptions {
        match self.tensorrt {
            Some(own) => own,
            None => TensorRtOptions::defaults(),
        }
    }

    /// The CUDA settings in effect.
    pub open spec fn cuda_in_effect(self) -> CudaOptions {
        match self.cuda {
            Some(own) => own,
            None => CudaOptions::defaults(),
        }
    }

    /// The TensorRT settings: those given, or the defaults.
    pub fn tensorrt_settings(&self) -> (r: TensorRtOptions)
        ensures
            r == self.tensorrt_in_effect(),
    {
        match &self.tensorrt {
            Some(settings) => settings.clone(),
            None => TensorRtOptions::default(),
        }
    }

    /// The CUDA settings: those given, or the defaults.
    pub fn cuda_settings(&self) -> (r: CudaOptions)
        ensures
            r == self.cuda_in_effect(),
    {
        match self.cuda {
            Some(settings) => settings,
            None => CudaOptions::default(),
        }
    }
}

/// Whether two options configure the same sessions, apart from profiling.
pub open spec fn same_configuration(a: OnnxOptions, b: OnnxOptions) -> bool {
    &&& a.backend.is_strict() == b.backend.is_strict()
    &&& a.backend.list() == b.backend.list()
    &&& a.tensorrt == b.tensorrt
    &&& a.cuda == b.cuda
    &&& a.intra_threads == b.intra_threads
    &&& a.inter_threads == b.inter_threads
    &&& a.parallel_execution == b.parallel_execution
    &&& a.dimension_overrides@ == b.dimension_overrides@
}

impl Clone for OnnxOptions {
    fn clone(&self) -> (r: Self)
        ensures
            same_configuration(r, *self),
            r.profiling == self.profiling,
            self.wf() ==> r.wf(),
    {
        OnnxOptions {
            backend: self.backend.clone(),
            tensorrt: match &self.tensorrt {
                None => None,
                Some(settings) => Some(settings.clone()),
            },
            cuda: self.cuda,
            intra_threads: self.intra_threads,
            inter_threads: self.inter_threads,
            parallel_execution: self.parallel_execution,
            dimension_overrides: self.dimension_overrides.clone(),
            profiling: match &self.profiling {
                None => None,
                Some(prefix) => Some(prefix.clone()),
            },
        }
    }
}

/// Compilation requires the target's provider, so nothing else is ever tried.
pub proof fn law_compilation_has_one_candidate(options: CompileOptions)
    ensures
        options.runtime_options().backend.is_strict(),
        options.runtime_options().backend.list() == seq![options.target.backend()],
{
}

/// Compilation for a target does not depend on settings of other providers.
pub proof fn law_compilation_carries_only_its_own_settings(options: CompileOptions)
    ensures
        options.runtime_options().tensorrt is Some ==> options.target is TensorRt,
        options.runtime_options().cuda is Some ==> options.target is Cuda,
{
}

/// Settings of providers that are not asked for never make options invalid.
pub proof fn law_unrelated_settings_are_ignored(a: OnnxOptions, b: OnnxOptions)
    requires
        a.backend.list().len() == b.backend.list().len(),
        a.intra_threads == b.intra_threads,
        a.inter_threads == b.inter_threads,
        a.dimension_overrides@ == b.dimension_overrides@,
    ensures
        a.fault() == b.fault(),
{
}

/// A compilation runs with the settings of its target. For a TensorRT target the
/// options of its sessions hold exactly the target's TensorRT settings, which are then
/// in effect, and no CUDA settings; likewise for a CUDA target. The other targets hold
/// neither. The one candidate is the provider that the target names, and threads, order
/// of execution and sizes of dimensions are those that were given; nothing is profiled.
pub proof fn law_compilation_keeps_its_settings(options: CompileOptions)
    ensures
        match options.target {
            CompileTarget::TensorRt(settings) => {
                &&& options.runtime_options().tensorrt == Some(settings)
                &&& options.runtime_options().tensorrt_in_effect() == settings
                &&& options.runtime_options().cuda is None
                &&& options.runtime_options().backend == BackendSelection::Require(
                    Backend::TensorRt,
                )
            },
            CompileTarget::Cuda(settings) => {
                &&& options.runtime_options().cuda == Some(settings)
                &&& options.runtime_options().cuda_in_effect() == settings
                &&& options.runtime_options().tensorrt is None
                &&& options.runtime_options().backend == BackendSelection::Require(Backend::Cuda)
            },
            CompileTarget::CoreMl => {
                &&& options.runtime_options().tensorrt is None
                &&& options.runtime_options().cuda is None
                &&& options.runtime_options().backend == BackendSelection::Require(Backend::CoreMl)
            },
            CompileTarget::Cpu => {
                &&& options.runtime_options().tensorrt is None
                &&& options.runtime_options().cuda is None
                &&& options.runtime_options().backend == BackendSelection::Require(Backend::Cpu)
            },
            CompileTarget::Custom { name, provider } => {
                &&& options.runtime_options().tensorrt is None
                &&& options.runtime_options().cuda is None
                &&& options.runtime_options().backend == BackendSelection::Require(
                    Backend::Custom { name, provider },
                )
            },
        },
        options.runtime_options().intra_threads == options.intra_threads,
        options.runtime_options().inter_threads == options.inter_threads,
        options.runtime_options().parallel_execution == options.parallel_execution,
        options.runtime_options().dimension_overrides@ == options.dimension_overrides@,
        options.runtime_options().profiling is None,
{
}

/// Settings are accepted exactly when they are in range: devices are not negative, the
/// build level is at most five, the workspace is not empty, the auxiliary streams are at
/// least minus one, and shape profiles are given all or not at all.
pub proof fn law_settings_in_range_are_accepted(tensorrt: TensorRtOptions, cuda: CudaOptions)
    ensures
        tensorrt.fault() is None <==> {
            &&& 0 <= tensorrt.device_id
            &&& tensorrt.builder_optimization_level <= 5
            &&& 1 <= tensorrt.workspace_bytes
            &&& -1 <= tensorrt.auxiliary_streams
            &&& {
                ||| tensorrt.min_shapes is None && tensorrt.opt_shapes is None
                    && tensorrt.max_shapes is None
                ||| tensorrt.min_shapes is Some && tensorrt.opt_shapes is Some
                    && tensorrt.max_shapes is Some
            }
        },
        cuda.fault() is None <==> 0 <= cuda.device_id,
{
}

/// Settings out of range are refused for the first that is: the device, the build level,
/// the workspace, the auxiliary streams, then the profiles.
pub proof fn law_settings_are_refused_for_the_first(tensorrt: TensorRtOptions, cuda: CudaOptions)
    ensures
        cuda.device_id < 0 ==> cuda.fault() == Some(ErrorView::Fault(Fault::NegativeCudaDevice)),
        match tensorrt.fault() {
            None => true,
            Some(ErrorView::Fault(Fault::NegativeTensorRtDevice)) => tensorrt.device_id < 0,
            Some(ErrorView::Fault(Fault::BuildLevel)) => {
                tensorrt.device_id >= 0 && tensorrt.builder_optimization_level > 5
            },
            Some(ErrorView::Fault(Fault::Workspace)) => {
                &&& tensorrt.device_id >= 0 && tensorrt.builder_optimization_level <= 5
                &&& tensorrt.workspace_bytes == 0
            },
            Some(ErrorView::Fault(Fault::AuxiliaryStreams)) => {
                &&& tensorrt.device_id >= 0 && tensorrt.builder_optimization_level <= 5
                &&& tensorrt.workspace_bytes > 0 && tensorrt.auxiliary_streams < -1
            },
            Some(ErrorView::Fault(Fault::Profiles)) => {
                &&& tensorrt.device_id >= 0 && tensorrt.builder_optimization_level <= 5
                &&& tensorrt.workspace_bytes > 0 && tensorrt.auxiliary_streams >= -1
            },
            Some(_) => false,
        },
{
}

/// Options out of range are refused for the first thing that is: that no provider may be
/// tried, the threads, then the sizes of dimensions.
pub proof fn law_options_are_refused_for_the_first(options: OnnxOptions)
    ensures
        match options.fault() {
            None => true,
            Some(ErrorView::Fault(Fault::NoBackend)) => options.backend matches
                BackendSelection::Auto(list) && list@.len() == 0,
            Some(ErrorView::Fault(Fault::ThreadCount)) => {
                &&& options.backend.list().len() > 0
                &&& options.intra_threads > 0x7fff_ffff || options.inter_threads > 0x7fff_ffff
            },
            Some(ErrorView::Fault(Fault::DimensionOverride)) => {
                &&& options.backend.list().len() > 0
                &&& options.intra_threads <= 0x7fff_ffff
                &&& options.inter_threads <= 0x7fff_ffff
            },
            Some(_) => false,
        },
{
}

/// A target is refused exactly when its own settings are, and for the same reason.
pub proof fn law_targets_are_refused_for_their_settings(target: CompileTarget)
    ensures
        match target {
            CompileTarget::TensorRt(settings) => target.fault() == settings.fault(),
            CompileTarget::Cuda(settings) => target.fault() == settings.fault(),
            _ => target.fault() is None,
        },
{
}

/// Options are accepted exactly when some provider may be tried, both thread counts fit
/// the native runtime and every size of a symbolic dimension is a positive one that fits
/// it too.
pub proof fn law_options_in_range_are_accepted(options: OnnxOptions)
    ensures
        options.fault() is None <==> {
            &&& options.backend matches BackendSelection::Auto(list) ==> list@.len() > 0
            &&& options.intra_threads <= 0x7fff_ffff
            &&& options.inter_threads <= 0x7fff_ffff
            &&& forall|name: Seq<char>|
                options.dimension_overrides@.contains_key(name) ==> 1
                    <= #[trigger] options.dimension_overrides@[name] <= 0x7fff_ffff_ffff_ffff
        },
{
}

/// What is required is the only candidate and is strict. What may be chosen from is
/// tried in the order in which it is given.
pub proof fn law_candidates_come_as_given(selection: BackendSelection)
    ensures
        match selection {
            BackendSelection::Require(backend) => {
                &&& selection.list().len() == 1
                &&& selection.list()[0] == backend
                &&& selection.is_strict()
            },
            BackendSelection::Auto(backends) => {
                &&& selection.list().len() == backends@.len()
                &&& forall|i: int|
                    0 <= i < backends@.len() ==> #[trigger] selection.list()[i] == backends@[i]
                &&& !selection.is_strict()
            },
        },
{
}

/// Every platform ends with the CPU, has no candidate twice, and tries its own
/// accelerators before it, TensorRT before CUDA.
pub proof fn law_the_cpu_is_the_last_resort(platform: Platform)
    ensures
        default_backends(platform).len() >= 1,
        default_backends(platform).last() == Backend::Cpu,
        default_backends(platform).contains(Backend::CoreMl) <==> platform is MacOs,
        default_backends(platform).contains(Backend::TensorRt) <==> platform is Cuda,
        default_backends(platform).contains(Backend::Cuda) <==> platform is Cuda,
        platform is Cuda ==> default_backends(platform)[0] == Backend::TensorRt,
        default_backends(platform).no_duplicates(),
        forall|i: int|
            0 <= i < default_backends(platform).len() ==> !(#[trigger] default_backends(platform)[i]
                is Custom),
{
    let list = default_backends(platform);
    assert(platform is MacOs ==> list[0] == Backend::CoreMl);
    assert(platform is Cuda ==> list[0] == Backend::TensorRt && list[1] == Backend::Cuda);
}

/// Built-in providers have names of their own, and a custom one has the name that the
/// caller gave it.
pub proof fn law_providers_are_named(a: Backend, b: Backend)
    ensures
        a matches Backend::Custom { name, provider } ==> a.label() == name@,
        !(a is Custom) && !(b is Custom) && a.label() == b.label() ==> a == b,
        a is TensorRt ==> a.label() == "TensorRT"@,
        a is Cuda ==> a.label() == "CUDA"@,
        a is CoreMl ==> a.label() == "CoreML"@,
        a is Cpu ==> a.label() == "CPU"@,
{
    reveal_strlit("TensorRT");
    reveal_strlit("CUDA");
    reveal_strlit("CoreML");
    reveal_strlit("CPU");
    assert("TensorRT"@.len() == 8 && "CUDA"@.len() == 4 && "CoreML"@.len() == 6 && "CPU"@.len()
        == 3);
}

/// Default settings leave the providers to their own, run operators one after another on
/// one thread, override no dimension and profile nothing; with a candidate they are
/// accepted.
pub proof fn law_default_settings_are_accepted(options: OnnxOptions)
    requires
        options.has_default_settings(),
    ensures
        options.tensorrt is None,
        options.cuda is None,
        options.intra_threads == 1,
        options.inter_threads == 1,
        !options.parallel_execution,
        options.profiling is None,
        options.wf(),
        forall|name: Seq<char>| !options.dimension_overrides@.contains_key(name),
        options.backend.list().len() > 0 ==> options.fault() is None,
{
}

} // verus!
