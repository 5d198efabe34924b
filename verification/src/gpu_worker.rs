//! Decisions of the GPU frame-pipeline worker: which GPU a screen is bound
//! to, which pipelines a captured frame is routed to, whether a frame can pass
//! through to the encoder untouched, and which output buffers are tried.
use vstd::prelude::*;
use std::collections::HashMap;
use crate::dma_buf::DRM_FORMAT_XRGB8888;
use crate::geometry::{PixelSize, ScreenId};
use crate::text::str_equals;

verus! {

broadcast use vstd::std_specs::hash::group_hash_axioms;

/// A GPU, identified by the path of its DRM render node.
#[derive(Debug, Clone, PartialEq, Eq, Hash)]
pub struct GpuDevice {
    render_node_path: String,
}

impl GpuDevice {
    pub closed spec fn spec_render_node_path(self) -> Seq<char> {
        self.render_node_path@
    }

    /// The GPU whose render node is at `render_node_path`.
    pub fn from_render_node(render_node_path: String) -> (d: Self)
        ensures
            d.spec_render_node_path() == render_node_path@,
    {
        GpuDevice { render_node_path }
    }

    /// The path of the GPU's render node, which identifies it.
    pub fn render_node_path(&self) -> (p: &str)
        ensures
            p@ == self.spec_render_node_path(),
    {
        self.render_node_path.as_str()
    }

    /// Whether two devices are the same GPU.
    pub fn same_gpu(&self, other: &GpuDevice) -> (r: bool)
        ensures
            r == (self.spec_render_node_path() == other.spec_render_node_path()),
    {
        str_equals(self.render_node_path.as_str(), other.render_node_path.as_str())
    }
}

/// A screen whose capture runs on another GPU than the one the worker is
/// bound to.
#[derive(Debug, Clone, PartialEq, Eq)]
pub struct GpuMismatch {
    pub bound: GpuDevice,
    pub screen_id: ScreenId,
    pub device: GpuDevice,
}

/// The mismatch, if screen `screen_id` is captured on `device` while the
/// worker is bound to `bound`.
pub fn gpu_mismatch(bound: &GpuDevice, screen_id: ScreenId, device: &GpuDevice) -> (r: Option<GpuMismatch>)
    ensures
        match r {
            Some(m) => bound.spec_render_node_path() != device.spec_render_node_path()
                && m.bound.spec_render_node_path() == bound.spec_render_node_path()
                && m.device.spec_render_node_path() == device.spec_render_node_path()
                && m.screen_id == screen_id,
            None => bound.spec_render_node_path() == device.spec_render_node_path(),
        },
{
    if bound.same_gpu(device) {
        None
    } else {
        Some(
            GpuMismatch {
                bound: GpuDevice::from_render_node(bound.render_node_path.clone()),
                screen_id,
                device: GpuDevice::from_render_node(device.render_node_path.clone()),
            },
        )
    }
}

/// How an NV12 output buffer is allocated.
#[derive(Debug, Clone, Copy, PartialEq, Eq, Hash, Structural)]
pub enum Nv12OutputStrategy {
    /// One NV12 buffer.
    GbmNv12,
    /// An R8 luma buffer and a half-size GR88 chroma buffer.
    GbmSeparatePlanes,
}

impl Nv12OutputStrategy {
    /// The name the strategy is reported under.
    pub fn name(self) -> (n: &'static str)
        ensures
            n@ == (match self {
                Nv12OutputStrategy::GbmNv12 => "gbm_nv12"@,
                Nv12OutputStrategy::GbmSeparatePlanes => "gbm_separate_planes"@,
            }),
    {
        match self {
            Nv12OutputStrategy::GbmNv12 => "gbm_nv12",
            Nv12OutputStrategy::GbmSeparatePlanes => "gbm_separate_planes",
        }
    }
}

/// How a frame pipeline produces its output frames.
#[derive(Debug, Clone, Copy, PartialEq, Eq, Hash, Structural)]
pub enum FrameOutputStrategy {
    /// The captured XRGB frame goes to the encoder as it is; the modifier the
    /// encoder accepted is kept.
    PassthroughXrgb(u64),
    /// The GPU converts the frame to NV12.
    DirectNv12(Nv12OutputStrategy),
    /// The GPU copies the frame into an XRGB buffer with a modifier the video
    /// post-processor accepts.
    VaapiXrgb(u64),
}

impl FrameOutputStrategy {
    /// The name the strategy is reported under.
    pub fn name(self) -> (n: &'static str)
        ensures
            n@ == (match self {
                FrameOutputStrategy::PassthroughXrgb(_) => "kms_xrgb_passthrough"@,
                FrameOutputStrategy::DirectNv12(Nv12OutputStrategy::GbmNv12) => "gbm_nv12"@,
                FrameOutputStrategy::DirectNv12(Nv12OutputStrategy::GbmSeparatePlanes) => "gbm_separate_planes"@,
                FrameOutputStrategy::VaapiXrgb(_) => "vaapi_xrgb"@,
            }),
    {
        match self {
            FrameOutputStrategy::PassthroughXrgb(_) => "kms_xrgb_passthrough",
            FrameOutputStrategy::DirectNv12(strategy) => strategy.name(),
            FrameOutputStrategy::VaapiXrgb(_) => "vaapi_xrgb",
        }
    }
}

/// Output strategies in the order they are tried: direct NV12 with the
/// strategies the GPU supports (one NV12 buffer first), then an XRGB copy for
/// each modifier the video post-processor accepts, in its order.
pub open spec fn spec_output_candidates(
    nv12_supported: bool,
    separate_planes_supported: bool,
    vpp_modifiers: Seq<u64>,
) -> Seq<FrameOutputStrategy> {
    (if nv12_supported {
        seq![FrameOutputStrategy::DirectNv12(Nv12OutputStrategy::GbmNv12)]
    } else {
        Seq::empty()
    }) + (if separate_planes_supported {
        seq![FrameOutputStrategy::DirectNv12(Nv12OutputStrategy::GbmSeparatePlanes)]
    } else {
        Seq::empty()
    }) + vpp_modifiers.map_values(|m: u64| FrameOutputStrategy::VaapiXrgb(m))
}

/// The output strategies to try, in order; see `spec_output_candidates`.
pub fn output_candidates(
    nv12_supported: bool,
    separate_planes_supported: bool,
    vpp_modifiers: &[u64],
) -> (c: Vec<FrameOutputStrategy>)
    ensures
        c@ == spec_output_candidates(nv12_supported, separate_planes_supported, vpp_modifiers@),
{
    let mut c: Vec<FrameOutputStrategy> = Vec::new();
    if nv12_supported {
        c.push(FrameOutputStrategy::DirectNv12(Nv12OutputStrategy::GbmNv12));
    }
    if separate_planes_supported {
        c.push(FrameOutputStrategy::DirectNv12(Nv12OutputStrategy::GbmSeparatePlanes));
    }
    let ghost head = c@;
    let mut i: usize = 0;
    while i < vpp_modifiers.len()
        invariant
            i <= vpp_modifiers@.len(),
            c@ == head + vpp_modifiers@.take(i as int).map_values(
                |m: u64| FrameOutputStrategy::VaapiXrgb(m),
            ),
        decreases vpp_modifiers@.len() - i,
    {
        c.push(FrameOutputStrategy::VaapiXrgb(vpp_modifiers[i]));
        assert(vpp_modifiers@.take(i as int + 1) =~= vpp_modifiers@.take(i as int).push(
            vpp_modifiers@[i as int],
        ));
        i = i + 1;
    }
    assert(vpp_modifiers@.take(vpp_modifiers@.len() as int) =~= vpp_modifiers@);
    c
}

/// Why a frame size cannot be encoded as NV12.
#[derive(Debug, Clone, Copy, PartialEq, Eq)]
pub enum Nv12SizeError {
    Empty { width: u32, height: u32 },
    OddDimension { width: u32, height: u32 },
}

/// Checks that an NV12 frame of `size` can be made: both dimensions are
/// non-zero and even, since chroma is subsampled by two in each direction.
pub fn validate_nv12_size(size: PixelSize) -> (r: Result<(), Nv12SizeError>)
    ensures
        match r {
            Ok(()) => size.width > 0 && size.height > 0 && size.width % 2 == 0 && size.height % 2
                == 0,
            Err(Nv12SizeError::Empty { width, height }) => width == size.width && height
                == size.height && (size.width == 0 || size.height == 0),
            Err(Nv12SizeError::OddDimension { width, height }) => width == size.width && height
                == size.height && size.width > 0 && size.height > 0 && (size.width % 2 != 0
                || size.height % 2 != 0),
        },
{
    if size.width == 0 || size.height == 0 {
        return Err(Nv12SizeError::Empty { width: size.width, height: size.height });
    }
    if size.width % 2 != 0 || size.height % 2 != 0 {
        return Err(Nv12SizeError::OddDimension { width: size.width, height: size.height });
    }
    Ok(())
}

/// What to do with a captured frame before any GPU work.
#[derive(Debug, Clone, Copy, PartialEq, Eq)]
pub enum PassthroughDecision {
    /// The frame needs GPU processing.
    Process,
    /// Ask whether a hardware encoder accepts the frame as it is; if it does,
    /// adopt `PassthroughXrgb` with the frame's modifier and publish.
    ProbeEncoder { modifier: u64 },
    /// Publish the frame to the one pipeline as it is.
    Publish,
    /// The modifier changed since pass-through was adopted: the pipeline fails.
    ModifierChanged { expected: u64, actual: u64 },
}

/// Whether a frame can skip GPU processing: the screen has exactly one
/// pipeline, the frame already has that pipeline's size, and it is a
/// single-plane XRGB frame.
pub open spec fn spec_passthrough_decision(
    pipelines_for_screen: usize,
    pipeline_size: PixelSize,
    strategy: Option<FrameOutputStrategy>,
    frame_size: PixelSize,
    frame_format: u32,
    plane_modifiers: Seq<u64>,
) -> PassthroughDecision {
    if pipelines_for_screen != 1 || pipeline_size != frame_size || frame_format != DRM_FORMAT_XRGB8888
        || plane_modifiers.len() != 1 {
        PassthroughDecision::Process
    } else {
        match strategy {
            None => PassthroughDecision::ProbeEncoder { modifier: plane_modifiers[0] },
            Some(FrameOutputStrategy::PassthroughXrgb(expected)) => if expected == plane_modifiers[0] {
                PassthroughDecision::Publish
            } else {
                PassthroughDecision::ModifierChanged { expected, actual: plane_modifiers[0] }
            },
            Some(_) => PassthroughDecision::Process,
        }
    }
}

/// Decides whether a captured frame passes through; see
/// `spec_passthrough_decision`.
pub fn passthrough_decision(
    pipelines_for_screen: usize,
    pipeline_size: PixelSize,
    strategy: Option<FrameOutputStrategy>,
    frame_size: PixelSize,
    frame_format: u32,
    plane_modifiers: &[u64],
) -> (d: PassthroughDecision)
    ensures
        d == spec_passthrough_decision(
            pipelines_for_screen,
            pipeline_size,
            strategy,
            frame_size,
            frame_format,
            plane_modifiers@,
        ),
{
    if pipelines_for_screen != 1 || pipeline_size != frame_size || frame_format
        != DRM_FORMAT_XRGB8888 || plane_modifiers.len() != 1 {
        return PassthroughDecision::Process;
    }
    let modifier = plane_modifiers[0];
    match strategy {
        None => PassthroughDecision::ProbeEncoder { modifier },
        Some(FrameOutputStrategy::PassthroughXrgb(expected)) => {
            if expected == modifier {
                PassthroughDecision::Publish
            } else {
                PassthroughDecision::ModifierChanged { expected, actual: modifier }
            }
        },
        Some(_) => PassthroughDecision::Process,
    }
}

/// What the GPU worker thread observed next.
#[derive(Debug, Clone, PartialEq, Eq)]
pub enum GpuWorkerEvent {
    /// A screen's capture was registered; its GPU is not known yet.
    RegisterScreen { screen_id: ScreenId },
    ReleaseScreen { screen_id: ScreenId },
    /// Shutdown was requested or every command sender is gone.
    Shutdown,
    /// A screen's capture reported the GPU it runs on.
    ScreenDevice { screen_id: ScreenId, device: GpuDevice },
    /// A screen's capture could not start.
    ScreenDeviceFailed { screen_id: ScreenId },
    /// A screen's capture ended before reporting its GPU.
    ScreenDeviceClosed { screen_id: ScreenId },
    /// Creating the GPU context for the first screen's device finished.
    ContextCreated { screen_id: ScreenId, succeeded: bool },
    /// A captured frame of a screen arrived.
    Frame { screen_id: ScreenId },
    /// A screen's capture failed.
    FrameFailed { screen_id: ScreenId },
    /// A screen's capture ended.
    FramesClosed { screen_id: ScreenId },
    /// A screen failure was handed to the frame-pipeline manager;
    /// `delivered` is false when the manager is gone.
    FailureReported { delivered: bool },
}

/// Why a screen was dropped by the worker.
#[derive(Debug, Clone, PartialEq, Eq)]
pub enum ScreenFailure {
    /// The screen is captured on another GPU than the bound one.
    GpuMismatch(GpuMismatch),
    /// No GPU context could be created on the screen's device.
    ContextFailed,
    /// The screen's capture failed to start or to capture.
    CaptureFailed,
    /// A frame arrived before any GPU was bound.
    MissingContext,
}

/// What the GPU worker thread does next.
#[derive(Debug, Clone, PartialEq, Eq)]
pub enum GpuWorkerAction {
    /// Wait for the next event.
    Wait,
    /// Create the GPU context on the device the screen just reported, the
    /// first GPU any screen reported.
    CreateContext { screen_id: ScreenId },
    /// Process the captured frame for the screen's pipelines.
    ProcessFrame { screen_id: ScreenId },
    /// Tell the frame-pipeline manager that the screen failed.
    ReportScreenFailure { screen_id: ScreenId, failure: ScreenFailure },
    /// End the worker thread.
    Stop,
}

/// The GPU worker's bookkeeping: each registered screen and whether it still
/// waits for its GPU, the GPU the worker is bound to, and the device whose
/// context is being created. Pipelines and their outputs are kept by the
/// caller.
pub struct GpuWorkerState {
    pub screens: HashMap<u8, bool>,
    pub bound: Option<GpuDevice>,
    pub pending_context: Option<GpuDevice>,
    pub stopped: bool,
}

/// The GPU a device report leads to: the first screen to report binds the
/// worker (after its context is created); later screens must report the same
/// GPU.
pub open spec fn spec_bound_path(s: GpuWorkerState) -> Option<Seq<char>> {
    match s.bound {
        Some(d) => Some(d.spec_render_node_path()),
        None => None,
    }
}

impl GpuWorkerState {
    /// A worker with nothing registered and no GPU bound.
    pub fn new() -> (s: Self)
        ensures
            s.screens@ == Map::<u8, bool>::empty(),
            s.bound is None,
            s.pending_context is None,
            !s.stopped,
    {
        GpuWorkerState {
            screens: HashMap::new(),
            bound: None,
            pending_context: None,
            stopped: false,
        }
    }

    /// Takes the next event and decides the next action.
    pub fn step(&mut self, event: GpuWorkerEvent) -> (action: GpuWorkerAction)
        ensures
            old(self).stopped ==> action == GpuWorkerAction::Stop && final(self).stopped,
            !old(self).stopped ==> match event {
                GpuWorkerEvent::RegisterScreen { screen_id } => action == GpuWorkerAction::Wait
                    && final(self).screens@ == old(self).screens@.insert(screen_id.0, true)
                    && spec_bound_path(*final(self)) == spec_bound_path(*old(self)),
                GpuWorkerEvent::ReleaseScreen { screen_id } => action == GpuWorkerAction::Wait
                    && final(self).screens@ == old(self).screens@.remove(screen_id.0),
                GpuWorkerEvent::Shutdown => action == GpuWorkerAction::Stop && final(self).stopped,
                GpuWorkerEvent::ScreenDevice { screen_id, device } => match spec_bound_path(*old(self)) {
                    Some(path) => if path == device.spec_render_node_path() {
                        action == GpuWorkerAction::Wait && final(self).screens@ == (if old(self).screens@.contains_key(screen_id.0) {
                            old(self).screens@.insert(screen_id.0, false)
                        } else {
                            old(self).screens@
                        })
                    } else {
                        action matches GpuWorkerAction::ReportScreenFailure {
                            screen_id: s,
                            failure: ScreenFailure::GpuMismatch(m),
                        } && s == screen_id && m.screen_id == screen_id && m.bound.spec_render_node_path() == path
                            && m.device.spec_render_node_path() == device.spec_render_node_path()
                            && final(self).screens@ == old(self).screens@.remove(screen_id.0)
                    },
                    None => action == (GpuWorkerAction::CreateContext { screen_id })
                        && final(self).pending_context == Some(device) && final(self).screens@
                        == old(self).screens@,
                },
                GpuWorkerEvent::ContextCreated { screen_id, succeeded } => if succeeded
                    && old(self).pending_context is Some {
                    action == GpuWorkerAction::Wait && final(self).bound == (if old(self).bound is Some {
                        old(self).bound
                    } else {
                        old(self).pending_context
                    }) && final(self).screens@ == (if old(self).screens@.contains_key(screen_id.0) {
                        old(self).screens@.insert(screen_id.0, false)
                    } else {
                        old(self).screens@
                    })
                } else {
                    action == (GpuWorkerAction::ReportScreenFailure {
                        screen_id,
                        failure: ScreenFailure::ContextFailed,
                    }) && final(self).screens@ == old(self).screens@.remove(screen_id.0)
                        && final(self).bound == old(self).bound
                },
                GpuWorkerEvent::ScreenDeviceFailed { screen_id } | GpuWorkerEvent::FrameFailed {
                    screen_id,
                } => action == (GpuWorkerAction::ReportScreenFailure {
                    screen_id,
                    failure: ScreenFailure::CaptureFailed,
                }) && final(self).screens@ == old(self).screens@.remove(screen_id.0),
                GpuWorkerEvent::ScreenDeviceClosed { screen_id } | GpuWorkerEvent::FramesClosed {
                    screen_id,
                } => action == GpuWorkerAction::Wait && final(self).screens@ == old(
                    self,
                ).screens@.remove(screen_id.0),
                GpuWorkerEvent::Frame { screen_id } => if old(self).bound is Some {
                    action == (GpuWorkerAction::ProcessFrame { screen_id }) && final(self).screens@
                        == old(self).screens@
                } else {
                    action == (GpuWorkerAction::ReportScreenFailure {
                        screen_id,
                        failure: ScreenFailure::MissingContext,
                    }) && final(self).screens@ == old(self).screens@.remove(screen_id.0)
                },
                GpuWorkerEvent::FailureReported { delivered } => if delivered {
                    action == GpuWorkerAction::Wait && !final(self).stopped
                } else {
                    action == GpuWorkerAction::Stop && final(self).stopped
                },
            },
            spec_bound_path(*old(self)) is Some ==> spec_bound_path(*final(self)) == spec_bound_path(
                *old(self),
            ),
            final(self).stopped == (old(self).stopped || event is Shutdown || event == (
            GpuWorkerEvent::FailureReported { delivered: false })),
            old(self).stopped ==> final(self).screens@ == old(self).screens@ && final(self).bound
                == old(self).bound && final(self).pending_context == old(self).pending_context,
            !old(self).stopped ==> final(self).pending_context == match event {
                GpuWorkerEvent::ScreenDevice { device, .. } => if old(self).bound is None {
                    Some(device)
                } else {
                    old(self).pending_context
                },
                GpuWorkerEvent::ContextCreated { .. } => None,
                _ => old(self).pending_context,
            },
            !(event is ContextCreated) ==> final(self).bound == old(self).bound,
            event is Shutdown || event is FailureReported ==> final(self).screens@ == old(self).screens@,
    {
        if self.stopped {
            return GpuWorkerAction::Stop;
        }
        match event {
            GpuWorkerEvent::RegisterScreen { screen_id } => {
                self.screens.insert(screen_id.0, true);
                GpuWorkerAction::Wait
            },
            GpuWorkerEvent::ReleaseScreen { screen_id } => {
                self.screens.remove(&screen_id.0);
                GpuWorkerAction::Wait
            },
            GpuWorkerEvent::Shutdown => {
                self.stopped = true;
                GpuWorkerAction::Stop
            },
            GpuWorkerEvent::ScreenDevice { screen_id, device } => {
                let mismatch = match &self.bound {
                    Some(bound) => Some(gpu_mismatch(bound, screen_id, &device)),
                    None => None,
                };
                match mismatch {
                    Some(Some(m)) => {
                        self.screens.remove(&screen_id.0);
                        GpuWorkerAction::ReportScreenFailure {
                            screen_id,
                            failure: ScreenFailure::GpuMismatch(m),
                        }
                    },
                    Some(None) => {
                        self.mark_device_known(screen_id);
                        GpuWorkerAction::Wait
                    },
                    None => {
                        self.pending_context = Some(device);
                        GpuWorkerAction::CreateContext { screen_id }
                    },
                }
            },
            GpuWorkerEvent::ContextCreated { screen_id, succeeded } => {
                if succeeded && self.pending_context.is_some() && self.bound.is_none() {
                    self.bound = self.pending_context.take();
                    self.mark_device_known(screen_id);
                    GpuWorkerAction::Wait
                } else if succeeded && self.pending_context.is_some() {
                    self.pending_context = None;
                    self.mark_device_known(screen_id);
                    GpuWorkerAction::Wait
                } else {
                    self.pending_context = None;
                    self.screens.remove(&screen_id.0);
                    GpuWorkerAction::ReportScreenFailure {
                        screen_id,
                        failure: ScreenFailure::ContextFailed,
                    }
                }
            },
            GpuWorkerEvent::ScreenDeviceFailed { screen_id } | GpuWorkerEvent::FrameFailed {
                screen_id,
            } => {
                self.screens.remove(&screen_id.0);
                GpuWorkerAction::ReportScreenFailure {
                    screen_id,
                    failure: ScreenFailure::CaptureFailed,
                }
            },
            GpuWorkerEvent::ScreenDeviceClosed { screen_id } | GpuWorkerEvent::FramesClosed {
                screen_id,
            } => {
                self.screens.remove(&screen_id.0);
                GpuWorkerAction::Wait
            },
            GpuWorkerEvent::Frame { screen_id } => {
                if self.bound.is_some() {
                    GpuWorkerAction::ProcessFrame { screen_id }
                } else {
                    self.screens.remove(&screen_id.0);
                    GpuWorkerAction::ReportScreenFailure {
                        screen_id,
                        failure: ScreenFailure::MissingContext,
                    }
                }
            },
            GpuWorkerEvent::FailureReported { delivered } => {
                if delivered {
                    GpuWorkerAction::Wait
                } else {
                    self.stopped = true;
                    GpuWorkerAction::Stop
                }
            },
        }
    }

    /// What the worker listens to for `screen_id`: `Some(true)` while it waits
    /// for the GPU the screen is captured on, `Some(false)` once it waits for
    /// frames, `None` for a screen that is not registered.
    pub fn awaits_device(&self, screen_id: ScreenId) -> (r: Option<bool>)
        ensures
            r == (if self.screens@.contains_key(screen_id.0) {
                Some(self.screens@[screen_id.0])
            } else {
                None::<bool>
            }),
    {
        match self.screens.get(&screen_id.0) {
            Some(waits) => Some(*waits),
            None => None,
        }
    }

    /// The screen's GPU is known: its frames are awaited from now on.
    fn mark_device_known(&mut self, screen_id: ScreenId)
        ensures
            final(self).screens@ == (if old(self).screens@.contains_key(screen_id.0) {
                old(self).screens@.insert(screen_id.0, false)
            } else {
                old(self).screens@
            }),
            final(self).bound == old(self).bound,
            final(self).pending_context == old(self).pending_context,
            final(self).stopped == old(self).stopped,
    {
        if self.screens.contains_key(&screen_id.0) {
            self.screens.insert(screen_id.0, false);
        }
    }
}


/// A frame pipeline as the GPU worker sees it: the screen it processes, the
/// size it produces, and the output strategy once one was chosen.
#[derive(Debug, Clone, Copy, PartialEq, Eq, Structural)]
pub struct WorkerPipeline {
    pub id: u64,
    pub screen_id: ScreenId,
    pub frame_size: PixelSize,
    pub strategy: Option<FrameOutputStrategy>,
}

/// The identifiers of the pipelines that process `screen_id`, in table order.
pub open spec fn spec_pipelines_for_screen(pipelines: Seq<WorkerPipeline>, screen_id: ScreenId) -> Seq<u64>
    decreases pipelines.len(),
{
    if pipelines.len() == 0 {
        Seq::empty()
    } else {
        let rest = spec_pipelines_for_screen(pipelines.drop_last(), screen_id);
        if pipelines.last().screen_id == screen_id {
            rest.push(pipelines.last().id)
        } else {
            rest
        }
    }
}

/// The pipelines left after a frame of `screen_id` was processed: a pipeline
/// of that screen whose processing failed is dropped (its subscribers got the
/// failure); every other pipeline stays.
pub open spec fn spec_after_screen_frame(
    pipelines: Seq<WorkerPipeline>,
    screen_id: ScreenId,
    failed: Seq<u64>,
) -> Seq<WorkerPipeline>
    decreases pipelines.len(),
{
    if pipelines.len() == 0 {
        Seq::empty()
    } else {
        let rest = spec_after_screen_frame(pipelines.drop_last(), screen_id, failed);
        let last = pipelines.last();
        if last.screen_id == screen_id && failed.contains(last.id) {
            rest
        } else {
            rest.push(last)
        }
    }
}

/// The index of pipeline `id` in the table.
pub open spec fn spec_worker_pipeline_index(pipelines: Seq<WorkerPipeline>, id: u64) -> Option<int> {
    if exists|i: int| 0 <= i < pipelines.len() && pipelines[i].id == id {
        Some(choose|i: int| 0 <= i < pipelines.len() && pipelines[i].id == id)
    } else {
        None
    }
}

fn contains_id(ids: &[u64], id: u64) -> (r: bool)
    ensures
        r == ids@.contains(id),
{
    let mut i: usize = 0;
    while i < ids.len()
        invariant
            i <= ids@.len(),
            forall|j: int| 0 <= j < i ==> ids@[j] != id,
        decreases ids@.len() - i,
    {
        if ids[i] == id {
            return true;
        }
        i = i + 1;
    }
    false
}

/// The GPU worker's pipeline table, keyed by pipeline identifier.
pub struct WorkerPipelines {
    pub pipelines: Vec<WorkerPipeline>,
}

impl WorkerPipelines {
    /// One entry per pipeline identifier.
    pub open spec fn wf(self) -> bool {
        forall|i: int, j: int|
            0 <= i < j < self.pipelines@.len() ==> #[trigger] self.pipelines@[i].id != #[trigger] self.pipelines@[j].id
    }

    pub fn new() -> (t: Self)
        ensures
            t.wf(),
            t.pipelines@.len() == 0,
    {
        WorkerPipelines { pipelines: Vec::new() }
    }

    fn index_of(&self, id: u64) -> (r: Option<usize>)
        requires
            self.wf(),
        ensures
            r == (match spec_worker_pipeline_index(self.pipelines@, id) {
                Some(i) => Some(i as usize),
                None => None::<usize>,
            }),
            r matches Some(i) ==> i < self.pipelines@.len() && self.pipelines@[i as int].id == id,
    {
        let mut i: usize = 0;
        while i < self.pipelines.len()
            invariant
                self.wf(),
                i <= self.pipelines@.len(),
                forall|j: int| 0 <= j < i ==> self.pipelines@[j].id != id,
            decreases self.pipelines@.len() - i,
        {
            if self.pipelines[i].id == id {
                proof {
                    let c = choose|j: int| 0 <= j < self.pipelines@.len() && self.pipelines@[j].id == id;
                    if c > i as int {
                        assert(self.pipelines@[i as int].id != self.pipelines@[c].id);
                    }
                }
                return Some(i);
            }
            i = i + 1;
        }
        None
    }

    /// Registers pipeline `id` for `screen_id`; a pipeline registered again
    /// under the same identifier starts over, without an output strategy.
    pub fn register(&mut self, id: u64, screen_id: ScreenId, frame_size: PixelSize)
        requires
            old(self).wf(),
        ensures
            final(self).wf(),
            ({
                let entry = WorkerPipeline { id, screen_id, frame_size, strategy: None };
                final(self).pipelines@ == match spec_worker_pipeline_index(old(self).pipelines@, id) {
                    Some(i) => old(self).pipelines@.update(i, entry),
                    None => old(self).pipelines@.push(entry),
                }
            }),
    {
        let entry = WorkerPipeline { id, screen_id, frame_size, strategy: None };
        match self.index_of(id) {
            Some(i) => {
                self.pipelines.set(i, entry);
                proof {
                    assert forall|a: int, b: int| 0 <= a < b < self.pipelines@.len() implies #[trigger] self.pipelines@[a].id
                        != #[trigger] self.pipelines@[b].id by {
                        assert(old(self).pipelines@[a].id != old(self).pipelines@[b].id);
                    }
                }
            },
            None => {
                self.pipelines.push(entry);
                proof {
                    assert forall|a: int, b: int| 0 <= a < b < self.pipelines@.len() implies #[trigger] self.pipelines@[a].id
                        != #[trigger] self.pipelines@[b].id by {
                        if b < old(self).pipelines@.len() {
                            assert(old(self).pipelines@[a].id != old(self).pipelines@[b].id);
                        } else {
                            assert(old(self).pipelines@[a].id != id);
                        }
                    }
                }
            },
        }
    }

    /// Forgets pipeline `id`; an unknown identifier changes nothing.
    pub fn release(&mut self, id: u64)
        requires
            old(self).wf(),
        ensures
            final(self).wf(),
            final(self).pipelines@ == match spec_worker_pipeline_index(old(self).pipelines@, id) {
                Some(i) => old(self).pipelines@.remove(i),
                None => old(self).pipelines@,
            },
    {
        if let Some(i) = self.index_of(id) {
            self.pipelines.remove(i);
            proof {
                assert forall|a: int, b: int| 0 <= a < b < self.pipelines@.len() implies #[trigger] self.pipelines@[a].id
                    != #[trigger] self.pipelines@[b].id by {
                    let oa = if a < i { a } else { a + 1 };
                    let ob = if b < i { b } else { b + 1 };
                    assert(old(self).pipelines@[oa].id != old(self).pipelines@[ob].id);
                }
            }
        }
    }

    /// Records the output strategy chosen for pipeline `id`.
    pub fn set_strategy(&mut self, id: u64, strategy: FrameOutputStrategy)
        requires
            old(self).wf(),
        ensures
            final(self).wf(),
            final(self).pipelines@ == match spec_worker_pipeline_index(old(self).pipelines@, id) {
                Some(i) => old(self).pipelines@.update(
                    i,
                    WorkerPipeline { strategy: Some(strategy), ..old(self).pipelines@[i] },
                ),
                None => old(self).pipelines@,
            },
    {
        if let Some(i) = self.index_of(id) {
            let entry = self.pipelines[i];
            self.pipelines.set(i, WorkerPipeline { strategy: Some(strategy), ..entry });
            proof {
                assert forall|a: int, b: int| 0 <= a < b < self.pipelines@.len() implies #[trigger] self.pipelines@[a].id
                    != #[trigger] self.pipelines@[b].id by {
                    assert(old(self).pipelines@[a].id != old(self).pipelines@[b].id);
                }
            }
        }
    }

    /// The pipelines a captured frame of `screen_id` is routed to.
    pub fn pipelines_for_screen(&self, screen_id: ScreenId) -> (ids: Vec<u64>)
        ensures
            ids@ == spec_pipelines_for_screen(self.pipelines@, screen_id),
    {
        let mut ids: Vec<u64> = Vec::new();
        let mut i: usize = 0;
        while i < self.pipelines.len()
            invariant
                i <= self.pipelines@.len(),
                ids@ == spec_pipelines_for_screen(self.pipelines@.take(i as int), screen_id),
            decreases self.pipelines@.len() - i,
        {
            proof {
                assert(self.pipelines@.take(i as int + 1).drop_last() == self.pipelines@.take(i as int));
            }
            if self.pipelines[i].screen_id == screen_id {
                ids.push(self.pipelines[i].id);
            }
            i = i + 1;
        }
        proof {
            assert(self.pipelines@.take(i as int) == self.pipelines@);
        }
        ids
    }

    /// After a frame of `screen_id` was processed, drops the pipelines of that
    /// screen whose processing failed (listed in `failed`).
    pub fn finish_screen_frame(&mut self, screen_id: ScreenId, failed: &[u64])
        requires
            old(self).wf(),
        ensures
            final(self).wf(),
            final(self).pipelines@ == spec_after_screen_frame(old(self).pipelines@, screen_id, failed@),
    {
        let mut kept: Vec<WorkerPipeline> = Vec::new();
        let mut i: usize = 0;
        while i < self.pipelines.len()
            invariant
                self.wf(),
                i <= self.pipelines@.len(),
                kept@ == spec_after_screen_frame(self.pipelines@.take(i as int), screen_id, failed@),
                forall|a: int| 0 <= a < kept@.len() ==> exists|k: int| 0 <= k < i && #[trigger] kept@[a] == self.pipelines@[k],
                forall|a: int, b: int| 0 <= a < b < kept@.len() ==> #[trigger] kept@[a].id != #[trigger] kept@[b].id,
            decreases self.pipelines@.len() - i,
        {
            let entry = self.pipelines[i];
            proof {
                assert(self.pipelines@.take(i as int + 1).drop_last() == self.pipelines@.take(i as int));
            }
            if !(entry.screen_id == screen_id && contains_id(failed, entry.id)) {
                let ghost before = kept@;
                kept.push(entry);
                proof {
                    assert forall|a: int| 0 <= a < kept@.len() implies exists|k: int| 0 <= k < i + 1 && #[trigger] kept@[a]
                        == self.pipelines@[k] by {
                        if a < before.len() {
                            let k = choose|k: int| 0 <= k < i && before[a] == self.pipelines@[k];
                            assert(kept@[a] == self.pipelines@[k]);
                        } else {
                            assert(kept@[a] == self.pipelines@[i as int]);
                        }
                    }
                    assert forall|a: int, b: int| 0 <= a < b < kept@.len() implies #[trigger] kept@[a].id
                        != #[trigger] kept@[b].id by {
                        if b == before.len() {
                            let k = choose|k: int| 0 <= k < i && before[a] == self.pipelines@[k];
                            assert(self.pipelines@[k].id != self.pipelines@[i as int].id);
                        } else {
                            assert(before[a].id != before[b].id);
                        }
                    }
                }
            }
            i = i + 1;
        }
        proof {
            assert(self.pipelines@.take(i as int) == self.pipelines@);
        }
        self.pipelines = kept;
    }
}

/// Processing a frame of one screen never drops a pipeline of another screen.
pub proof fn screen_frame_keeps_other_screens_pipelines(
    pipelines: Seq<WorkerPipeline>,
    screen_id: ScreenId,
    failed: Seq<u64>,
    k: int,
)
    requires
        0 <= k < pipelines.len(),
        pipelines[k].screen_id != screen_id || !failed.contains(pipelines[k].id),
    ensures
        spec_after_screen_frame(pipelines, screen_id, failed).contains(pipelines[k]),
    decreases pipelines.len(),
{
    let rest = spec_after_screen_frame(pipelines.drop_last(), screen_id, failed);
    if k < pipelines.len() - 1 {
        screen_frame_keeps_other_screens_pipelines(pipelines.drop_last(), screen_id, failed, k);
        assert(pipelines.drop_last()[k] == pipelines[k]);
        let j = choose|j: int| 0 <= j < rest.len() && rest[j] == pipelines[k];
        let after = spec_after_screen_frame(pipelines, screen_id, failed);
        assert(after[j] == pipelines[k]);
    } else {
        let after = spec_after_screen_frame(pipelines, screen_id, failed);
        assert(after == rest.push(pipelines.last()));
        assert(after[rest.len() as int] == pipelines[k]);
    }
}

/// A frame of a screen is routed only to pipelines of that screen.
pub proof fn frames_are_routed_only_to_the_screens_pipelines(
    pipelines: Seq<WorkerPipeline>,
    screen_id: ScreenId,
    id: u64,
)
    requires
        spec_pipelines_for_screen(pipelines, screen_id).contains(id),
    ensures
        exists|k: int| 0 <= k < pipelines.len() && pipelines[k].id == id && pipelines[k].screen_id == screen_id,
    decreases pipelines.len(),
{
    let init = pipelines.drop_last();
    let rest = spec_pipelines_for_screen(init, screen_id);
    if rest.contains(id) {
        frames_are_routed_only_to_the_screens_pipelines(init, screen_id, id);
        let k = choose|k: int| 0 <= k < init.len() && init[k].id == id && init[k].screen_id == screen_id;
        assert(pipelines[k] == init[k]);
    } else {
        let all = spec_pipelines_for_screen(pipelines, screen_id);
        let j = choose|j: int| 0 <= j < all.len() && all[j] == id;
        assert(pipelines[pipelines.len() - 1] == pipelines.last());
        if pipelines.last().screen_id != screen_id {
            assert(all == rest);
            assert(rest[j] == id);
        }
    }
}


/// The DRM code of XRGB8888 is the little-endian fourcc "XR24".
pub proof fn xrgb8888_is_the_xr24_fourcc()
    ensures
        DRM_FORMAT_XRGB8888 == ('X' as u32) + ('R' as u32) * 0x100 + ('2' as u32) * 0x1_0000 + ('4' as u32)
            * 0x100_0000,
{
}

/// A frame skips GPU processing only when it is a single-plane XRGB8888 frame
/// of the size of the screen's only pipeline: any other frame, in particular
/// one of any other format, is processed. A frame offered to the encoder or
/// published carries its own modifier, and a changed modifier is reported
/// only against an adopted pass-through.
pub proof fn only_single_plane_xrgb_frames_of_the_pipeline_size_skip_processing(
    pipelines_for_screen: usize,
    pipeline_size: PixelSize,
    strategy: Option<FrameOutputStrategy>,
    frame_size: PixelSize,
    frame_format: u32,
    plane_modifiers: Seq<u64>,
)
    ensures
        ({
            let d = spec_passthrough_decision(
                pipelines_for_screen,
                pipeline_size,
                strategy,
                frame_size,
                frame_format,
                plane_modifiers,
            );
            &&& frame_format != DRM_FORMAT_XRGB8888 ==> d == PassthroughDecision::Process
            &&& d != PassthroughDecision::Process ==> pipelines_for_screen == 1 && pipeline_size
                == frame_size && frame_format == DRM_FORMAT_XRGB8888 && plane_modifiers.len() == 1
            &&& d matches PassthroughDecision::ProbeEncoder { modifier } ==> strategy is None
                && modifier == plane_modifiers[0]
            &&& d == PassthroughDecision::Publish ==> strategy == Some(
                FrameOutputStrategy::PassthroughXrgb(plane_modifiers[0]),
            )
            &&& d matches PassthroughDecision::ModifierChanged { expected, actual } ==> strategy
                == Some(FrameOutputStrategy::PassthroughXrgb(expected)) && actual == plane_modifiers[0]
                && expected != actual
        }),
{
}

/// Every modifier the video post-processor accepts is tried, in its order, as
/// an XRGB copy after the direct NV12 strategies the GPU supports (one NV12
/// buffer first, then separate planes), whatever NV12 support there is.
pub proof fn every_vpp_modifier_is_tried_last(
    nv12_supported: bool,
    separate_planes_supported: bool,
    vpp_modifiers: Seq<u64>,
)
    ensures
        ({
            let c = spec_output_candidates(nv12_supported, separate_planes_supported, vpp_modifiers);
            let head = (if nv12_supported { 1int } else { 0int }) + (if separate_planes_supported {
                1int
            } else {
                0int
            });
            &&& c.len() == head + vpp_modifiers.len()
            &&& forall|i: int|
                0 <= i < vpp_modifiers.len() ==> c[head + i] == FrameOutputStrategy::VaapiXrgb(
                    #[trigger] vpp_modifiers[i],
                )
            &&& forall|i: int| 0 <= i < head ==> (#[trigger] c[i]) is DirectNv12
            &&& nv12_supported ==> c[0] == FrameOutputStrategy::DirectNv12(Nv12OutputStrategy::GbmNv12)
            &&& separate_planes_supported ==> c[head - 1] == FrameOutputStrategy::DirectNv12(
                Nv12OutputStrategy::GbmSeparatePlanes,
            )
        }),
{
    let c = spec_output_candidates(nv12_supported, separate_planes_supported, vpp_modifiers);
    let head = (if nv12_supported { 1int } else { 0int }) + (if separate_planes_supported {
        1int
    } else {
        0int
    });
    assert forall|i: int| 0 <= i < vpp_modifiers.len() implies c[head + i] == FrameOutputStrategy::VaapiXrgb(
        #[trigger] vpp_modifiers[i],
    ) by {
        assert(c[head + i] == vpp_modifiers.map_values(|m: u64| FrameOutputStrategy::VaapiXrgb(m))[i]);
    }
}

} // verus!
