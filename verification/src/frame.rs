//! The frame loop driver: the per-iteration decisions of the blocking loop
//! that owns the main thread after setup. Each iteration pumps runtime
//! events, decides whether to idle or render, and — when rendering — follows
//! the strict wait/begin/acquire/update/release/end protocol against the
//! per-eye swapchains. The embedding application performs the runtime calls
//! in exactly the planned order.

use vstd::prelude::*;

use crate::session::{
    spec_action, spec_initial_machine, spec_step, EventAction, SessionEvent, SessionStateMachine,
};
use crate::tracking::{spec_initial_tracking, TrackingContext};

verus! {

/// How long the loop sleeps between event polls while the session is not
/// running. Bounds busy-waiting without risking a missed session-end
/// notification.
pub const IDLE_POLL_MILLIS: u64 = 200;

/// Low-frequency housekeeping (such as a best-effort refresh-rate request)
/// runs on every multiple of this iteration count.
pub const HOUSEKEEPING_PERIOD: u64 = 1000;

/// The per-frame record produced by the runtime's frame-timing wait. It is
/// consumed within the same iteration and never persisted.
#[derive(Clone, Copy, Debug, PartialEq, Eq, Structural)]
pub struct FrameState {
    pub predicted_display_time_nanos: i64,
    pub should_render: bool,
}

/// Validity flags of the located per-frame view poses.
#[derive(Clone, Copy, Debug, PartialEq, Eq, Structural)]
pub struct ViewValidity {
    pub position_valid: bool,
    pub orientation_valid: bool,
}

/// One of the two stereo eyes. Throughout the loop, resolution and view
/// indices pair as left = 0 and right = 1.
#[derive(Clone, Copy, Debug, PartialEq, Eq, Structural)]
pub enum Eye {
    Left,
    Right,
}

/// What the frame-end submission presents.
#[derive(Clone, Copy, Debug, PartialEq, Eq, Structural)]
pub enum LayerSubmission {
    /// No composition layers: nothing is presented this frame.
    NoLayers,
    /// One stereo projection layer referencing both eye sub-images.
    Stereo,
}

/// A step of one frame-loop iteration, to be performed by the embedding
/// application in the planned order.
#[derive(Clone, Copy, Debug, PartialEq, Eq, Structural)]
pub enum FrameOp {
    /// Synchronize the active action set with the runtime.
    SyncActions,
    /// Begin the frame submission.
    BeginFrame,
    /// Publish the predicted display time as the next vsync time.
    RecordVsync,
    /// Locate the per-eye view poses for the predicted display time.
    LocateViews,
    /// Construct the per-eye swapchains (first rendered frame only).
    CreateSwapchains,
    /// Acquire one eye's next swapchain image.
    AcquireImage { eye: Eye },
    /// Publish the located views and acquired render targets to the engine.
    PublishViews,
    /// Run exactly one engine update tick.
    RunUpdate,
    /// Release one eye's acquired swapchain image.
    ReleaseImage { eye: Eye },
    /// End the frame submission with the given layer list.
    EndFrame { layers: LayerSubmission },
    /// Dispatch queued haptic output events to the runtime.
    DispatchHaptics,
    /// Ask the runtime to end the session gracefully.
    RequestExit,
}

/// What to do with the iteration after the event pump.
#[derive(Clone, Copy, Debug, PartialEq, Eq, Structural)]
pub enum IterationDecision {
    /// A terminal event arrived: leave the loop.
    Terminate,
    /// The session is not running: sleep this long, then poll again.
    IdlePoll { millis: u64 },
    /// Proceed with frame work; `housekeeping` marks the periodic
    /// maintenance iterations.
    RunFrame { housekeeping: bool },
}

/// The layer list owed at frame end: a stereo projection layer when both
/// validity flags hold, and no layers otherwise — degrade gracefully rather
/// than present garbage poses.
pub open spec fn spec_layer_submission(validity: ViewValidity) -> LayerSubmission {
    if validity.position_valid && validity.orientation_valid {
        LayerSubmission::Stereo
    } else {
        LayerSubmission::NoLayers
    }
}

/// The steps of one running iteration. A frame that should not render still
/// begins and ends the frame submission — the presentation protocol requires
/// the empty submission — but skips all texture work and the engine update.
/// A rendered frame acquires both eyes before the update and releases both
/// after it, ends with the validity-dependent layer list, then dispatches
/// haptics and, when the application asked to exit, requests graceful
/// session termination.
pub open spec fn spec_frame_ops(
    fs: FrameState,
    validity: ViewValidity,
    swapchains_ready: bool,
    app_exit: bool,
) -> Seq<FrameOp> {
    if !fs.should_render {
        seq![
            FrameOp::SyncActions,
            FrameOp::BeginFrame,
            FrameOp::EndFrame { layers: LayerSubmission::NoLayers },
        ]
    } else {
        seq![FrameOp::SyncActions, FrameOp::BeginFrame, FrameOp::RecordVsync, FrameOp::LocateViews]
            + (if swapchains_ready {
            Seq::<FrameOp>::empty()
        } else {
            seq![FrameOp::CreateSwapchains]
        }) + seq![
            FrameOp::AcquireImage { eye: Eye::Left },
            FrameOp::AcquireImage { eye: Eye::Right },
            FrameOp::PublishViews,
            FrameOp::RunUpdate,
            FrameOp::ReleaseImage { eye: Eye::Left },
            FrameOp::ReleaseImage { eye: Eye::Right },
            FrameOp::EndFrame { layers: spec_layer_submission(validity) },
            FrameOp::DispatchHaptics,
        ] + (if app_exit {
            seq![FrameOp::RequestExit]
        } else {
            Seq::<FrameOp>::empty()
        })
    }
}

/// How one event changes the tracking context: a pending reference-space
/// change replaces the stored offset and timestamp; nothing else touches it.
pub open spec fn spec_tracking_step(t: TrackingContext, e: SessionEvent) -> TrackingContext {
    match e {
        SessionEvent::ReferenceSpaceChangePending { change } => TrackingContext {
            space_type: change.space_type,
            change_time_nanos: change.change_time_nanos,
            previous_pose_offset: change.pose_in_previous_space,
        },
        _ => t,
    }
}

/// The decision owed after the event pump of one iteration.
pub open spec fn spec_iteration_decision(m: SessionStateMachine, count: u64) -> IterationDecision {
    if m.terminated {
        IterationDecision::Terminate
    } else if !m.running {
        IterationDecision::IdlePoll { millis: IDLE_POLL_MILLIS }
    } else {
        IterationDecision::RunFrame { housekeeping: count % HOUSEKEEPING_PERIOD == 0 }
    }
}

/// The state the frame loop carries across iterations: the session machine,
/// the tracking context, the iteration counter, whether the lazily created
/// swapchains exist yet, and the published next-vsync time.
#[derive(Clone, Copy, Debug)]
pub struct FrameLoopDriver {
    pub machine: SessionStateMachine,
    pub tracking: TrackingContext,
    pub frame_count: u64,
    pub swapchains_ready: bool,
    pub next_vsync_nanos: i64,
}

impl FrameLoopDriver {
    /// The driver before the first iteration.
    pub fn new() -> (d: FrameLoopDriver)
        ensures
            d.machine == spec_initial_machine(),
            d.tracking == spec_initial_tracking(),
            d.frame_count == 0,
            !d.swapchains_ready,
            d.next_vsync_nanos == 0,
    {
        FrameLoopDriver {
            machine: SessionStateMachine::new(),
            tracking: TrackingContext::new(),
            frame_count: 0,
            swapchains_ready: false,
            next_vsync_nanos: 0,
        }
    }

    /// Feeds one polled runtime event to the session machine and the tracking
    /// context and returns the session call the loop owes for it.
    pub fn pump_event(&mut self, e: &SessionEvent) -> (action: EventAction)
        ensures
            final(self).machine == spec_step(old(self).machine, *e),
            final(self).tracking == spec_tracking_step(old(self).tracking, *e),
            action == spec_action(old(self).machine, *e),
            final(self).frame_count == old(self).frame_count,
            final(self).swapchains_ready == old(self).swapchains_ready,
            final(self).next_vsync_nanos == old(self).next_vsync_nanos,
    {
        match *e {
            SessionEvent::ReferenceSpaceChangePending { change } => {
                self.tracking.apply_reference_change(&change);
            },
            _ => {},
        }
        self.machine.handle_event(e)
    }

    /// Counts the new iteration and decides whether to terminate, idle, or
    /// proceed with frame work (with periodic housekeeping).
    pub fn begin_iteration(&mut self) -> (d: IterationDecision)
        requires
            old(self).frame_count < u64::MAX,
        ensures
            final(self).frame_count == old(self).frame_count + 1,
            final(self).machine == old(self).machine,
            final(self).tracking == old(self).tracking,
            final(self).swapchains_ready == old(self).swapchains_ready,
            final(self).next_vsync_nanos == old(self).next_vsync_nanos,
            d == spec_iteration_decision(old(self).machine, (old(self).frame_count + 1) as u64),
    {
        self.frame_count = self.frame_count + 1;
        if self.machine.terminated {
            IterationDecision::Terminate
        } else if !self.machine.running {
            IterationDecision::IdlePoll { millis: IDLE_POLL_MILLIS }
        } else {
            IterationDecision::RunFrame { housekeeping: self.frame_count % HOUSEKEEPING_PERIOD == 0 }
        }
    }

    /// Plans the steps of one running iteration from the frame-timing result
    /// and the located pose validity. Records the predicted display time as
    /// the next vsync time and marks the swapchains created — both only when
    /// this frame renders.
    pub fn plan_frame(
        &mut self,
        fs: &FrameState,
        validity: ViewValidity,
        app_exit: bool,
    ) -> (ops: Vec<FrameOp>)
        requires
            old(self).machine.running,
            !old(self).machine.terminated,
        ensures
            ops@ == spec_frame_ops(*fs, validity, old(self).swapchains_ready, app_exit),
            final(self).machine == old(self).machine,
            final(self).tracking == old(self).tracking,
            final(self).frame_count == old(self).frame_count,
            final(self).swapchains_ready == (old(self).swapchains_ready || fs.should_render),
            final(self).next_vsync_nanos == (if fs.should_render {
                fs.predicted_display_time_nanos
            } else {
                old(self).next_vsync_nanos
            }),
    {
        let mut ops: Vec<FrameOp> = Vec::new();
        ops.push(FrameOp::SyncActions);
        ops.push(FrameOp::BeginFrame);
        if !fs.should_render {
            ops.push(FrameOp::EndFrame { layers: LayerSubmission::NoLayers });
            proof {
                assert(ops@ =~= spec_frame_ops(*fs, validity, old(self).swapchains_ready, app_exit));
            }
            return ops;
        }
        self.next_vsync_nanos = fs.predicted_display_time_nanos;
        ops.push(FrameOp::RecordVsync);
        ops.push(FrameOp::LocateViews);
        if !self.swapchains_ready {
            ops.push(FrameOp::CreateSwapchains);
            self.swapchains_ready = true;
        }
        ops.push(FrameOp::AcquireImage { eye: Eye::Left });
        ops.push(FrameOp::AcquireImage { eye: Eye::Right });
        ops.push(FrameOp::PublishViews);
        ops.push(FrameOp::RunUpdate);
        ops.push(FrameOp::ReleaseImage { eye: Eye::Left });
        ops.push(FrameOp::ReleaseImage { eye: Eye::Right });
        let layers = if validity.position_valid && validity.orientation_valid {
            LayerSubmission::Stereo
        } else {
            LayerSubmission::NoLayers
        };
        ops.push(FrameOp::EndFrame { layers });
        ops.push(FrameOp::DispatchHaptics);
        if app_exit {
            ops.push(FrameOp::RequestExit);
        }
        proof {
            assert(ops@ =~= spec_frame_ops(*fs, validity, old(self).swapchains_ready, app_exit));
        }
        ops
    }
}

/// Swapchain acquire and release come in strict pairs per eye per rendered
/// frame: each eye is acquired exactly once, before the engine update, and
/// released exactly once, after it and before the frame-end submission.
pub proof fn lemma_acquire_release_pairing(
    fs: FrameState,
    validity: ViewValidity,
    swapchains_ready: bool,
    app_exit: bool,
)
    requires
        fs.should_render,
    ensures
        ({
            let ops = spec_frame_ops(fs, validity, swapchains_ready, app_exit);
            &&& (exists|i: int|
                0 <= i < ops.len() && #[trigger] ops[i] == (FrameOp::AcquireImage {
                    eye: Eye::Left,
                }))
            &&& (exists|i: int|
                0 <= i < ops.len() && #[trigger] ops[i] == (FrameOp::AcquireImage {
                    eye: Eye::Right,
                }))
            &&& (exists|i: int|
                0 <= i < ops.len() && #[trigger] ops[i] == (FrameOp::ReleaseImage {
                    eye: Eye::Left,
                }))
            &&& (exists|i: int|
                0 <= i < ops.len() && #[trigger] ops[i] == (FrameOp::ReleaseImage {
                    eye: Eye::Right,
                }))
            &&& (exists|i: int| 0 <= i < ops.len() && #[trigger] ops[i] == FrameOp::RunUpdate)
            &&& (forall|i: int, j: int|
                0 <= i < ops.len() && 0 <= j < ops.len() && #[trigger] ops[i] == #[trigger] ops[j]
                    && (ops[i] is AcquireImage || ops[i] is ReleaseImage || ops[i] == FrameOp::RunUpdate)
                    ==> i == j)
            &&& (forall|i: int, j: int|
                0 <= i < ops.len() && 0 <= j < ops.len() && #[trigger] ops[i] is AcquireImage
                    && #[trigger] ops[j] == FrameOp::RunUpdate ==> i < j)
            &&& (forall|i: int, j: int|
                0 <= i < ops.len() && 0 <= j < ops.len() && #[trigger] ops[i] is ReleaseImage
                    && #[trigger] ops[j] == FrameOp::RunUpdate ==> j < i)
            &&& (forall|i: int, j: int|
                0 <= i < ops.len() && 0 <= j < ops.len() && #[trigger] ops[i] is ReleaseImage
                    && #[trigger] ops[j] is EndFrame ==> i < j)
        }),
{
    let ops = spec_frame_ops(fs, validity, swapchains_ready, app_exit);
    lemma_rendered_frame_shape(fs, validity, swapchains_ready, app_exit);
    let base: int = if swapchains_ready { 4 } else { 5 };
    assert(ops[base] == (FrameOp::AcquireImage { eye: Eye::Left }));
    assert(ops[base + 1] == (FrameOp::AcquireImage { eye: Eye::Right }));
    assert(ops[base + 3] == FrameOp::RunUpdate);
    assert(ops[base + 4] == (FrameOp::ReleaseImage { eye: Eye::Left }));
    assert(ops[base + 5] == (FrameOp::ReleaseImage { eye: Eye::Right }));
}

/// The literal step list of a rendered frame, spelled out for each of the
/// four combinations of lazily-created swapchains and a pending exit.
proof fn lemma_rendered_frame_shape(
    fs: FrameState,
    validity: ViewValidity,
    swapchains_ready: bool,
    app_exit: bool,
)
    requires
        fs.should_render,
    ensures
        swapchains_ready ==> spec_frame_ops(fs, validity, swapchains_ready, app_exit)
            == seq![
            FrameOp::SyncActions,
            FrameOp::BeginFrame,
            FrameOp::RecordVsync,
            FrameOp::LocateViews,
            FrameOp::AcquireImage { eye: Eye::Left },
            FrameOp::AcquireImage { eye: Eye::Right },
            FrameOp::PublishViews,
            FrameOp::RunUpdate,
            FrameOp::ReleaseImage { eye: Eye::Left },
            FrameOp::ReleaseImage { eye: Eye::Right },
            FrameOp::EndFrame { layers: spec_layer_submission(validity) },
            FrameOp::DispatchHaptics,
        ] + (if app_exit {
            seq![FrameOp::RequestExit]
        } else {
            Seq::<FrameOp>::empty()
        }),
        !swapchains_ready ==> spec_frame_ops(fs, validity, swapchains_ready, app_exit)
            == seq![
            FrameOp::SyncActions,
            FrameOp::BeginFrame,
            FrameOp::RecordVsync,
            FrameOp::LocateViews,
            FrameOp::CreateSwapchains,
            FrameOp::AcquireImage { eye: Eye::Left },
            FrameOp::AcquireImage { eye: Eye::Right },
            FrameOp::PublishViews,
            FrameOp::RunUpdate,
            FrameOp::ReleaseImage { eye: Eye::Left },
            FrameOp::ReleaseImage { eye: Eye::Right },
            FrameOp::EndFrame { layers: spec_layer_submission(validity) },
            FrameOp::DispatchHaptics,
        ] + (if app_exit {
            seq![FrameOp::RequestExit]
        } else {
            Seq::<FrameOp>::empty()
        }),
{
    let ops = spec_frame_ops(fs, validity, swapchains_ready, app_exit);
    if swapchains_ready {
        assert(ops =~= seq![
            FrameOp::SyncActions,
            FrameOp::BeginFrame,
            FrameOp::RecordVsync,
            FrameOp::LocateViews,
            FrameOp::AcquireImage { eye: Eye::Left },
            FrameOp::AcquireImage { eye: Eye::Right },
            FrameOp::PublishViews,
            FrameOp::RunUpdate,
            FrameOp::ReleaseImage { eye: Eye::Left },
            FrameOp::ReleaseImage { eye: Eye::Right },
            FrameOp::EndFrame { layers: spec_layer_submission(validity) },
            FrameOp::DispatchHaptics,
        ] + (if app_exit {
            seq![FrameOp::RequestExit]
        } else {
            Seq::<FrameOp>::empty()
        }));
    } else {
        assert(ops =~= seq![
            FrameOp::SyncActions,
            FrameOp::BeginFrame,
            FrameOp::RecordVsync,
            FrameOp::LocateViews,
            FrameOp::CreateSwapchains,
            FrameOp::AcquireImage { eye: Eye::Left },
            FrameOp::AcquireImage { eye: Eye::Right },
            FrameOp::PublishViews,
            FrameOp::RunUpdate,
            FrameOp::ReleaseImage { eye: Eye::Left },
            FrameOp::ReleaseImage { eye: Eye::Right },
            FrameOp::EndFrame { layers: spec_layer_submission(validity) },
            FrameOp::DispatchHaptics,
        ] + (if app_exit {
            seq![FrameOp::RequestExit]
        } else {
            Seq::<FrameOp>::empty()
        }));
    }
}

/// A frame that should not render still begins and ends the frame
/// submission, with an empty layer list, and never runs the engine update.
pub proof fn lemma_no_render_empty_frame(
    fs: FrameState,
    validity: ViewValidity,
    swapchains_ready: bool,
    app_exit: bool,
)
    requires
        !fs.should_render,
    ensures
        ({
            let ops = spec_frame_ops(fs, validity, swapchains_ready, app_exit);
            &&& ops == seq![
                FrameOp::SyncActions,
                FrameOp::BeginFrame,
                FrameOp::EndFrame { layers: LayerSubmission::NoLayers },
            ]
            &&& (forall|i: int| 0 <= i < ops.len() ==> #[trigger] ops[i] != FrameOp::RunUpdate)
            &&& (forall|i: int| 0 <= i < ops.len() ==> !(#[trigger] ops[i] is AcquireImage))
        }),
{
}

/// When the located poses are not fully valid, the frame-end submission uses
/// an empty layer list even though the frame rendered and the engine update
/// still ran.
pub proof fn lemma_invalid_pose_empty_submission(
    fs: FrameState,
    validity: ViewValidity,
    swapchains_ready: bool,
    app_exit: bool,
)
    requires
        fs.should_render,
        !(validity.position_valid && validity.orientation_valid),
    ensures
        ({
            let ops = spec_frame_ops(fs, validity, swapchains_ready, app_exit);
            &&& (exists|i: int|
                0 <= i < ops.len() && #[trigger] ops[i] == (FrameOp::EndFrame {
                    layers: LayerSubmission::NoLayers,
                }))
            &&& (forall|i: int|
                0 <= i < ops.len() && #[trigger] ops[i] is EndFrame ==> ops[i] == (FrameOp::EndFrame {
                    layers: LayerSubmission::NoLayers,
                }))
            &&& (exists|i: int| 0 <= i < ops.len() && #[trigger] ops[i] == FrameOp::RunUpdate)
        }),
{
    let ops = spec_frame_ops(fs, validity, swapchains_ready, app_exit);
    lemma_rendered_frame_shape(fs, validity, swapchains_ready, app_exit);
    let base: int = if swapchains_ready { 4 } else { 5 };
    assert(ops[base + 3] == FrameOp::RunUpdate);
    assert(ops[base + 6] == (FrameOp::EndFrame { layers: LayerSubmission::NoLayers }));
}

} // verus!
