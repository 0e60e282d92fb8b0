//! The frame loop driver: iteration decisions, the per-frame step plan, and
//! the acquire/update/release/end protocol.

use openxr_loop::frame::{
    Eye, FrameLoopDriver, FrameOp, FrameState, IterationDecision, LayerSubmission, ViewValidity,
    HOUSEKEEPING_PERIOD, IDLE_POLL_MILLIS,
};
use openxr_loop::session::{SessionEvent, SessionState};
use openxr_loop::tracking::{PoseSample, ReferenceSpaceChange, ReferenceSpaceType};

fn running_driver() -> FrameLoopDriver {
    let mut d = FrameLoopDriver::new();
    d.pump_event(&SessionEvent::StateChanged { state: SessionState::Ready });
    d
}

const VALID: ViewValidity = ViewValidity { position_valid: true, orientation_valid: true };

#[test]
fn idle_poll_while_not_running() {
    let mut d = FrameLoopDriver::new();
    let decision = d.begin_iteration();
    assert_eq!(decision, IterationDecision::IdlePoll { millis: IDLE_POLL_MILLIS });
    assert_eq!(IDLE_POLL_MILLIS, 200);
}

#[test]
fn terminate_after_terminal_event() {
    let mut d = FrameLoopDriver::new();
    d.pump_event(&SessionEvent::InstanceLossPending);
    assert_eq!(d.begin_iteration(), IterationDecision::Terminate);
}

#[test]
fn housekeeping_every_thousandth_iteration() {
    let mut d = running_driver();
    for i in 1..=(HOUSEKEEPING_PERIOD + 1) {
        let decision = d.begin_iteration();
        let expected = i % HOUSEKEEPING_PERIOD == 0;
        assert_eq!(decision, IterationDecision::RunFrame { housekeeping: expected });
    }
    assert_eq!(d.frame_count, HOUSEKEEPING_PERIOD + 1);
}

#[test]
fn rendered_frame_plan_first_frame() {
    let mut d = running_driver();
    let fs = FrameState { predicted_display_time_nanos: 123_456, should_render: true };
    let ops = d.plan_frame(&fs, VALID, false);
    assert_eq!(
        ops,
        vec![
            FrameOp::SyncActions,
            FrameOp::BeginFrame,
            FrameOp::RecordVsync,
            FrameOp::LocateViews,
            FrameOp::CreateSwapchains,
            FrameOp::AcquireImage { eye: Eye::Left },
            FrameOp::AcquireImage { eye: Eye::Right },
            FrameOp::PublishViews,
            FrameOp::RunUpdate,
            FrameOp::ReleaseImage { eye: Eye::Left },
            FrameOp::ReleaseImage { eye: Eye::Right },
            FrameOp::EndFrame { layers: LayerSubmission::Stereo },
            FrameOp::DispatchHaptics,
        ]
    );
    assert_eq!(d.next_vsync_nanos, 123_456);
    assert!(d.swapchains_ready);
}

#[test]
fn swapchains_created_only_once() {
    let mut d = running_driver();
    let fs = FrameState { predicted_display_time_nanos: 1, should_render: true };
    let first = d.plan_frame(&fs, VALID, false);
    assert!(first.contains(&FrameOp::CreateSwapchains));
    let second = d.plan_frame(&fs, VALID, false);
    assert!(!second.contains(&FrameOp::CreateSwapchains));
}

#[test]
fn acquire_release_pairing_per_rendered_frame() {
    // Each eye acquired exactly once before the engine update, released
    // exactly once after it, and both releases precede the frame end.
    let mut d = running_driver();
    let fs = FrameState { predicted_display_time_nanos: 5, should_render: true };
    let ops = d.plan_frame(&fs, VALID, true);

    let pos = |op: &FrameOp| ops.iter().position(|o| o == op).unwrap();
    let count = |op: &FrameOp| ops.iter().filter(|o| *o == op).count();

    assert_eq!(count(&FrameOp::AcquireImage { eye: Eye::Left }), 1);
    assert_eq!(count(&FrameOp::AcquireImage { eye: Eye::Right }), 1);
    assert_eq!(count(&FrameOp::ReleaseImage { eye: Eye::Left }), 1);
    assert_eq!(count(&FrameOp::ReleaseImage { eye: Eye::Right }), 1);
    assert_eq!(count(&FrameOp::RunUpdate), 1);

    let update = pos(&FrameOp::RunUpdate);
    assert!(pos(&FrameOp::AcquireImage { eye: Eye::Left }) < update);
    assert!(pos(&FrameOp::AcquireImage { eye: Eye::Right }) < update);
    assert!(pos(&FrameOp::ReleaseImage { eye: Eye::Left }) > update);
    assert!(pos(&FrameOp::ReleaseImage { eye: Eye::Right }) > update);

    let end = ops
        .iter()
        .position(|o| matches!(o, FrameOp::EndFrame { .. }))
        .unwrap();
    assert!(pos(&FrameOp::ReleaseImage { eye: Eye::Left }) < end);
    assert!(pos(&FrameOp::ReleaseImage { eye: Eye::Right }) < end);
}

#[test]
fn no_render_still_begins_and_ends_with_empty_layers() {
    let mut d = running_driver();
    d.next_vsync_nanos = 42;
    let fs = FrameState { predicted_display_time_nanos: 900, should_render: false };
    let ops = d.plan_frame(&fs, VALID, true);
    assert_eq!(
        ops,
        vec![
            FrameOp::SyncActions,
            FrameOp::BeginFrame,
            FrameOp::EndFrame { layers: LayerSubmission::NoLayers },
        ]
    );
    // The engine-update callback must not run this iteration.
    let mut update_count = 0;
    for op in &ops {
        if *op == FrameOp::RunUpdate {
            update_count += 1;
        }
    }
    assert_eq!(update_count, 0);
    // The vsync time and swapchain state are untouched.
    assert_eq!(d.next_vsync_nanos, 42);
    assert!(!d.swapchains_ready);
}

#[test]
fn invalid_pose_submits_no_layers_but_still_updates() {
    let mut d = running_driver();
    let fs = FrameState { predicted_display_time_nanos: 7, should_render: true };
    let invalid = ViewValidity { position_valid: true, orientation_valid: false };
    let ops = d.plan_frame(&fs, invalid, false);
    assert!(ops.contains(&FrameOp::EndFrame { layers: LayerSubmission::NoLayers }));
    assert!(!ops.contains(&FrameOp::EndFrame { layers: LayerSubmission::Stereo }));
    assert!(ops.contains(&FrameOp::RunUpdate));

    let mut d2 = running_driver();
    let invalid_pos = ViewValidity { position_valid: false, orientation_valid: true };
    let ops2 = d2.plan_frame(&fs, invalid_pos, false);
    assert!(ops2.contains(&FrameOp::EndFrame { layers: LayerSubmission::NoLayers }));
}

#[test]
fn app_exit_requests_graceful_termination() {
    let mut d = running_driver();
    let fs = FrameState { predicted_display_time_nanos: 7, should_render: true };
    let ops = d.plan_frame(&fs, VALID, true);
    assert_eq!(ops.last(), Some(&FrameOp::RequestExit));

    let mut d2 = running_driver();
    let ops2 = d2.plan_frame(&fs, VALID, false);
    assert!(!ops2.contains(&FrameOp::RequestExit));
}

#[test]
fn reference_space_change_updates_tracking() {
    let mut d = FrameLoopDriver::new();
    let pose = PoseSample {
        orientation_x: 1,
        orientation_y: 2,
        orientation_z: 3,
        orientation_w: 4,
        position_x: 5,
        position_y: 6,
        position_z: 7,
    };
    let change = ReferenceSpaceChange {
        space_type: ReferenceSpaceType::Local,
        change_time_nanos: 999,
        pose_in_previous_space: pose,
    };
    d.pump_event(&SessionEvent::ReferenceSpaceChangePending { change });
    assert_eq!(d.tracking.space_type, ReferenceSpaceType::Local);
    assert_eq!(d.tracking.change_time_nanos, 999);
    assert_eq!(d.tracking.previous_pose_offset, pose);
}
