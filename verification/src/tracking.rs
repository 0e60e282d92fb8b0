//! The tracking context: the reference-space state that pose queries compose
//! into reported poses. The frame loop only stores the latest change the
//! runtime announces; consumers read it on demand, independently of the frame
//! cadence.

use vstd::prelude::*;

verus! {

/// The coordinate frame poses are reported against.
#[derive(Clone, Copy, Debug, PartialEq, Eq, Structural)]
pub enum ReferenceSpaceType {
    View,
    Local,
    Stage,
    Other,
}

/// The 32-bit encoding of the real number one in a pose component.
pub const POSE_COMPONENT_ONE: u32 = 0x3F80_0000;

/// A rigid pose as the runtime reports it: an orientation quaternion and a
/// position vector. Each component is carried as its raw 32-bit encoding; the
/// loop never computes with the components, it only stores the latest values
/// and republishes them to pose consumers.
#[derive(Clone, Copy, Debug, PartialEq, Eq, Structural)]
pub struct PoseSample {
    pub orientation_x: u32,
    pub orientation_y: u32,
    pub orientation_z: u32,
    pub orientation_w: u32,
    pub position_x: u32,
    pub position_y: u32,
    pub position_z: u32,
}

impl PoseSample {
    /// The identity pose: no rotation, no translation.
    pub fn identity() -> (p: PoseSample)
        ensures
            p == spec_identity_pose(),
    {
        PoseSample {
            orientation_x: 0,
            orientation_y: 0,
            orientation_z: 0,
            orientation_w: POSE_COMPONENT_ONE,
            position_x: 0,
            position_y: 0,
            position_z: 0,
        }
    }
}

/// The identity pose value.
pub open spec fn spec_identity_pose() -> PoseSample {
    PoseSample {
        orientation_x: 0,
        orientation_y: 0,
        orientation_z: 0,
        orientation_w: POSE_COMPONENT_ONE,
        position_x: 0,
        position_y: 0,
        position_z: 0,
    }
}

/// A pending reference-space change announced by the runtime: from
/// `change_time_nanos` on, poses are reported against the new space, and
/// `pose_in_previous_space` places the new space in the old one.
#[derive(Clone, Copy, Debug, PartialEq, Eq, Structural)]
pub struct ReferenceSpaceChange {
    pub space_type: ReferenceSpaceType,
    pub change_time_nanos: i64,
    pub pose_in_previous_space: PoseSample,
}

/// The state pose consumers compose into reported poses: the latest
/// reference-space change, or the initial stage space when none arrived yet.
#[derive(Clone, Copy, Debug, PartialEq, Eq, Structural)]
pub struct TrackingContext {
    pub space_type: ReferenceSpaceType,
    pub change_time_nanos: i64,
    pub previous_pose_offset: PoseSample,
}

impl TrackingContext {
    /// The state before any change event: the stage space with no offset.
    pub fn new() -> (t: TrackingContext)
        ensures
            t == spec_initial_tracking(),
    {
        TrackingContext {
            space_type: ReferenceSpaceType::Stage,
            change_time_nanos: 0,
            previous_pose_offset: PoseSample::identity(),
        }
    }

    /// Records a reference-space change. Only the latest change is kept; a
    /// newer announcement fully replaces the previous one.
    pub fn apply_reference_change(&mut self, change: &ReferenceSpaceChange)
        ensures
            final(self).space_type == change.space_type,
            final(self).change_time_nanos == change.change_time_nanos,
            final(self).previous_pose_offset == change.pose_in_previous_space,
    {
        self.space_type = change.space_type;
        self.change_time_nanos = change.change_time_nanos;
        self.previous_pose_offset = change.pose_in_previous_space;
    }
}

/// The tracking state before any reference-space change.
pub open spec fn spec_initial_tracking() -> TrackingContext {
    TrackingContext {
        space_type: ReferenceSpaceType::Stage,
        change_time_nanos: 0,
        previous_pose_offset: spec_identity_pose(),
    }
}

} // verus!
