//! The interaction configuration: logical input actions bound to runtime
//! paths, grouped by interaction profile. The binding tables are immutable
//! configuration selected once at session setup by a platform heuristic: one
//! table for the standalone all-in-one headset controller scheme, a different
//! table otherwise.

use vstd::prelude::*;

use crate::presentation::XrSessionMode;

verus! {

/// The kind of input behind a logical action. Buttons report touch, click
/// and analog value channels as the profile offers them.
#[derive(Clone, Copy, Debug, PartialEq, Eq, Structural)]
pub enum XrActionType {
    Button { touch: bool, click: bool, value: bool },
}

/// A logical input action: its name as the engine sees it and the channels
/// it reports.
#[derive(Clone, Debug)]
pub struct XrActionDescriptor {
    pub name: String,
    pub action_type: XrActionType,
}

/// One interaction profile: its runtime path and the list of (action,
/// runtime binding path) pairs, with whether the controllers are pose-tracked and
/// support haptic output.
#[derive(Clone, Debug)]
pub struct XrProfileDescriptor {
    pub profile: String,
    pub bindings: Vec<(XrActionDescriptor, String)>,
    pub is_tracked: bool,
    pub has_haptics: bool,
}

/// The session-mode choice and action-set configuration the embedding
/// application fills in before the session starts.
#[derive(Clone, Debug)]
pub struct XrSystem {
    pub available_session_modes: Vec<XrSessionMode>,
    pub selected_mode: XrSessionMode,
    pub profiles: Vec<XrProfileDescriptor>,
}

impl XrSystem {
    /// A system offering the given session modes, with the first one
    /// selected and no action set yet.
    pub fn new(available_session_modes: Vec<XrSessionMode>) -> (s: XrSystem)
        requires
            available_session_modes@.len() > 0,
        ensures
            s.available_session_modes == available_session_modes,
            s.selected_mode == available_session_modes@[0],
            s.profiles@.len() == 0,
    {
        let selected_mode = available_session_modes[0];
        XrSystem { available_session_modes, selected_mode, profiles: Vec::new() }
    }

    /// The session mode the application will run in.
    pub fn selected_session_mode(&self) -> (m: XrSessionMode)
        ensures
            m == self.selected_mode,
    {
        self.selected_mode
    }

    /// Replaces the action-set configuration.
    pub fn set_action_set(&mut self, profiles: Vec<XrProfileDescriptor>)
        ensures
            final(self).profiles == profiles,
            final(self).available_session_modes == old(self).available_session_modes,
            final(self).selected_mode == old(self).selected_mode,
    {
        self.profiles = profiles;
    }

    /// The configured action set.
    pub fn action_set(&self) -> (p: &Vec<XrProfileDescriptor>)
        ensures
            *p == self.profiles,
    {
        &self.profiles
    }
}

/// Whether a binding pairs the named action, with the given button channels,
/// to the given runtime path.
pub open spec fn spec_binding_is(
    b: (XrActionDescriptor, String),
    name: Seq<char>,
    touch: bool,
    click: bool,
    value: bool,
    path: Seq<char>,
) -> bool {
    &&& b.0.name@ == name
    &&& b.0.action_type == (XrActionType::Button { touch, click, value })
    &&& b.1@ == path
}

/// The binding table for the standalone headset's touch controllers.
pub open spec fn spec_oculus_touch_bindings(bs: Seq<(XrActionDescriptor, String)>) -> bool {
    &&& bs.len() == 4
    &&& spec_binding_is(bs[0], "left_trigger"@, true, false, true, "/user/hand/left/input/trigger"@)
    &&& spec_binding_is(bs[1], "left_primary"@, true, true, false, "/user/hand/left/input/x"@)
    &&& spec_binding_is(
        bs[2],
        "right_trigger"@,
        true,
        false,
        true,
        "/user/hand/right/input/trigger"@,
    )
    &&& spec_binding_is(bs[3], "right_primary"@, true, true, false, "/user/hand/right/input/a"@)
}

/// The binding table for the desktop index-controller scheme.
pub open spec fn spec_valve_index_bindings(bs: Seq<(XrActionDescriptor, String)>) -> bool {
    &&& bs.len() == 6
    &&& spec_binding_is(bs[0], "left_trigger"@, true, true, true, "/user/hand/left/input/trigger"@)
    &&& spec_binding_is(bs[1], "left_primary"@, true, true, false, "/user/hand/left/input/a"@)
    &&& spec_binding_is(bs[2], "left_secondary"@, true, true, false, "/user/hand/left/input/b"@)
    &&& spec_binding_is(
        bs[3],
        "right_trigger"@,
        true,
        true,
        true,
        "/user/hand/right/input/trigger"@,
    )
    &&& spec_binding_is(bs[4], "right_primary"@, true, true, false, "/user/hand/right/input/a"@)
    &&& spec_binding_is(bs[5], "right_secondary"@, true, true, false, "/user/hand/right/input/a"@)
}

/// The full profile owed for each platform: the oculus-touch table on
/// standalone headsets, the index-controller table otherwise, both tracked
/// and haptic-capable.
pub open spec fn spec_interaction_profile(p: XrProfileDescriptor, standalone: bool) -> bool {
    &&& p.is_tracked
    &&& p.has_haptics
    &&& if standalone {
        p.profile@ == "/interaction_profiles/oculus/touch_controller"@
            && spec_oculus_touch_bindings(p.bindings@)
    } else {
        p.profile@ == "/interaction_profiles/valve/index_controller"@
            && spec_valve_index_bindings(p.bindings@)
    }
}

/// One (action, runtime path) binding with button channels.
fn binding(name: &str, touch: bool, click: bool, value: bool, path: &str) -> (b: (
    XrActionDescriptor,
    String,
))
    ensures
        spec_binding_is(b, name@, touch, click, value, path@),
{
    (
        XrActionDescriptor {
            name: String::from_str(name),
            action_type: XrActionType::Button { touch, click, value },
        },
        String::from_str(path),
    )
}

/// Installs the platform's binding table as the system's action set:
/// standalone headsets get the touch-controller table, everything else the
/// index-controller table. The selected session mode and the offered modes
/// are untouched.
pub fn setup_interaction(system: &mut XrSystem, standalone: bool)
    ensures
        final(system).profiles@.len() == 1,
        spec_interaction_profile(final(system).profiles@[0], standalone),
        final(system).available_session_modes == old(system).available_session_modes,
        final(system).selected_mode == old(system).selected_mode,
{
    let profile = if standalone {
        let mut bindings: Vec<(XrActionDescriptor, String)> = Vec::new();
        bindings.push(binding("left_trigger", true, false, true, "/user/hand/left/input/trigger"));
        bindings.push(binding("left_primary", true, true, false, "/user/hand/left/input/x"));
        bindings.push(
            binding("right_trigger", true, false, true, "/user/hand/right/input/trigger"),
        );
        bindings.push(binding("right_primary", true, true, false, "/user/hand/right/input/a"));
        XrProfileDescriptor {
            profile: String::from_str("/interaction_profiles/oculus/touch_controller"),
            bindings,
            is_tracked: true,
            has_haptics: true,
        }
    } else {
        let mut bindings: Vec<(XrActionDescriptor, String)> = Vec::new();
        bindings.push(binding("left_trigger", true, true, true, "/user/hand/left/input/trigger"));
        bindings.push(binding("left_primary", true, true, false, "/user/hand/left/input/a"));
        bindings.push(binding("left_secondary", true, true, false, "/user/hand/left/input/b"));
        bindings.push(binding("right_trigger", true, true, true, "/user/hand/right/input/trigger"));
        bindings.push(binding("right_primary", true, true, false, "/user/hand/right/input/a"));
        bindings.push(binding("right_secondary", true, true, false, "/user/hand/right/input/a"));
        XrProfileDescriptor {
            profile: String::from_str("/interaction_profiles/valve/index_controller"),
            bindings,
            is_tracked: true,
            has_haptics: true,
        }
    };
    let mut profiles: Vec<XrProfileDescriptor> = Vec::new();
    profiles.push(profile);
    system.set_action_set(profiles);
}

} // verus!
