//! Presentation-facing state shared with the host engine: visibility,
//! interaction mode, environment blending, and the selection of a view
//! configuration and blend mode from what the runtime offers.

use vstd::prelude::*;

use crate::OpenXrFormFactor;

verus! {

/// How rendered content is combined with the user's surroundings.
#[derive(Clone, Copy, Debug, PartialEq, Eq, Hash, Structural)]
pub enum XrEnvironmentBlendMode {
    Opaque,
    AlphaBlend,
    Additive,
}

/// Whether interaction happens in world space (tracked controllers) or on a
/// screen (handheld devices).
#[derive(Clone, Copy, Debug, PartialEq, Eq, Hash, Structural)]
pub enum XrInteractionMode {
    ScreenSpace,
    WorldSpace,
}

/// What the runtime currently shows of the application's output.
#[derive(Clone, Copy, Debug, PartialEq, Eq, Hash, Structural)]
pub enum XrVisibilityState {
    VisibleFocused,
    VisibleUnfocused,
    Hidden,
}

/// The session modes an application can ask for.
#[derive(Clone, Copy, Debug, PartialEq, Eq, Hash, Structural)]
pub enum XrSessionMode {
    ImmersiveVR,
    ImmersiveAR,
    InlineVR,
    InlineAR,
}

/// The per-eye view arrangements a runtime can drive.
#[derive(Clone, Copy, Debug, PartialEq, Eq, Structural)]
pub enum ViewConfigurationType {
    PrimaryMono,
    PrimaryStereo,
    PrimaryQuadVarjo,
}

/// Implemented by display backends that expose their swapchain image handles.
pub trait XrPresentationSession: Send + Sync {
    fn get_swapchains(&mut self) -> Vec<Vec<u64>>;
}

/// The interaction mode implied by the device class: head-mounted displays
/// interact in world space, handheld devices on their screen.
pub fn interaction_mode_for(form_factor: OpenXrFormFactor) -> (m: XrInteractionMode)
    ensures
        m == (if form_factor == OpenXrFormFactor::HeadMountedDisplay {
            XrInteractionMode::WorldSpace
        } else {
            XrInteractionMode::ScreenSpace
        }),
{
    if form_factor == OpenXrFormFactor::HeadMountedDisplay {
        XrInteractionMode::WorldSpace
    } else {
        XrInteractionMode::ScreenSpace
    }
}

/// Decodes the runtime's numeric environment blend mode. Unknown codes yield
/// `None` rather than failing: the runtime may report values from newer
/// revisions of the protocol.
pub fn environment_blend_mode_from_raw(raw: i32) -> (m: Option<XrEnvironmentBlendMode>)
    ensures
        m == spec_environment_blend_mode_from_raw(raw),
{
    if raw == 1 {
        Some(XrEnvironmentBlendMode::Opaque)
    } else if raw == 2 {
        Some(XrEnvironmentBlendMode::Additive)
    } else if raw == 3 {
        Some(XrEnvironmentBlendMode::AlphaBlend)
    } else {
        None
    }
}

/// The decoding performed by `environment_blend_mode_from_raw`.
pub open spec fn spec_environment_blend_mode_from_raw(raw: i32) -> Option<XrEnvironmentBlendMode> {
    if raw == 1 {
        Some(XrEnvironmentBlendMode::Opaque)
    } else if raw == 2 {
        Some(XrEnvironmentBlendMode::Additive)
    } else if raw == 3 {
        Some(XrEnvironmentBlendMode::AlphaBlend)
    } else {
        None
    }
}

/// Whether a session mode presents fully synthetic content.
pub open spec fn spec_is_vr_mode(mode: XrSessionMode) -> bool {
    mode == XrSessionMode::ImmersiveVR || mode == XrSessionMode::InlineVR
}

/// The view configuration used for a session mode. Immersive sessions use the
/// quad arrangement when the runtime offers it and stereo otherwise; inline
/// sessions render a single view.
pub open spec fn spec_select_view_type(mode: XrSessionMode, has_quad_views: bool) -> ViewConfigurationType {
    match mode {
        XrSessionMode::ImmersiveVR | XrSessionMode::ImmersiveAR => if has_quad_views {
            ViewConfigurationType::PrimaryQuadVarjo
        } else {
            ViewConfigurationType::PrimaryStereo
        },
        XrSessionMode::InlineVR | XrSessionMode::InlineAR => ViewConfigurationType::PrimaryMono,
    }
}

/// Picks the view configuration for `mode`; see `spec_select_view_type`.
pub fn select_view_type(mode: XrSessionMode, has_quad_views: bool) -> (t: ViewConfigurationType)
    ensures
        t == spec_select_view_type(mode, has_quad_views),
{
    match mode {
        XrSessionMode::ImmersiveVR | XrSessionMode::ImmersiveAR => {
            if has_quad_views {
                ViewConfigurationType::PrimaryQuadVarjo
            } else {
                ViewConfigurationType::PrimaryStereo
            }
        },
        XrSessionMode::InlineVR | XrSessionMode::InlineAR => ViewConfigurationType::PrimaryMono,
    }
}

/// The blend mode chosen for a session mode from what the runtime advertises:
/// VR sessions need an opaque display; AR sessions prefer alpha blending and
/// fall back to additive blending.
pub open spec fn spec_select_blend_mode(
    mode: XrSessionMode,
    available: Seq<XrEnvironmentBlendMode>,
) -> Option<XrEnvironmentBlendMode> {
    if spec_is_vr_mode(mode) {
        if available.contains(XrEnvironmentBlendMode::Opaque) {
            Some(XrEnvironmentBlendMode::Opaque)
        } else {
            None
        }
    } else {
        if available.contains(XrEnvironmentBlendMode::AlphaBlend) {
            Some(XrEnvironmentBlendMode::AlphaBlend)
        } else if available.contains(XrEnvironmentBlendMode::Additive) {
            Some(XrEnvironmentBlendMode::Additive)
        } else {
            None
        }
    }
}

/// Whether `available` lists the blend mode `wanted`.
fn contains_blend_mode(available: &Vec<XrEnvironmentBlendMode>, wanted: XrEnvironmentBlendMode) -> (found: bool)
    ensures
        found == available@.contains(wanted),
{
    let mut i: usize = 0;
    while i < available.len()
        invariant
            i <= available@.len(),
            forall|k: int| 0 <= k < i ==> available@[k] != wanted,
        decreases available@.len() - i,
    {
        if available[i] == wanted {
            return true;
        }
        i = i + 1;
    }
    false
}

/// Picks the blend mode for `mode`; see `spec_select_blend_mode`.
pub fn select_blend_mode(
    mode: XrSessionMode,
    available: &Vec<XrEnvironmentBlendMode>,
) -> (m: Option<XrEnvironmentBlendMode>)
    ensures
        m == spec_select_blend_mode(mode, available@),
{
    let vr = mode == XrSessionMode::ImmersiveVR || mode == XrSessionMode::InlineVR;
    if vr {
        if contains_blend_mode(available, XrEnvironmentBlendMode::Opaque) {
            Some(XrEnvironmentBlendMode::Opaque)
        } else {
            None
        }
    } else {
        if contains_blend_mode(available, XrEnvironmentBlendMode::AlphaBlend) {
            Some(XrEnvironmentBlendMode::AlphaBlend)
        } else if contains_blend_mode(available, XrEnvironmentBlendMode::Additive) {
            Some(XrEnvironmentBlendMode::Additive)
        } else {
            None
        }
    }
}

/// The view configuration and blend mode for a session mode, given what the
/// runtime offers: the runtime's blend-mode list for the chosen view
/// configuration (`None` when the runtime refused to enumerate it) and whether
/// the quad-view arrangement is available. `None` means the mode cannot be
/// offered to the application.
pub fn get_system_info(
    mode: XrSessionMode,
    has_quad_views: bool,
    blend_modes: Option<&Vec<XrEnvironmentBlendMode>>,
) -> (info: Option<(ViewConfigurationType, XrEnvironmentBlendMode)>)
    ensures
        info == spec_get_system_info(
            mode,
            has_quad_views,
            match blend_modes {
                Some(v) => Some(v@),
                None => None,
            },
        ),
{
    match blend_modes {
        None => None,
        Some(available) => {
            let view_type = select_view_type(mode, has_quad_views);
            match select_blend_mode(mode, available) {
                Some(blend) => Some((view_type, blend)),
                None => None,
            }
        },
    }
}

/// The runtime's blend-mode support, one enumeration per view configuration
/// (`None` where the runtime refused the enumeration), plus whether the
/// quad-view arrangement is available.
#[derive(Clone, Debug)]
pub struct BlendModeSupport {
    pub has_quad_views: bool,
    pub stereo: Option<Vec<XrEnvironmentBlendMode>>,
    pub mono: Option<Vec<XrEnvironmentBlendMode>>,
    pub quad: Option<Vec<XrEnvironmentBlendMode>>,
}

/// The blend-mode list reported for one view configuration.
pub open spec fn spec_blend_modes_for(
    support: BlendModeSupport,
    t: ViewConfigurationType,
) -> Option<Seq<XrEnvironmentBlendMode>> {
    let listed = match t {
        ViewConfigurationType::PrimaryStereo => support.stereo,
        ViewConfigurationType::PrimaryMono => support.mono,
        ViewConfigurationType::PrimaryQuadVarjo => support.quad,
    };
    match listed {
        Some(v) => Some(v@),
        None => None,
    }
}

/// Whether a session mode can be offered given the runtime's support.
pub open spec fn spec_mode_available(support: BlendModeSupport, mode: XrSessionMode) -> bool {
    spec_get_system_info(
        mode,
        support.has_quad_views,
        spec_blend_modes_for(support, spec_select_view_type(mode, support.has_quad_views)),
    ) is Some
}

/// The session modes offered to the application, in the fixed preference
/// order immersive-VR, immersive-AR, inline-VR, inline-AR.
pub open spec fn spec_available_session_modes(support: BlendModeSupport) -> Seq<XrSessionMode> {
    (if spec_mode_available(support, XrSessionMode::ImmersiveVR) {
        seq![XrSessionMode::ImmersiveVR]
    } else {
        Seq::<XrSessionMode>::empty()
    }) + (if spec_mode_available(support, XrSessionMode::ImmersiveAR) {
        seq![XrSessionMode::ImmersiveAR]
    } else {
        Seq::<XrSessionMode>::empty()
    }) + (if spec_mode_available(support, XrSessionMode::InlineVR) {
        seq![XrSessionMode::InlineVR]
    } else {
        Seq::<XrSessionMode>::empty()
    }) + (if spec_mode_available(support, XrSessionMode::InlineAR) {
        seq![XrSessionMode::InlineAR]
    } else {
        Seq::<XrSessionMode>::empty()
    })
}

/// The blend-mode list for one view configuration, by reference.
fn blend_modes_for<'a>(support: &'a BlendModeSupport, t: ViewConfigurationType) -> (r: Option<
    &'a Vec<XrEnvironmentBlendMode>,
>)
    ensures
        spec_blend_modes_for(*support, t) == (match r {
            Some(v) => Some(v@),
            None => None,
        }),
{
    match t {
        ViewConfigurationType::PrimaryStereo => support.stereo.as_ref(),
        ViewConfigurationType::PrimaryMono => support.mono.as_ref(),
        ViewConfigurationType::PrimaryQuadVarjo => support.quad.as_ref(),
    }
}

/// Whether one session mode can be offered; see `spec_mode_available`.
fn mode_available(support: &BlendModeSupport, mode: XrSessionMode) -> (a: bool)
    ensures
        a == spec_mode_available(*support, mode),
{
    let view_type = select_view_type(mode, support.has_quad_views);
    get_system_info(mode, support.has_quad_views, blend_modes_for(support, view_type)).is_some()
}

/// Filters the fixed candidate list of session modes down to those the
/// runtime supports; see `spec_available_session_modes`.
pub fn available_session_modes(support: &BlendModeSupport) -> (modes: Vec<XrSessionMode>)
    ensures
        modes@ == spec_available_session_modes(*support),
{
    let mut modes: Vec<XrSessionMode> = Vec::new();
    if mode_available(support, XrSessionMode::ImmersiveVR) {
        modes.push(XrSessionMode::ImmersiveVR);
    }
    if mode_available(support, XrSessionMode::ImmersiveAR) {
        modes.push(XrSessionMode::ImmersiveAR);
    }
    if mode_available(support, XrSessionMode::InlineVR) {
        modes.push(XrSessionMode::InlineVR);
    }
    if mode_available(support, XrSessionMode::InlineAR) {
        modes.push(XrSessionMode::InlineAR);
    }
    proof {
        assert(modes@ =~= spec_available_session_modes(*support));
    }
    modes
}

/// What `get_system_info` returns for each capability report.
pub open spec fn spec_get_system_info(
    mode: XrSessionMode,
    has_quad_views: bool,
    blend_modes: Option<Seq<XrEnvironmentBlendMode>>,
) -> Option<(ViewConfigurationType, XrEnvironmentBlendMode)> {
    match blend_modes {
        None => None,
        Some(available) => match spec_select_blend_mode(mode, available) {
            Some(blend) => Some((spec_select_view_type(mode, has_quad_views), blend)),
            None => None,
        },
    }
}

} // verus!
