//! Setup-time configuration: extension negotiation, system-info selection,
//! interaction binding tables, swapchain resolutions and rings, error
//! classification and the tracking context.

use openxr_loop::extensions::{
    check_vulkan_binding, selected_extensions, ExtensionSet, ERROR_EXTENSION_NOT_PRESENT,
};
use openxr_loop::interaction::{setup_interaction, XrActionType, XrSystem};
use openxr_loop::presentation::{
    available_session_modes, environment_blend_mode_from_raw, get_system_info,
    interaction_mode_for, select_blend_mode, select_view_type, BlendModeSupport,
    ViewConfigurationType, XrEnvironmentBlendMode, XrInteractionMode, XrSessionMode,
};
use openxr_loop::swapchain::{negotiate_resolutions, Extent2d, EyeSwapchains, ViewConfig};
use openxr_loop::tracking::{PoseSample, TrackingContext, ReferenceSpaceType, POSE_COMPONENT_ONE};
use openxr_loop::{
    classify_system_error, diagnose_setup_failure, fallback_form_factor, OpenXrError,
    OpenXrFormFactor, SetupDiagnosis, ERROR_FORM_FACTOR_UNAVAILABLE, ERROR_FORM_FACTOR_UNSUPPORTED,
    ERROR_RUNTIME_FAILURE,
};

#[test]
fn extension_selection_intersects_with_availability() {
    let mut available = ExtensionSet::default();
    available.ext_hand_tracking = true;
    available.fb_display_refresh_rate = true;
    available.ext_debug_utils = true;
    let exts = selected_extensions(&available, false);
    assert!(exts.ext_hand_tracking);
    assert!(exts.fb_display_refresh_rate);
    // Required unconditionally for the session binding.
    assert!(exts.khr_vulkan_enable2);
    // Debug utilities only in debug builds.
    assert!(!exts.ext_debug_utils);
    let debug_exts = selected_extensions(&available, true);
    assert!(debug_exts.ext_debug_utils);
    // Never requested when unavailable.
    assert!(!exts.varjo_quad_views);
    assert!(!exts.msft_hand_interaction);
}

#[test]
fn unavailable_extensions_are_never_requested() {
    let available = ExtensionSet::default();
    let exts = selected_extensions(&available, true);
    let expected = ExtensionSet {
        khr_vulkan_enable2: true,
        ..ExtensionSet::default()
    };
    assert_eq!(exts, expected);
}

#[test]
fn vulkan_binding_is_required() {
    let selected = selected_extensions(&ExtensionSet::default(), false);
    assert_eq!(check_vulkan_binding(&selected), Ok(()));
    assert_eq!(
        check_vulkan_binding(&ExtensionSet::default()),
        Err(ERROR_EXTENSION_NOT_PRESENT)
    );
}

#[test]
fn view_type_selection() {
    assert_eq!(
        select_view_type(XrSessionMode::ImmersiveVR, false),
        ViewConfigurationType::PrimaryStereo
    );
    assert_eq!(
        select_view_type(XrSessionMode::ImmersiveAR, true),
        ViewConfigurationType::PrimaryQuadVarjo
    );
    assert_eq!(
        select_view_type(XrSessionMode::InlineVR, true),
        ViewConfigurationType::PrimaryMono
    );
    assert_eq!(
        select_view_type(XrSessionMode::InlineAR, false),
        ViewConfigurationType::PrimaryMono
    );
}

#[test]
fn blend_mode_selection_vr_needs_opaque() {
    let modes = vec![XrEnvironmentBlendMode::Additive, XrEnvironmentBlendMode::Opaque];
    assert_eq!(
        select_blend_mode(XrSessionMode::ImmersiveVR, &modes),
        Some(XrEnvironmentBlendMode::Opaque)
    );
    let no_opaque = vec![XrEnvironmentBlendMode::Additive];
    assert_eq!(select_blend_mode(XrSessionMode::ImmersiveVR, &no_opaque), None);
}

#[test]
fn blend_mode_selection_ar_prefers_alpha_blend() {
    let both = vec![XrEnvironmentBlendMode::Additive, XrEnvironmentBlendMode::AlphaBlend];
    assert_eq!(
        select_blend_mode(XrSessionMode::ImmersiveAR, &both),
        Some(XrEnvironmentBlendMode::AlphaBlend)
    );
    let additive_only = vec![XrEnvironmentBlendMode::Additive];
    assert_eq!(
        select_blend_mode(XrSessionMode::InlineAR, &additive_only),
        Some(XrEnvironmentBlendMode::Additive)
    );
    let opaque_only = vec![XrEnvironmentBlendMode::Opaque];
    assert_eq!(select_blend_mode(XrSessionMode::ImmersiveAR, &opaque_only), None);
}

#[test]
fn system_info_combines_view_type_and_blend_mode() {
    let modes = vec![XrEnvironmentBlendMode::Opaque];
    assert_eq!(
        get_system_info(XrSessionMode::ImmersiveVR, false, Some(&modes)),
        Some((ViewConfigurationType::PrimaryStereo, XrEnvironmentBlendMode::Opaque))
    );
    assert_eq!(get_system_info(XrSessionMode::ImmersiveVR, false, None), None);
}

#[test]
fn available_modes_filtered_by_support() {
    let support = BlendModeSupport {
        has_quad_views: false,
        stereo: Some(vec![XrEnvironmentBlendMode::Opaque]),
        mono: Some(vec![XrEnvironmentBlendMode::AlphaBlend]),
        quad: None,
    };
    let modes = available_session_modes(&support);
    // Stereo offers only opaque: immersive VR works, immersive AR does not.
    // Mono offers only alpha-blend: inline AR works, inline VR does not.
    assert_eq!(modes, vec![XrSessionMode::ImmersiveVR, XrSessionMode::InlineAR]);
}

#[test]
fn blend_mode_decoding() {
    assert_eq!(environment_blend_mode_from_raw(1), Some(XrEnvironmentBlendMode::Opaque));
    assert_eq!(environment_blend_mode_from_raw(2), Some(XrEnvironmentBlendMode::Additive));
    assert_eq!(environment_blend_mode_from_raw(3), Some(XrEnvironmentBlendMode::AlphaBlend));
    assert_eq!(environment_blend_mode_from_raw(0), None);
    assert_eq!(environment_blend_mode_from_raw(4), None);
}

#[test]
fn interaction_mode_follows_form_factor() {
    assert_eq!(
        interaction_mode_for(OpenXrFormFactor::HeadMountedDisplay),
        XrInteractionMode::WorldSpace
    );
    assert_eq!(interaction_mode_for(OpenXrFormFactor::Handheld), XrInteractionMode::ScreenSpace);
}

#[test]
fn standalone_binding_table() {
    let mut system = XrSystem::new(vec![XrSessionMode::ImmersiveVR]);
    setup_interaction(&mut system, true);
    let profiles = system.action_set();
    assert_eq!(profiles.len(), 1);
    let p = &profiles[0];
    assert_eq!(p.profile, "/interaction_profiles/oculus/touch_controller");
    assert!(p.is_tracked);
    assert!(p.has_haptics);
    assert_eq!(p.bindings.len(), 4);
    assert_eq!(p.bindings[0].0.name, "left_trigger");
    assert_eq!(
        p.bindings[0].0.action_type,
        XrActionType::Button { touch: true, click: false, value: true }
    );
    assert_eq!(p.bindings[0].1, "/user/hand/left/input/trigger");
    assert_eq!(p.bindings[1].0.name, "left_primary");
    assert_eq!(p.bindings[1].1, "/user/hand/left/input/x");
    assert_eq!(p.bindings[2].0.name, "right_trigger");
    assert_eq!(p.bindings[2].1, "/user/hand/right/input/trigger");
    assert_eq!(p.bindings[3].0.name, "right_primary");
    assert_eq!(p.bindings[3].1, "/user/hand/right/input/a");
}

#[test]
fn desktop_binding_table() {
    let mut system = XrSystem::new(vec![XrSessionMode::ImmersiveVR, XrSessionMode::InlineVR]);
    setup_interaction(&mut system, false);
    let profiles = system.action_set();
    assert_eq!(profiles.len(), 1);
    let p = &profiles[0];
    assert_eq!(p.profile, "/interaction_profiles/valve/index_controller");
    assert_eq!(p.bindings.len(), 6);
    assert_eq!(p.bindings[0].0.name, "left_trigger");
    assert_eq!(
        p.bindings[0].0.action_type,
        XrActionType::Button { touch: true, click: true, value: true }
    );
    assert_eq!(p.bindings[2].0.name, "left_secondary");
    assert_eq!(p.bindings[2].1, "/user/hand/left/input/b");
    assert_eq!(p.bindings[5].0.name, "right_secondary");
    assert_eq!(p.bindings[5].1, "/user/hand/right/input/a");
    // The selected mode is untouched by installing bindings.
    assert_eq!(system.selected_session_mode(), XrSessionMode::ImmersiveVR);
}

#[test]
fn resolutions_pair_left_and_right_views() {
    let configs = vec![
        ViewConfig { recommended_width: 1832, recommended_height: 1920 },
        ViewConfig { recommended_width: 1840, recommended_height: 1928 },
    ];
    let (left, right) = negotiate_resolutions(&configs).unwrap();
    assert_eq!(left, Extent2d { width: 1832, height: 1920 });
    assert_eq!(right, Extent2d { width: 1840, height: 1928 });
    let too_few = vec![ViewConfig { recommended_width: 1, recommended_height: 1 }];
    assert!(negotiate_resolutions(&too_few).is_none());
}

#[test]
fn swapchain_ring_cycles_in_order() {
    let left_res = Extent2d { width: 8, height: 8 };
    let right_res = Extent2d { width: 8, height: 8 };
    let mut chains = EyeSwapchains::new(left_res, right_res, 3);
    assert_eq!(chains.left.acquire(), 0);
    assert_eq!(chains.right.acquire(), 0);
    chains.left.release();
    chains.right.release();
    assert_eq!(chains.left.acquire(), 1);
    chains.left.release();
    assert_eq!(chains.left.acquire(), 2);
    chains.left.release();
    // The ring wraps back to the first image.
    assert_eq!(chains.left.acquire(), 0);
    chains.left.release();
    assert_eq!(chains.right.acquire(), 1);
    chains.right.release();
}

#[test]
fn form_factor_fallback_order() {
    assert_eq!(
        fallback_form_factor(OpenXrFormFactor::HeadMountedDisplay),
        Some(OpenXrFormFactor::Handheld)
    );
    assert_eq!(fallback_form_factor(OpenXrFormFactor::Handheld), None);
}

#[test]
fn setup_failure_diagnosis() {
    assert_eq!(
        diagnose_setup_failure(&OpenXrError::UnsupportedFormFactor),
        SetupDiagnosis::NoAvailableFormFactor
    );
    assert_eq!(
        diagnose_setup_failure(&OpenXrError::UnavailableFormFactor),
        SetupDiagnosis::NoAvailableFormFactor
    );
    assert_eq!(
        diagnose_setup_failure(&OpenXrError::InstanceCreation { code: ERROR_RUNTIME_FAILURE }),
        SetupDiagnosis::HeadsetNotConnected
    );
    assert_eq!(
        diagnose_setup_failure(&OpenXrError::InstanceCreation { code: -1 }),
        SetupDiagnosis::ContextCreationFailed
    );
    assert_eq!(
        diagnose_setup_failure(&OpenXrError::GraphicsCreation),
        SetupDiagnosis::ContextCreationFailed
    );
    assert_eq!(
        diagnose_setup_failure(&OpenXrError::SwapchainCreation { code: -2 }),
        SetupDiagnosis::ContextCreationFailed
    );
}

#[test]
fn system_error_classification() {
    assert_eq!(
        classify_system_error(ERROR_FORM_FACTOR_UNSUPPORTED),
        Some(OpenXrError::UnsupportedFormFactor)
    );
    assert_eq!(
        classify_system_error(ERROR_FORM_FACTOR_UNAVAILABLE),
        Some(OpenXrError::UnavailableFormFactor)
    );
    assert_eq!(classify_system_error(ERROR_RUNTIME_FAILURE), None);
    assert_eq!(classify_system_error(0), None);
}

#[test]
fn tracking_starts_at_identity_stage() {
    let t = TrackingContext::new();
    assert_eq!(t.space_type, ReferenceSpaceType::Stage);
    assert_eq!(t.change_time_nanos, 0);
    let identity = PoseSample::identity();
    assert_eq!(t.previous_pose_offset, identity);
    assert_eq!(identity.orientation_w, POSE_COMPONENT_ONE);
    assert_eq!(identity.position_x, 0);
}
