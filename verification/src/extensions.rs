//! Negotiation of optional runtime extensions: the fixed set this loop can
//! make use of, intersected with what the runtime advertises. Unsupported or
//! unneeded extensions are never requested; a missing extension downgrades
//! the feature silently instead of erroring.

use vstd::prelude::*;

verus! {

/// Runtime result code: a required extension is not present.
pub const ERROR_EXTENSION_NOT_PRESENT: i32 = -9;

/// The optional runtime extensions this loop knows about. Each flag says
/// whether the extension is present (in an availability report) or requested
/// (in a selection).
#[derive(Clone, Copy, Debug, PartialEq, Eq, Structural)]
pub struct ExtensionSet {
    pub khr_composition_layer_depth: bool,
    pub khr_vulkan_enable: bool,
    pub khr_vulkan_enable2: bool,
    pub ext_debug_utils: bool,
    pub ext_eye_gaze_interaction: bool,
    pub ext_hand_tracking: bool,
    pub ext_hp_mixed_reality_controller: bool,
    pub ext_performance_settings: bool,
    pub ext_samsung_odyssey_controller: bool,
    pub ext_thermal_query: bool,
    pub fb_color_space: bool,
    pub fb_display_refresh_rate: bool,
    pub htc_vive_cosmos_controller_interaction: bool,
    pub huawei_controller_interaction: bool,
    pub msft_hand_interaction: bool,
    pub msft_secondary_view_configuration: bool,
    pub msft_spatial_anchor: bool,
    pub varjo_quad_views: bool,
}

/// The set with no extension present.
pub open spec fn spec_no_extensions() -> ExtensionSet {
    ExtensionSet {
        khr_composition_layer_depth: false,
        khr_vulkan_enable: false,
        khr_vulkan_enable2: false,
        ext_debug_utils: false,
        ext_eye_gaze_interaction: false,
        ext_hand_tracking: false,
        ext_hp_mixed_reality_controller: false,
        ext_performance_settings: false,
        ext_samsung_odyssey_controller: false,
        ext_thermal_query: false,
        fb_color_space: false,
        fb_display_refresh_rate: false,
        htc_vive_cosmos_controller_interaction: false,
        huawei_controller_interaction: false,
        msft_hand_interaction: false,
        msft_secondary_view_configuration: false,
        msft_spatial_anchor: false,
        varjo_quad_views: false,
    }
}

impl Default for ExtensionSet {
    /// The empty request: nothing selected.
    fn default() -> (s: ExtensionSet)
        ensures
            s == spec_no_extensions(),
    {
        ExtensionSet {
            khr_composition_layer_depth: false,
            khr_vulkan_enable: false,
            khr_vulkan_enable2: false,
            ext_debug_utils: false,
            ext_eye_gaze_interaction: false,
            ext_hand_tracking: false,
            ext_hp_mixed_reality_controller: false,
            ext_performance_settings: false,
            ext_samsung_odyssey_controller: false,
            ext_thermal_query: false,
            fb_color_space: false,
            fb_display_refresh_rate: false,
            htc_vive_cosmos_controller_interaction: false,
            huawei_controller_interaction: false,
            msft_hand_interaction: false,
            msft_secondary_view_configuration: false,
            msft_spatial_anchor: false,
            varjo_quad_views: false,
        }
    }
}

/// The extensions requested given what the runtime advertises: every desired
/// extension is taken exactly when available, the Vulkan session binding is
/// required unconditionally, and debug utilities are requested only in debug
/// builds and only when available.
pub open spec fn spec_selected_extensions(available: ExtensionSet, debug_build: bool) -> ExtensionSet {
    ExtensionSet {
        khr_composition_layer_depth: available.khr_composition_layer_depth,
        khr_vulkan_enable: available.khr_vulkan_enable,
        khr_vulkan_enable2: true,
        ext_debug_utils: debug_build && available.ext_debug_utils,
        ext_eye_gaze_interaction: available.ext_eye_gaze_interaction,
        ext_hand_tracking: available.ext_hand_tracking,
        ext_hp_mixed_reality_controller: available.ext_hp_mixed_reality_controller,
        ext_performance_settings: available.ext_performance_settings,
        ext_samsung_odyssey_controller: available.ext_samsung_odyssey_controller,
        ext_thermal_query: available.ext_thermal_query,
        fb_color_space: available.fb_color_space,
        fb_display_refresh_rate: available.fb_display_refresh_rate,
        htc_vive_cosmos_controller_interaction: available.htc_vive_cosmos_controller_interaction,
        huawei_controller_interaction: available.huawei_controller_interaction,
        msft_hand_interaction: available.msft_hand_interaction,
        msft_secondary_view_configuration: available.msft_secondary_view_configuration,
        msft_spatial_anchor: available.msft_spatial_anchor,
        varjo_quad_views: available.varjo_quad_views,
    }
}

/// Computes the extension request for an availability report; see
/// `spec_selected_extensions`.
pub fn selected_extensions(available: &ExtensionSet, debug_build: bool) -> (exts: ExtensionSet)
    ensures
        exts == spec_selected_extensions(*available, debug_build),
{
    let mut exts = ExtensionSet::default();
    exts.khr_composition_layer_depth = available.khr_composition_layer_depth;
    exts.khr_vulkan_enable = available.khr_vulkan_enable;
    exts.khr_vulkan_enable2 = true;
    if debug_build {
        exts.ext_debug_utils = available.ext_debug_utils;
    }
    exts.ext_eye_gaze_interaction = available.ext_eye_gaze_interaction;
    exts.ext_hand_tracking = available.ext_hand_tracking;
    exts.ext_hp_mixed_reality_controller = available.ext_hp_mixed_reality_controller;
    exts.ext_performance_settings = available.ext_performance_settings;
    exts.ext_samsung_odyssey_controller = available.ext_samsung_odyssey_controller;
    exts.ext_thermal_query = available.ext_thermal_query;
    exts.fb_color_space = available.fb_color_space;
    exts.fb_display_refresh_rate = available.fb_display_refresh_rate;
    exts.htc_vive_cosmos_controller_interaction = available.htc_vive_cosmos_controller_interaction;
    exts.huawei_controller_interaction = available.huawei_controller_interaction;
    exts.msft_hand_interaction = available.msft_hand_interaction;
    exts.msft_secondary_view_configuration = available.msft_secondary_view_configuration;
    exts.msft_spatial_anchor = available.msft_spatial_anchor;
    exts.varjo_quad_views = available.varjo_quad_views;
    exts
}

/// Whether a graphics context can be created at all: the bridge drives the
/// session through the second Vulkan-enable extension, and without it
/// context creation fails with the runtime's extension-not-present code.
pub fn check_vulkan_binding(selected: &ExtensionSet) -> (r: Result<(), i32>)
    ensures
        selected.khr_vulkan_enable2 ==> r is Ok,
        !selected.khr_vulkan_enable2 ==> r == Err::<(), i32>(ERROR_EXTENSION_NOT_PRESENT),
{
    if selected.khr_vulkan_enable2 {
        Ok(())
    } else {
        Err(ERROR_EXTENSION_NOT_PRESENT)
    }
}

} // verus!
