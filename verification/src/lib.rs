//! Core logic for driving an XR runtime from a host game engine: the session
//! lifecycle state machine, the per-frame wait/acquire/render/submit protocol,
//! swapchain ring bookkeeping, capability negotiation and the interaction
//! binding tables.
//!
//! Everything here is decision logic over plain values. The calls into the
//! actual runtime (event polling, frame timing, GPU submission) are performed
//! by the embedding application, which feeds runtime events and frame state in
//! and executes the planned steps in order.

use vstd::prelude::*;

pub mod extensions;
pub mod frame;
pub mod interaction;
pub mod presentation;
pub mod session;
pub mod swapchain;
pub mod tracking;

verus! {

/// Class of XR device. Selected when the context is created and fixed for the
/// lifetime of the application.
#[derive(Clone, Copy, Debug, PartialEq, Eq, Hash, Structural)]
pub enum OpenXrFormFactor {
    HeadMountedDisplay,
    Handheld,
}

/// Runtime result code reported when the runtime itself failed, typically
/// because no headset is connected.
pub const ERROR_RUNTIME_FAILURE: i32 = -2;

/// Runtime result code: the requested form factor is not supported at all.
pub const ERROR_FORM_FACTOR_UNSUPPORTED: i32 = -34;

/// Runtime result code: the form factor is supported, but no such device is
/// currently available.
pub const ERROR_FORM_FACTOR_UNAVAILABLE: i32 = -35;

/// Unrecoverable failures while creating the XR context. Runtime result codes
/// are carried as plain integers.
#[derive(Clone, Copy, Debug, PartialEq, Eq, Structural)]
pub enum OpenXrError {
    InstanceCreation { code: i32 },
    UnsupportedFormFactor,
    UnavailableFormFactor,
    GraphicsCreation,
    SwapchainCreation { code: i32 },
}

/// Error raised when no suitable graphics adapter can be constructed.
#[derive(Clone, Copy, Debug, PartialEq, Eq, Structural, Default)]
pub struct AdapterError;

/// Marker for the plugin that installs the XR runner into a host application.
/// The registration itself happens in the embedding glue; the logic the plugin
/// installs lives in the modules of this crate.
#[derive(Clone, Copy, Debug, Default)]
pub struct OpenXrPlugin;

/// How a context-creation failure should be reported to the user.
#[derive(Clone, Copy, Debug, PartialEq, Eq, Structural)]
pub enum SetupDiagnosis {
    /// Neither form factor is supported or available.
    NoAvailableFormFactor,
    /// The runtime reported a hard failure; the probable cause is that no
    /// headset is connected.
    HeadsetNotConnected,
    /// Any other context-creation failure.
    ContextCreationFailed,
}

/// The form factor to try after `tried` failed: head-mounted first, handheld
/// as the fallback, nothing after that.
pub fn fallback_form_factor(tried: OpenXrFormFactor) -> (next: Option<OpenXrFormFactor>)
    ensures
        tried == OpenXrFormFactor::HeadMountedDisplay ==> next == Some(
            OpenXrFormFactor::Handheld,
        ),
        tried == OpenXrFormFactor::Handheld ==> next is None,
{
    match tried {
        OpenXrFormFactor::HeadMountedDisplay => Some(OpenXrFormFactor::Handheld),
        OpenXrFormFactor::Handheld => None,
    }
}

/// Classifies the error of a failed context creation for the diagnostic shown
/// to the user before the application gives up.
pub fn diagnose_setup_failure(error: &OpenXrError) -> (d: SetupDiagnosis)
    ensures
        d == spec_diagnose_setup_failure(*error),
{
    match error {
        OpenXrError::UnsupportedFormFactor => SetupDiagnosis::NoAvailableFormFactor,
        OpenXrError::UnavailableFormFactor => SetupDiagnosis::NoAvailableFormFactor,
        OpenXrError::InstanceCreation { code } => {
            if *code == ERROR_RUNTIME_FAILURE {
                SetupDiagnosis::HeadsetNotConnected
            } else {
                SetupDiagnosis::ContextCreationFailed
            }
        },
        _ => SetupDiagnosis::ContextCreationFailed,
    }
}

/// Maps the result code of a failed system query to the setup error it
/// stands for. Codes other than the two form-factor failures do not occur
/// there per the runtime's contract; they yield `None` so a caller can
/// report them verbatim instead of guessing.
pub fn classify_system_error(code: i32) -> (e: Option<OpenXrError>)
    ensures
        code == ERROR_FORM_FACTOR_UNSUPPORTED ==> e == Some(OpenXrError::UnsupportedFormFactor),
        code == ERROR_FORM_FACTOR_UNAVAILABLE ==> e == Some(OpenXrError::UnavailableFormFactor),
        code != ERROR_FORM_FACTOR_UNSUPPORTED && code != ERROR_FORM_FACTOR_UNAVAILABLE ==> e
            is None,
{
    if code == ERROR_FORM_FACTOR_UNSUPPORTED {
        Some(OpenXrError::UnsupportedFormFactor)
    } else if code == ERROR_FORM_FACTOR_UNAVAILABLE {
        Some(OpenXrError::UnavailableFormFactor)
    } else {
        None
    }
}

/// What `diagnose_setup_failure` reports for each error.
pub open spec fn spec_diagnose_setup_failure(error: OpenXrError) -> SetupDiagnosis {
    match error {
        OpenXrError::UnsupportedFormFactor => SetupDiagnosis::NoAvailableFormFactor,
        OpenXrError::UnavailableFormFactor => SetupDiagnosis::NoAvailableFormFactor,
        OpenXrError::InstanceCreation { code } => if code == ERROR_RUNTIME_FAILURE {
            SetupDiagnosis::HeadsetNotConnected
        } else {
            SetupDiagnosis::ContextCreationFailed
        },
        _ => SetupDiagnosis::ContextCreationFailed,
    }
}

} // verus!
