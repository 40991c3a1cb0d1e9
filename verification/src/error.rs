//! The failures that a resolution can surface to its caller.
//!
//! Transient lookups (an unreadable project manifest, a missing optional
//! config file) are absorbed before they become one of these: only genuinely
//! blocking conditions reach the caller.

use vstd::prelude::*;

verus! {

/// A failure of the resolution procedure that must reach the caller.
#[derive(Debug)]
pub enum ResolveError {
    /// The running machine's CPU architecture has no published server build.
    UnsupportedArchitecture,
    /// The package registry could not answer a version query.
    RegistryQueryFailed { message: String },
    /// The install reported failure and left no usable binary behind.
    InstallationFailed { reason: String },
    /// The install reported success but the expected binary is absent.
    CorruptInstallation { expected_path: String },
    /// A configuration file is required by policy but none was found.
    ConfigRequired,
}

/// The mathematical shape of a `ResolveError`: the same variants over
/// character sequences.
pub enum ErrView {
    UnsupportedArchitecture,
    RegistryQueryFailed { message: Seq<char> },
    InstallationFailed { reason: Seq<char> },
    CorruptInstallation { expected_path: Seq<char> },
    ConfigRequired,
}

impl View for ResolveError {
    type V = ErrView;

    open spec fn view(&self) -> ErrView {
        match self {
            ResolveError::UnsupportedArchitecture => ErrView::UnsupportedArchitecture,
            ResolveError::RegistryQueryFailed { message } => ErrView::RegistryQueryFailed {
                message: message@,
            },
            ResolveError::InstallationFailed { reason } => ErrView::InstallationFailed {
                reason: reason@,
            },
            ResolveError::CorruptInstallation { expected_path } => ErrView::CorruptInstallation {
                expected_path: expected_path@,
            },
            ResolveError::ConfigRequired => ErrView::ConfigRequired,
        }
    }
}

/// The human-readable description of each error.
pub open spec fn message_spec(e: ErrView) -> Seq<char> {
    match e {
        ErrView::UnsupportedArchitecture => "unsupported architecture"@,
        ErrView::RegistryQueryFailed { message } => "registry query failed: "@ + message,
        ErrView::InstallationFailed { reason } => "failed to install package 'oxlint': "@
            + reason,
        ErrView::CorruptInstallation { expected_path } => "installed package 'oxlint' did not contain expected path '"@
            + expected_path + "'"@,
        ErrView::ConfigRequired => "a configuration file is required but none was found"@,
    }
}

impl ResolveError {
    /// A human-readable description of the failure.
    pub fn message(&self) -> (r: String)
        ensures
            r@ == message_spec(self@),
    {
        match self {
            ResolveError::UnsupportedArchitecture => String::from_str(
                "unsupported architecture",
            ),
            ResolveError::RegistryQueryFailed { message } => String::from_str(
                "registry query failed: ",
            ).concat(message.as_str()),
            ResolveError::InstallationFailed { reason } => String::from_str(
                "failed to install package 'oxlint': ",
            ).concat(reason.as_str()),
            ResolveError::CorruptInstallation { expected_path } => String::from_str(
                "installed package 'oxlint' did not contain expected path '",
            ).concat(expected_path.as_str()).concat("'"),
            ResolveError::ConfigRequired => String::from_str(
                "a configuration file is required but none was found",
            ),
        }
    }
}

} // verus!
