//! Resolves the executable path and launch arguments for the oxc language
//! server: user overrides first, then a project-local installation, then an
//! extension-managed fallback copy that is kept in sync with the latest
//! published package version.
//!
//! The library is the decision procedure alone. Reading the environment, the
//! manifest and the registry, probing the filesystem and installing packages
//! are the caller's outside work; each module states what it decides over the
//! answers of those collaborators, for every answer they could give.
//!
//! - [`platform`] maps an (operating system, architecture) pair to the
//!   distribution package specifier and binary filename.
//! - [`manifest`] decides from the project manifest whether a project-local
//!   installation is declared and where its binary is expected.
//! - [`provision`] keeps the extension-managed fallback present and current.
//! - [`command`] orchestrates the priority order and assembles the final
//!   launch plan, with config-file discovery.
//! - [`paths`] holds the pure path arithmetic.
//! - [`error`] holds the failures that reach the caller.

use vstd::prelude::*;

pub mod command;
pub mod error;
pub mod manifest;
pub mod paths;
pub mod platform;
pub mod provision;

verus! {

pub open spec fn package_name_spec() -> Seq<char> {
    "oxlint"@
}

/// The npm package that distributes the language server.
pub fn package_name() -> (r: &'static str)
    ensures
        r@ == package_name_spec(),
{
    "oxlint"
}

} // verus!
