//! Installation locator: decides from the project manifest whether a
//! project-local installation of the server package is declared, and if so
//! where its binary is expected to live.
//!
//! The manifest text is handed in by the caller (reading it is the project
//! manifest reader's job); an absent or unreadable manifest means "no
//! declared dependency", never an error.

use vstd::prelude::*;
use crate::paths::join_spec;
use crate::paths::join_path;
use crate::platform::Os;

verus! {

/// Whether `text` is a JSON document whose `dependencies` or
/// `devDependencies` object holds a non-null member named `package`.
pub uninterp spec fn manifest_declares(text: Seq<char>, package: Seq<char>) -> bool;

/// Relies on serde_json::from_str, serde_json::Value::get and
/// serde_json::Value::is_null: whether `text` parses as JSON holding a
/// non-null `dependencies.<package>` or `devDependencies.<package>` member.
/// Text that is not valid JSON declares nothing.
#[verifier::external_body]
fn manifest_declares_exec(text: &str, package: &str) -> (r: bool)
    ensures
        r == manifest_declares(text@, package@),
{
    match serde_json::from_str::<serde_json::Value>(text) {
        Ok(doc) => {
            let dep = doc.get("dependencies").and_then(|g| g.get(package));
            let dev = doc.get("devDependencies").and_then(|g| g.get(package));
            dep.is_some_and(|v| !v.is_null()) || dev.is_some_and(|v| !v.is_null())
        },
        Err(_) => false,
    }
}

/// Whether a manifest read outcome declares `package`: an absent manifest
/// declares nothing.
pub open spec fn spec_workspace_declares(manifest: Option<Seq<char>>, package: Seq<char>) -> bool {
    match manifest {
        Some(text) => manifest_declares(text, package),
        None => false,
    }
}

/// Whether the project manifest, as read (or not read) from disk, declares
/// `package` under either dependency grouping.
pub fn workspace_declares_package(manifest: &Option<String>, package: &str) -> (r: bool)
    ensures
        r == spec_workspace_declares(manifest.deep_view(), package@),
{
    match manifest {
        Some(text) => manifest_declares_exec(text.as_str(), package),
        None => false,
    }
}

/// The conventional project-relative path of the server binary for a direct
/// launch.
pub open spec fn direct_server_rel_spec() -> Seq<char> {
    "node_modules/oxlint/bin/oxc_language_server"@
}

/// The project-relative shim-wrapper path that Windows must launch through.
pub open spec fn shim_server_rel_spec() -> Seq<char> {
    "node_modules/.bin/oxc_language_server.cmd"@
}

/// The project-relative server path for this operating system: Windows goes
/// through the shim wrapper, everything else launches the binary directly.
pub open spec fn project_server_rel_spec(os: Os) -> Seq<char> {
    if os is Windows {
        shim_server_rel_spec()
    } else {
        direct_server_rel_spec()
    }
}

/// The project-relative server path for this operating system.
pub fn project_server_rel(os: Os) -> (r: &'static str)
    ensures
        r@ == project_server_rel_spec(os),
{
    match os {
        Os::Windows => "node_modules/.bin/oxc_language_server.cmd",
        _ => "node_modules/oxlint/bin/oxc_language_server",
    }
}

/// Where the project-local server binary is expected, if the manifest
/// declares it: a pure path join, with existence on disk left to the caller.
pub open spec fn spec_project_local_server_path(
    root: Seq<char>,
    os: Os,
    declares: bool,
) -> Option<Seq<char>> {
    if declares {
        Some(join_spec(root, project_server_rel_spec(os)))
    } else {
        None
    }
}

/// The expected path of a project-local server installation, or `None` when
/// the manifest (possibly absent or unreadable) declares no dependency on
/// the server package. The path is composed, not probed: existence on disk
/// is the caller's concern.
pub fn project_local_server_path(root: &str, os: Os, manifest: &Option<String>, package: &str) -> (r:
    Option<String>)
    ensures
        r.deep_view() == spec_project_local_server_path(
            root@,
            os,
            spec_workspace_declares(manifest.deep_view(), package@),
        ),
{
    if workspace_declares_package(manifest, package) {
        Some(join_path(root, project_server_rel(os)))
    } else {
        None
    }
}

/// On Windows the project-local route always goes through the shim-wrapper
/// path, never the direct native-binary path, whatever the manifest says.
pub proof fn lemma_windows_routes_through_shim(root: Seq<char>, declares: bool)
    ensures
        spec_project_local_server_path(root, Os::Windows, declares) matches Some(p) ==> p
            == join_spec(root, shim_server_rel_spec()) && p != join_spec(
            root,
            direct_server_rel_spec(),
        ),
{
    reveal_strlit("node_modules/.bin/oxc_language_server.cmd");
    reveal_strlit("node_modules/oxlint/bin/oxc_language_server");
    assert(shim_server_rel_spec().len() == 41);
    assert(direct_server_rel_spec().len() == 43);
    assert(join_spec(root, shim_server_rel_spec()).len() != join_spec(
        root,
        direct_server_rel_spec(),
    ).len());
}

} // verus!
