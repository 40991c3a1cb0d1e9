//! Provisioning manager: keeps the extension-managed fallback copy of the
//! server present and current against the latest published version.
//!
//! The registry queries, the install call and the filesystem probes are the
//! caller's outside work; the decisions between them stand here. A run is a
//! single decide / install / re-verify sequence: the filesystem, not the
//! installer's return code, is the source of truth for success.

use vstd::prelude::*;
use crate::error::ErrView;
use crate::error::ResolveError;

verus! {

/// What the decision step asks the caller to do next.
#[derive(Debug)]
pub enum ProvisionDecision {
    /// The fallback binary is present and current: use it, install nothing.
    UseExisting,
    /// Install (or update to) this version, then re-probe and conclude.
    InstallLatest { version: String },
}

/// Whether an install must run: the binary is missing on disk, or the
/// installed version differs from the latest published one.
pub open spec fn install_needed_spec(
    present: bool,
    installed: Option<Seq<char>>,
    latest: Seq<char>,
) -> bool {
    !present || installed != Some(latest)
}

/// Decides whether the fallback needs an install, from the on-disk probe and
/// the registry's two version answers. A registry failure is blocking and
/// surfaces as `RegistryQueryFailed`.
pub fn provision_decide(
    present: bool,
    latest: &Result<String, String>,
    installed: &Result<Option<String>, String>,
) -> (r: Result<ProvisionDecision, ResolveError>)
    ensures
        r is Ok <==> latest is Ok && installed is Ok,
        latest matches Err(m) ==> (r matches Err(e) && e@ == (ErrView::RegistryQueryFailed {
            message: m@,
        })),
        latest is Ok ==> (installed matches Err(m) ==> (r matches Err(e) && e@
            == (ErrView::RegistryQueryFailed { message: m@ }))),
        latest matches Ok(l) ==> (installed matches Ok(i) ==> (r matches Ok(d) && (d
            is InstallLatest <==> install_needed_spec(present, i.deep_view(), l@)) && (d matches
            ProvisionDecision::InstallLatest { version } ==> version@ == l@))),
{
    let latest_version = match latest {
        Ok(v) => v,
        Err(m) => {
            return Err(ResolveError::RegistryQueryFailed { message: m.clone() });
        },
    };
    let installed_version = match installed {
        Ok(v) => v,
        Err(m) => {
            return Err(ResolveError::RegistryQueryFailed { message: m.clone() });
        },
    };
    let current = match installed_version {
        Some(v) => v.eq(latest_version),
        None => false,
    };
    if present && current {
        Ok(ProvisionDecision::UseExisting)
    } else {
        Ok(ProvisionDecision::InstallLatest { version: latest_version.clone() })
    }
}

/// Concludes a provisioning run after the install call, from the re-probe of
/// the binary and the installer's reported result. A binary that exists is
/// success whatever the installer reported; one that is absent is
/// `InstallationFailed` after a reported failure and the more alarming
/// `CorruptInstallation` after reported success.
pub fn provision_conclude(path: String, present_after: bool, install_result: Result<
    (),
    String,
>) -> (r: Result<String, ResolveError>)
    ensures
        present_after ==> (r matches Ok(p) && p@ == path@),
        !present_after ==> (install_result matches Err(m) ==> (r matches Err(e) && e@
            == (ErrView::InstallationFailed { reason: m@ }))),
        !present_after && install_result is Ok ==> (r matches Err(e) && e@
            == (ErrView::CorruptInstallation { expected_path: path@ })),
{
    if present_after {
        Ok(path)
    } else {
        match install_result {
            Err(reason) => Err(ResolveError::InstallationFailed { reason }),
            Ok(_) => Err(ResolveError::CorruptInstallation { expected_path: path }),
        }
    }
}

/// Everything the registry collaborator and the filesystem could answer
/// during one provisioning run. The run holds a single install slot: the
/// install call happens at most once, between the two existence probes.
pub struct RegistryScriptView {
    /// The latest published version, or the registry's failure message.
    pub latest: Result<Seq<char>, Seq<char>>,
    /// The version installed in the fallback, or the registry's failure.
    pub installed: Result<Option<Seq<char>>, Seq<char>>,
    /// Whether the fallback binary existed before the run.
    pub exists_before: bool,
    /// The installer's reported failure, `None` for reported success.
    pub install_error: Option<Seq<char>>,
    /// Whether the fallback binary exists after the install call.
    pub exists_after: bool,
}

/// Whether a provisioning run with these answers invokes the install call
/// (and then invokes it exactly once, for the latest version).
pub open spec fn spec_provision_installs(s: RegistryScriptView) -> bool {
    s.latest is Ok && s.installed is Ok && install_needed_spec(
        s.exists_before,
        s.installed->Ok_0,
        s.latest->Ok_0,
    )
}

/// The outcome of one full provisioning run over the collaborator's answers
/// `s`, for a fallback expected at `path`: the composition of
/// `provision_decide` and, when an install runs, `provision_conclude`.
pub open spec fn spec_provision_outcome(path: Seq<char>, s: RegistryScriptView) -> Result<
    Seq<char>,
    ErrView,
> {
    if s.latest is Err {
        Err(ErrView::RegistryQueryFailed { message: s.latest->Err_0 })
    } else if s.installed is Err {
        Err(ErrView::RegistryQueryFailed { message: s.installed->Err_0 })
    } else if !spec_provision_installs(s) {
        Ok(path)
    } else if s.exists_after {
        Ok(path)
    } else if s.install_error is Some {
        Err(ErrView::InstallationFailed { reason: s.install_error->0 })
    } else {
        Err(ErrView::CorruptInstallation { expected_path: path })
    }
}

/// Provisioning idempotence: when the fallback binary already exists and the
/// installed version equals the latest published one, no install call runs
/// and the run returns the existing path.
pub proof fn lemma_provision_idempotent(path: Seq<char>, s: RegistryScriptView)
    requires
        s.latest is Ok,
        s.installed is Ok,
        s.exists_before,
        s.installed->Ok_0 == Some(s.latest->Ok_0),
    ensures
        !spec_provision_installs(s),
        spec_provision_outcome(path, s) == Ok::<Seq<char>, ErrView>(path),
{
}

/// Provisioning self-heal: when the fallback binary is absent, the install
/// call runs (exactly once, the model's single slot); and when the binary
/// exists afterwards the run succeeds with the expected path, whatever
/// result the installer reported.
pub proof fn lemma_provision_self_heal(path: Seq<char>, s: RegistryScriptView)
    requires
        s.latest is Ok,
        s.installed is Ok,
        !s.exists_before,
        s.exists_after,
    ensures
        spec_provision_installs(s),
        spec_provision_outcome(path, s) == Ok::<Seq<char>, ErrView>(path),
{
}

/// Corrupt-install detection: when the install call runs, reports success,
/// and the binary is still absent afterwards, the run fails with
/// `CorruptInstallation` naming the expected path.
pub proof fn lemma_provision_corrupt_install(path: Seq<char>, s: RegistryScriptView)
    requires
        spec_provision_installs(s),
        !s.exists_after,
        s.install_error is None,
    ensures
        spec_provision_outcome(path, s) == Err::<Seq<char>, ErrView>(
            ErrView::CorruptInstallation { expected_path: path },
        ),
{
}

} // verus!
