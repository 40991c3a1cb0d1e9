//! Command builder: the orchestration entry point. Consults user override
//! settings first, then the project-local locator, then the provisioning
//! manager, and assembles the final launch plan with config-file discovery.
//!
//! The builder is staged so that every outside call stays with the caller:
//! `choose_from_settings` runs first and only when it answers `NeedManifest`
//! may the caller read the manifest and run `locate_in_project`; only on
//! `NeedProvision` may it probe, query the registry and drive
//! `provision_decide` / `provision_conclude`; `finalize_launch_plan` then
//! appends configuration arguments and anchors the executable path. The
//! ghost `spec_resolve` pipeline states what the whole sequence returns for
//! any answers the collaborators could give.

use vstd::prelude::*;
use crate::error::ErrView;
use crate::error::ResolveError;
use crate::manifest::project_server_rel;
use crate::manifest::project_server_rel_spec;
use crate::manifest::spec_workspace_declares;
use crate::manifest::workspace_declares_package;
use crate::paths::absolutize;
use crate::paths::absolutize_spec;
use crate::paths::join_path;
use crate::paths::join_spec;
use crate::platform::Os;
use crate::platform::PlatformTarget;
use crate::platform::arch_supported;
use crate::platform::package_specifier;
use crate::platform::package_specifier_spec;
use crate::provision::RegistryScriptView;
use crate::provision::spec_provision_outcome;

verus! {

/// Where the chosen executable came from, in priority order.
#[derive(Clone, Copy, Debug, PartialEq, Eq, Structural)]
pub enum Origin {
    UserOverride,
    ProjectLocal,
    ExtensionManaged,
}

/// A user's explicit override of the server binary and its arguments.
#[derive(Debug)]
pub struct BinaryOverride {
    pub path: Option<String>,
    pub arguments: Option<Vec<String>>,
}

/// The mathematical shape of a `BinaryOverride`.
pub struct BinaryOverrideView {
    pub path: Option<Seq<char>>,
    pub arguments: Option<Seq<Seq<char>>>,
}

impl View for BinaryOverride {
    type V = BinaryOverrideView;

    open spec fn view(&self) -> BinaryOverrideView {
        BinaryOverrideView { path: self.path.deep_view(), arguments: self.arguments.deep_view() }
    }
}

impl DeepView for BinaryOverride {
    type V = BinaryOverrideView;

    open spec fn deep_view(&self) -> BinaryOverrideView {
        self.view()
    }
}

/// The structured configuration this resolver reads: every field optional,
/// with absence a normal "none".
#[derive(Debug)]
pub struct Settings {
    pub binary: Option<BinaryOverride>,
    pub config_path: Option<String>,
    pub require_config_file: bool,
}

/// The mathematical shape of `Settings`.
pub struct SettingsView {
    pub binary: Option<BinaryOverrideView>,
    pub config_path: Option<Seq<char>>,
    pub require_config_file: bool,
}

impl View for Settings {
    type V = SettingsView;

    open spec fn view(&self) -> SettingsView {
        SettingsView {
            binary: self.binary.deep_view(),
            config_path: self.config_path.deep_view(),
            require_config_file: self.require_config_file,
        }
    }
}

/// A resolved server executable and where it came from.
#[derive(Debug)]
pub struct ServerLocation {
    pub executable_path: String,
    pub origin: Origin,
}

/// The mathematical shape of a `ServerLocation`.
pub struct ServerLocationView {
    pub executable_path: Seq<char>,
    pub origin: Origin,
}

impl View for ServerLocation {
    type V = ServerLocationView;

    open spec fn view(&self) -> ServerLocationView {
        ServerLocationView { executable_path: self.executable_path@, origin: self.origin }
    }
}

/// A chosen executable together with the base arguments that precede any
/// configuration arguments.
#[derive(Debug)]
pub struct ChosenCommand {
    pub location: ServerLocation,
    pub base_args: Vec<String>,
}

/// The mathematical shape of a `ChosenCommand`.
pub struct ChosenCommandView {
    pub location: ServerLocationView,
    pub base_args: Seq<Seq<char>>,
}

impl View for ChosenCommand {
    type V = ChosenCommandView;

    open spec fn view(&self) -> ChosenCommandView {
        ChosenCommandView { location: self.location@, base_args: self.base_args.deep_view() }
    }
}

/// The final output: an executable path, its ordered arguments and an
/// environment mapping, ready for process creation.
#[derive(Debug)]
pub struct LaunchPlan {
    pub command: String,
    pub arguments: Vec<String>,
    pub environment: Vec<(String, String)>,
}

/// The mathematical shape of a `LaunchPlan`.
pub struct LaunchPlanView {
    pub command: Seq<char>,
    pub arguments: Seq<Seq<char>>,
    pub environment: Seq<(Seq<char>, Seq<char>)>,
}

impl View for LaunchPlan {
    type V = LaunchPlanView;

    open spec fn view(&self) -> LaunchPlanView {
        LaunchPlanView {
            command: self.command@,
            arguments: self.arguments.deep_view(),
            environment: self.environment.deep_view(),
        }
    }
}

/// What the first stage decided: a command fixed by the user's override, or
/// the instruction to read the project manifest next.
#[derive(Debug)]
pub enum SourceStep {
    Chosen(ChosenCommand),
    NeedManifest,
}

/// What the locator stage decided: a project-local command, or the
/// instruction to provision the fallback expected at `fallback_path`.
#[derive(Debug)]
pub enum AfterManifest {
    Local(ChosenCommand),
    NeedProvision { fallback_path: String },
}

/// The command a user override fixes: the overridden path (defaulting to
/// the conventional project-local path) and the overridden arguments
/// (defaulting to none). `None` when no override is set.
pub open spec fn spec_choose_from_settings(
    binary: Option<BinaryOverrideView>,
    root: Seq<char>,
    os: Os,
) -> Option<ChosenCommandView> {
    match binary {
        Some(b) => Some(
            ChosenCommandView {
                location: ServerLocationView {
                    executable_path: if b.path is Some {
                        b.path->0
                    } else {
                        join_spec(root, project_server_rel_spec(os))
                    },
                    origin: Origin::UserOverride,
                },
                base_args: if b.arguments is Some {
                    b.arguments->0
                } else {
                    Seq::empty()
                },
            },
        ),
        None => None,
    }
}

/// Applies the user override, the hard first priority: when it is set, no
/// manifest read and no provisioning follow.
pub fn choose_from_settings(binary: Option<BinaryOverride>, root: &str, os: Os) -> (r: SourceStep)
    ensures
        r is NeedManifest <==> binary is None,
        r matches SourceStep::Chosen(c) ==> Some(c@) == spec_choose_from_settings(
            binary.deep_view(),
            root@,
            os,
        ),
{
    match binary {
        None => SourceStep::NeedManifest,
        Some(b) => {
            let path = match b.path {
                Some(p) => p,
                None => join_path(root, project_server_rel(os)),
            };
            let args = match b.arguments {
                Some(a) => a,
                None => {
                    let empty_args: Vec<String> = Vec::new();
                    proof {
                        assert(empty_args.deep_view() =~= Seq::<Seq<char>>::empty());
                    }
                    empty_args
                },
            };
            SourceStep::Chosen(
                ChosenCommand {
                    location: ServerLocation { executable_path: path, origin: Origin::UserOverride },
                    base_args: args,
                },
            )
        },
    }
}

/// The command a declared project-local installation fixes.
pub open spec fn spec_local_chosen(root: Seq<char>, os: Os) -> ChosenCommandView {
    ChosenCommandView {
        location: ServerLocationView {
            executable_path: join_spec(root, project_server_rel_spec(os)),
            origin: Origin::ProjectLocal,
        },
        base_args: Seq::empty(),
    }
}

/// Where the extension-managed fallback binary is expected, under the
/// extension's own dependency directory.
pub open spec fn fallback_path_spec(t: PlatformTarget) -> Seq<char> {
    "./node_modules/"@ + package_specifier_spec(t)
}

/// Applies the second priority: a manifest that declares the server package
/// fixes the project-local command (through the shim path on Windows) and
/// pre-empts provisioning; otherwise provisioning is instructed, which is
/// the only point where an unsupported architecture becomes an error.
pub fn locate_in_project(root: &str, target: PlatformTarget, manifest: &Option<String>) -> (r:
    Result<AfterManifest, ResolveError>)
    ensures
        ({
            let declares = spec_workspace_declares(
                manifest.deep_view(),
                crate::package_name_spec(),
            );
            &&& declares ==> (r matches Ok(AfterManifest::Local(c)) && c@ == spec_local_chosen(
                root@,
                target.os,
            ))
            &&& !declares && arch_supported(target.arch) ==> (r matches Ok(
                AfterManifest::NeedProvision { fallback_path },
            ) && fallback_path@ == fallback_path_spec(target))
            &&& !declares && !arch_supported(target.arch) ==> (r matches Err(e) && e
                is UnsupportedArchitecture)
        }),
{
    if workspace_declares_package(manifest, crate::package_name()) {
        let base_args: Vec<String> = Vec::new();
        proof {
            assert(base_args.deep_view() =~= Seq::<Seq<char>>::empty());
        }
        Ok(
            AfterManifest::Local(
                ChosenCommand {
                    location: ServerLocation {
                        executable_path: join_path(root, project_server_rel(target.os)),
                        origin: Origin::ProjectLocal,
                    },
                    base_args,
                },
            ),
        )
    } else {
        match package_specifier(target) {
            Ok(specifier) => Ok(
                AfterManifest::NeedProvision {
                    fallback_path: String::from_str("./node_modules/").concat(specifier.as_str()),
                },
            ),
            Err(e) => Err(e),
        }
    }
}

/// The fixed, ordered list of conventional config filenames that discovery
/// probes at the project root.
pub open spec fn config_candidates_spec() -> Seq<Seq<char>> {
    seq![".oxlintrc.json"@]
}

/// The fixed, ordered list of conventional config filenames.
pub fn config_candidates() -> (r: Vec<String>)
    ensures
        r.deep_view() == config_candidates_spec(),
{
    let mut v: Vec<String> = Vec::new();
    v.push(String::from_str(".oxlintrc.json"));
    proof {
        assert(v.deep_view() =~= config_candidates_spec());
    }
    v
}

/// The first candidate that the probe reports present, in candidate order.
pub open spec fn first_existing(cands: Seq<Seq<char>>, exist: Seq<bool>) -> Option<Seq<char>>
    decreases cands.len(),
{
    if cands.len() == 0 || exist.len() == 0 {
        None
    } else if exist[0] {
        Some(cands[0])
    } else {
        first_existing(cands.skip(1), exist.skip(1))
    }
}

proof fn lemma_first_existing_skip(cands: Seq<Seq<char>>, exist: Seq<bool>, i: int)
    requires
        cands.len() == exist.len(),
        0 <= i <= cands.len(),
        forall|j: int| 0 <= j < i ==> !exist[j],
    ensures
        first_existing(cands, exist) == first_existing(cands.skip(i), exist.skip(i)),
    decreases i,
{
    if i > 0 {
        lemma_first_existing_skip(cands.skip(1), exist.skip(1), i - 1);
        assert(cands.skip(1).skip(i - 1) =~= cands.skip(i));
        assert(exist.skip(1).skip(i - 1) =~= exist.skip(i));
    } else {
        assert(cands.skip(0) =~= cands);
        assert(exist.skip(0) =~= exist);
    }
}

/// Walks the candidate list and returns the first one whose probe reported
/// it present on disk.
fn first_existing_candidate(cands: &Vec<String>, exist: &Vec<bool>) -> (r: Option<String>)
    requires
        cands@.len() == exist@.len(),
    ensures
        r.deep_view() == first_existing(cands.deep_view(), exist@),
{
    let ghost gcands = cands.deep_view();
    let ghost gexist = exist@;
    let mut i: usize = 0;
    while i < cands.len()
        invariant
            cands.deep_view() == gcands,
            exist@ == gexist,
            gcands.len() == gexist.len(),
            cands@.len() == gcands.len(),
            i <= cands@.len(),
            forall|j: int| 0 <= j < i ==> !gexist[j],
        decreases cands@.len() - i,
    {
        if exist[i] {
            proof {
                lemma_first_existing_skip(gcands, gexist, i as int);
                assert(gcands.skip(i as int)[0] == gcands[i as int]);
            }
            return Some(cands[i].clone());
        }
        i += 1;
    }
    proof {
        lemma_first_existing_skip(gcands, gexist, i as int);
        assert(gcands.skip(i as int).len() == 0);
    }
    None
}

/// The discovered config file: the explicit setting override verbatim when
/// set, else the first existing conventional candidate.
pub open spec fn spec_discover_config(explicit: Option<Seq<char>>, exist: Seq<bool>) -> Option<
    Seq<char>,
> {
    if explicit is Some {
        explicit
    } else {
        first_existing(config_candidates_spec(), exist)
    }
}

/// The `--config` argument pair a discovered config file appends.
pub open spec fn config_args_spec(cfg: Option<Seq<char>>) -> Seq<Seq<char>> {
    match cfg {
        Some(c) => seq!["--config"@, c],
        None => Seq::empty(),
    }
}

/// The final assembly: `ConfigRequired` when no config was discovered and
/// the policy demands one; otherwise the chosen path anchored under `cwd`,
/// the base arguments, the config pair when discovered, and an empty
/// environment.
pub open spec fn spec_finalize(
    explicit: Option<Seq<char>>,
    require_config_file: bool,
    chosen: ChosenCommandView,
    cwd: Seq<char>,
    exist: Seq<bool>,
) -> Result<LaunchPlanView, ErrView> {
    let cfg = spec_discover_config(explicit, exist);
    if cfg is None && require_config_file {
        Err(ErrView::ConfigRequired)
    } else {
        Ok(
            LaunchPlanView {
                command: absolutize_spec(cwd, chosen.location.executable_path),
                arguments: chosen.base_args + config_args_spec(cfg),
                environment: Seq::empty(),
            },
        )
    }
}

/// Assembles the launch plan once a path is chosen: discovers the config
/// file from the explicit override or the probed candidates, fails fast
/// with `ConfigRequired` when the policy demands a config and none exists,
/// and resolves the executable to an absolute path under `cwd`.
pub fn finalize_launch_plan(
    explicit_config: Option<String>,
    require_config_file: bool,
    chosen: ChosenCommand,
    cwd: &str,
    config_exists_probe: &Vec<bool>,
) -> (r: Result<LaunchPlan, ResolveError>)
    requires
        config_exists_probe@.len() == config_candidates_spec().len(),
    ensures
        ({
            let spec_r = spec_finalize(
                explicit_config.deep_view(),
                require_config_file,
                chosen@,
                cwd@,
                config_exists_probe@,
            );
            &&& r is Ok <==> spec_r is Ok
            &&& (r matches Ok(p) ==> p@ == spec_r->Ok_0)
            &&& (r matches Err(e) ==> e@ == spec_r->Err_0)
        }),
{
    let cfg: Option<String> = match explicit_config {
        Some(c) => Some(c),
        None => {
            let cands = config_candidates();
            first_existing_candidate(&cands, config_exists_probe)
        },
    };
    if require_config_file && cfg.is_none() {
        return Err(ResolveError::ConfigRequired);
    }
    let ChosenCommand { location, base_args } = chosen;
    let mut arguments = base_args;
    let ghost base_view = arguments.deep_view();
    match cfg {
        Some(c) => {
            let ghost cv = c@;
            arguments.push(String::from_str("--config"));
            arguments.push(c);
            proof {
                assert(arguments.deep_view() =~= base_view + config_args_spec(Some(cv)));
            }
        },
        None => {
            proof {
                assert(arguments.deep_view() =~= base_view + config_args_spec(None));
            }
        },
    }
    let command = absolutize(cwd, location.executable_path.as_str());
    let environment: Vec<(String, String)> = Vec::new();
    proof {
        assert(environment.deep_view() =~= Seq::<(Seq<char>, Seq<char>)>::empty());
    }
    Ok(LaunchPlan { command, arguments, environment })
}

/// Everything the collaborators could answer during one full resolution:
/// the manifest reader's text (`None` for unreadable or absent), the
/// registry and install answers, and the config candidates' probes.
pub struct ScriptView {
    pub manifest: Option<Seq<char>>,
    pub registry: RegistryScriptView,
    pub config_exists: Seq<bool>,
}

/// The path-choosing half of the pipeline: user override, else the
/// project-local installation, else the provisioned fallback.
pub open spec fn spec_choose_path(
    settings: SettingsView,
    target: PlatformTarget,
    root: Seq<char>,
    script: ScriptView,
) -> Result<ChosenCommandView, ErrView> {
    match spec_choose_from_settings(settings.binary, root, target.os) {
        Some(c) => Ok(c),
        None => {
            if spec_workspace_declares(script.manifest, crate::package_name_spec()) {
                Ok(spec_local_chosen(root, target.os))
            } else if !arch_supported(target.arch) {
                Err(ErrView::UnsupportedArchitecture)
            } else {
                match spec_provision_outcome(fallback_path_spec(target), script.registry) {
                    Ok(p) => Ok(
                        ChosenCommandView {
                            location: ServerLocationView {
                                executable_path: p,
                                origin: Origin::ExtensionManaged,
                            },
                            base_args: Seq::empty(),
                        },
                    ),
                    Err(e) => Err(e),
                }
            }
        },
    }
}

/// One full resolution over the collaborators' answers: choose a path, then
/// assemble the launch plan with config discovery.
pub open spec fn spec_resolve(
    settings: SettingsView,
    target: PlatformTarget,
    root: Seq<char>,
    cwd: Seq<char>,
    script: ScriptView,
) -> Result<LaunchPlanView, ErrView> {
    match spec_choose_path(settings, target, root, script) {
        Ok(c) => spec_finalize(
            settings.config_path,
            settings.require_config_file,
            c,
            cwd,
            script.config_exists,
        ),
        Err(e) => Err(e),
    }
}

/// Priority ordering end-to-end: with a user-override binary set, the
/// resolution's outcome is the same whatever the manifest reader and the
/// registry would have answered — neither collaborator is consulted.
pub proof fn lemma_override_consults_no_collaborator(
    settings: SettingsView,
    target: PlatformTarget,
    root: Seq<char>,
    cwd: Seq<char>,
    s1: ScriptView,
    s2: ScriptView,
)
    requires
        settings.binary is Some,
        s1.config_exists == s2.config_exists,
    ensures
        spec_resolve(settings, target, root, cwd, s1) == spec_resolve(
            settings,
            target,
            root,
            cwd,
            s2,
        ),
{
}

/// A declared project-local installation pre-empts provisioning: the
/// registry's answers never influence the outcome, whatever version the
/// project pinned.
pub proof fn lemma_project_local_skips_provisioning(
    settings: SettingsView,
    target: PlatformTarget,
    root: Seq<char>,
    cwd: Seq<char>,
    s1: ScriptView,
    s2: ScriptView,
)
    requires
        settings.binary is None,
        s1.manifest == s2.manifest,
        spec_workspace_declares(s1.manifest, crate::package_name_spec()),
        s1.config_exists == s2.config_exists,
    ensures
        spec_resolve(settings, target, root, cwd, s1) == spec_resolve(
            settings,
            target,
            root,
            cwd,
            s2,
        ),
{
}

/// `ConfigRequired` comes exactly when a path was chosen, no explicit
/// config path is set, no conventional candidate exists on disk, and the
/// policy requires a config file; and whenever a path was chosen and that
/// conjunction fails, resolution succeeds, with or without the `--config`
/// pair.
pub proof fn lemma_config_required_iff(
    settings: SettingsView,
    target: PlatformTarget,
    root: Seq<char>,
    cwd: Seq<char>,
    script: ScriptView,
)
    ensures
        spec_resolve(settings, target, root, cwd, script) == Err::<LaunchPlanView, ErrView>(
            ErrView::ConfigRequired,
        ) <==> (spec_choose_path(settings, target, root, script) is Ok && settings.config_path
            is None && first_existing(config_candidates_spec(), script.config_exists) is None
            && settings.require_config_file),
        spec_choose_path(settings, target, root, script) is Ok && !(spec_discover_config(
            settings.config_path,
            script.config_exists,
        ) is None && settings.require_config_file) ==> spec_resolve(
            settings,
            target,
            root,
            cwd,
            script,
        ) is Ok,
{
}

} // verus!
