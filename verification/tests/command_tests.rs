use oxc_server_resolver::command::{
    AfterManifest, BinaryOverride, ChosenCommand, Origin, ServerLocation, SourceStep,
    choose_from_settings, config_candidates, finalize_launch_plan, locate_in_project,
};
use oxc_server_resolver::error::ResolveError;
use oxc_server_resolver::paths::{absolutize, is_absolute, join_path, strip_leading_dot};
use oxc_server_resolver::platform::{Arch, Os, PlatformTarget};

const LINUX_X64: PlatformTarget = PlatformTarget { os: Os::Linux, arch: Arch::X64 };

fn plain_chosen(path: &str, origin: Origin) -> ChosenCommand {
    ChosenCommand {
        location: ServerLocation { executable_path: String::from(path), origin },
        base_args: Vec::new(),
    }
}

#[test]
fn path_helpers() {
    assert_eq!(join_path("/a", "b/c"), "/a/b/c");
    assert!(is_absolute("/usr/bin/x"));
    assert!(is_absolute("\\\\server\\share"));
    assert!(is_absolute("C:\\tools"));
    assert!(!is_absolute("node_modules/x"));
    assert!(!is_absolute("./node_modules/x"));
    assert_eq!(strip_leading_dot("./a/b"), "a/b");
    assert_eq!(strip_leading_dot("a/b"), "a/b");
    assert_eq!(absolutize("/cwd", "./a/b"), "/cwd/a/b");
    assert_eq!(absolutize("/cwd", "/a/b"), "/a/b");
}

#[test]
fn override_with_path_and_arguments_is_used_verbatim() {
    let binary = Some(BinaryOverride {
        path: Some(String::from("/custom/oxc_language_server")),
        arguments: Some(vec![String::from("--threads"), String::from("2")]),
    });
    match choose_from_settings(binary, "/proj", Os::Linux) {
        SourceStep::Chosen(c) => {
            assert_eq!(c.location.executable_path, "/custom/oxc_language_server");
            assert_eq!(c.location.origin, Origin::UserOverride);
            assert_eq!(c.base_args, vec![String::from("--threads"), String::from("2")]);
        },
        SourceStep::NeedManifest => panic!("override must not fall through"),
    }
}

#[test]
fn override_with_arguments_only_defaults_to_the_project_local_path() {
    let binary = Some(BinaryOverride {
        path: None,
        arguments: Some(vec![String::from("-v")]),
    });
    match choose_from_settings(binary, "/proj", Os::Linux) {
        SourceStep::Chosen(c) => {
            assert_eq!(
                c.location.executable_path,
                "/proj/node_modules/oxlint/bin/oxc_language_server"
            );
        },
        SourceStep::NeedManifest => panic!("override must not fall through"),
    }
}

#[test]
fn override_default_path_on_windows_is_the_shim_path() {
    let binary = Some(BinaryOverride { path: None, arguments: None });
    match choose_from_settings(binary, "C:\\proj", Os::Windows) {
        SourceStep::Chosen(c) => {
            assert_eq!(
                c.location.executable_path,
                "C:\\proj/node_modules/.bin/oxc_language_server.cmd"
            );
            assert!(c.base_args.is_empty());
        },
        SourceStep::NeedManifest => panic!("override must not fall through"),
    }
}

#[test]
fn no_override_asks_for_the_manifest() {
    let step = choose_from_settings(None, "/proj", Os::Linux);
    assert!(matches!(step, SourceStep::NeedManifest));
}

#[test]
fn declared_dependency_locates_the_project_local_server() {
    let manifest = Some(String::from(r#"{"dependencies":{"oxlint":"1.0.0"}}"#));
    match locate_in_project("/proj", LINUX_X64, &manifest).unwrap() {
        AfterManifest::Local(c) => {
            assert_eq!(
                c.location.executable_path,
                "/proj/node_modules/oxlint/bin/oxc_language_server"
            );
            assert_eq!(c.location.origin, Origin::ProjectLocal);
            assert!(c.base_args.is_empty());
        },
        AfterManifest::NeedProvision { .. } => panic!("declared dependency must be used"),
    }
}

#[test]
fn undeclared_dependency_asks_for_provisioning() {
    let manifest = Some(String::from("{}"));
    match locate_in_project("/proj", LINUX_X64, &manifest).unwrap() {
        AfterManifest::NeedProvision { fallback_path } => {
            assert_eq!(
                fallback_path,
                "./node_modules/@oxlint/linux-x64/oxc_language_server"
            );
        },
        AfterManifest::Local(_) => panic!("nothing was declared"),
    }
}

#[test]
fn unsupported_architecture_surfaces_only_on_the_fallback_route() {
    let other = PlatformTarget { os: Os::Linux, arch: Arch::Other };
    let declared = Some(String::from(r#"{"dependencies":{"oxlint":"1.0.0"}}"#));
    assert!(locate_in_project("/proj", other, &declared).is_ok());
    let e = locate_in_project("/proj", other, &None).unwrap_err();
    assert!(matches!(e, ResolveError::UnsupportedArchitecture));
}

#[test]
fn candidate_list_is_fixed() {
    assert_eq!(config_candidates(), vec![String::from(".oxlintrc.json")]);
}

#[test]
fn config_required_when_demanded_and_absent() {
    let chosen = plain_chosen("/proj/bin/server", Origin::ProjectLocal);
    let probe = vec![false];
    let e = finalize_launch_plan(None, true, chosen, "/cwd", &probe).unwrap_err();
    assert!(matches!(e, ResolveError::ConfigRequired));
}

#[test]
fn missing_config_is_fine_when_not_required() {
    let chosen = plain_chosen("/proj/bin/server", Origin::ProjectLocal);
    let probe = vec![false];
    let plan = finalize_launch_plan(None, false, chosen, "/cwd", &probe).unwrap();
    assert_eq!(plan.command, "/proj/bin/server");
    assert!(plan.arguments.is_empty());
    assert!(plan.environment.is_empty());
}

#[test]
fn discovered_candidate_appends_the_config_pair() {
    let chosen = plain_chosen("/proj/bin/server", Origin::ProjectLocal);
    let probe = vec![true];
    let plan = finalize_launch_plan(None, true, chosen, "/cwd", &probe).unwrap();
    assert_eq!(
        plan.arguments,
        vec![String::from("--config"), String::from(".oxlintrc.json")]
    );
}

#[test]
fn explicit_config_path_wins_without_a_disk_probe() {
    let chosen = plain_chosen("/proj/bin/server", Origin::ProjectLocal);
    let probe = vec![false];
    let plan = finalize_launch_plan(Some(String::from("custom/oxlint.json")), true, chosen, "/cwd", &probe)
        .unwrap();
    assert_eq!(
        plan.arguments,
        vec![String::from("--config"), String::from("custom/oxlint.json")]
    );
}

#[test]
fn base_arguments_precede_the_config_pair() {
    let chosen = ChosenCommand {
        location: ServerLocation {
            executable_path: String::from("/srv/server"),
            origin: Origin::UserOverride,
        },
        base_args: vec![String::from("--threads"), String::from("4")],
    };
    let probe = vec![true];
    let plan = finalize_launch_plan(None, false, chosen, "/cwd", &probe).unwrap();
    assert_eq!(
        plan.arguments,
        vec![
            String::from("--threads"),
            String::from("4"),
            String::from("--config"),
            String::from(".oxlintrc.json"),
        ]
    );
}

#[test]
fn relative_chosen_path_is_anchored_under_the_working_directory() {
    let chosen = plain_chosen(
        "./node_modules/@oxlint/linux-x64/oxc_language_server",
        Origin::ExtensionManaged,
    );
    let probe = vec![false];
    let plan = finalize_launch_plan(None, false, chosen, "/work", &probe).unwrap();
    assert_eq!(
        plan.command,
        "/work/node_modules/@oxlint/linux-x64/oxc_language_server"
    );
}

#[test]
fn config_required_message() {
    let chosen = plain_chosen("/srv/server", Origin::ProjectLocal);
    let e = finalize_launch_plan(None, true, chosen, "/cwd", &vec![false]).unwrap_err();
    assert_eq!(e.message(), "a configuration file is required but none was found");
}

#[test]
fn full_resolution_with_a_declared_dependency_and_a_config_file() {
    let step = choose_from_settings(None, "/root", Os::Linux);
    assert!(matches!(step, SourceStep::NeedManifest));
    let manifest = Some(String::from(r#"{"dependencies":{"oxlint":"0.16.0"}}"#));
    let chosen = match locate_in_project("/root", LINUX_X64, &manifest).unwrap() {
        AfterManifest::Local(c) => c,
        AfterManifest::NeedProvision { .. } => panic!("oxlint is declared"),
    };
    let probe = vec![true];
    let plan = finalize_launch_plan(None, false, chosen, "/cwd", &probe).unwrap();
    assert_eq!(plan.command, "/root/node_modules/oxlint/bin/oxc_language_server");
    assert_eq!(
        plan.arguments,
        vec![String::from("--config"), String::from(".oxlintrc.json")]
    );
    assert!(plan.environment.is_empty());
}
