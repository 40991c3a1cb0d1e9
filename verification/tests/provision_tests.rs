use oxc_server_resolver::error::ResolveError;
use oxc_server_resolver::provision::{ProvisionDecision, provision_conclude, provision_decide};

const PATH: &str = "./node_modules/@oxlint/linux-x64/oxc_language_server";

#[test]
fn present_and_current_installs_nothing() {
    let latest: Result<String, String> = Ok(String::from("1.2.3"));
    let installed: Result<Option<String>, String> = Ok(Some(String::from("1.2.3")));
    let d = provision_decide(true, &latest, &installed).unwrap();
    assert!(matches!(d, ProvisionDecision::UseExisting));
}

#[test]
fn absent_binary_installs_the_latest_version() {
    let latest: Result<String, String> = Ok(String::from("1.2.3"));
    let installed: Result<Option<String>, String> = Ok(Some(String::from("1.2.3")));
    let d = provision_decide(false, &latest, &installed).unwrap();
    match d {
        ProvisionDecision::InstallLatest { version } => assert_eq!(version, "1.2.3"),
        _ => panic!("expected an install decision"),
    }
}

#[test]
fn stale_version_installs_the_latest_version() {
    let latest: Result<String, String> = Ok(String::from("1.3.0"));
    let installed: Result<Option<String>, String> = Ok(Some(String::from("1.2.3")));
    let d = provision_decide(true, &latest, &installed).unwrap();
    match d {
        ProvisionDecision::InstallLatest { version } => assert_eq!(version, "1.3.0"),
        _ => panic!("expected an install decision"),
    }
}

#[test]
fn no_installed_version_installs_the_latest_version() {
    let latest: Result<String, String> = Ok(String::from("1.3.0"));
    let installed: Result<Option<String>, String> = Ok(None);
    let d = provision_decide(true, &latest, &installed).unwrap();
    assert!(matches!(d, ProvisionDecision::InstallLatest { .. }));
}

#[test]
fn latest_query_failure_is_blocking() {
    let latest: Result<String, String> = Err(String::from("registry unreachable"));
    let installed: Result<Option<String>, String> = Ok(None);
    let e = provision_decide(false, &latest, &installed).unwrap_err();
    match e {
        ResolveError::RegistryQueryFailed { message } => {
            assert_eq!(message, "registry unreachable");
        },
        _ => panic!("expected a registry failure"),
    }
}

#[test]
fn installed_query_failure_is_blocking() {
    let latest: Result<String, String> = Ok(String::from("1.2.3"));
    let installed: Result<Option<String>, String> = Err(String::from("npm broke"));
    let e = provision_decide(false, &latest, &installed).unwrap_err();
    assert!(matches!(e, ResolveError::RegistryQueryFailed { .. }));
}

#[test]
fn binary_present_after_install_succeeds_even_on_reported_failure() {
    let r = provision_conclude(String::from(PATH), true, Err(String::from("network hiccup")));
    assert_eq!(r.unwrap(), PATH);
}

#[test]
fn binary_present_after_reported_success_succeeds() {
    let r = provision_conclude(String::from(PATH), true, Ok(()));
    assert_eq!(r.unwrap(), PATH);
}

#[test]
fn absent_after_reported_failure_is_installation_failed() {
    let r = provision_conclude(String::from(PATH), false, Err(String::from("no disk space")));
    match r.unwrap_err() {
        ResolveError::InstallationFailed { reason } => assert_eq!(reason, "no disk space"),
        _ => panic!("expected an installation failure"),
    }
}

#[test]
fn absent_after_reported_success_is_corrupt_installation() {
    let r = provision_conclude(String::from(PATH), false, Ok(()));
    match r.unwrap_err() {
        ResolveError::CorruptInstallation { expected_path } => assert_eq!(expected_path, PATH),
        _ => panic!("expected a corrupt installation"),
    }
}

#[test]
fn failure_messages_name_the_package_and_path() {
    let failed = provision_conclude(String::from(PATH), false, Err(String::from("boom")))
        .unwrap_err();
    assert_eq!(failed.message(), "failed to install package 'oxlint': boom");
    let corrupt = provision_conclude(String::from(PATH), false, Ok(())).unwrap_err();
    assert_eq!(
        corrupt.message(),
        format!("installed package 'oxlint' did not contain expected path '{}'", PATH)
    );
}
