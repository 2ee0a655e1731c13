use solidity::error::{ResolveError, PACKAGE_NAME, SERVER_PATH};
use solidity::resolver::{Action, Event, InstallStatus, Phase, SolidityExtension};

/// Scripted answers of the host's collaborators.
struct Fake {
    exists_before: bool,
    latest: Result<String, String>,
    installed: Option<String>,
    install: Result<(), String>,
    exists_after: bool,
}

#[derive(Debug, PartialEq)]
enum Call {
    Exists,
    Report(InstallStatus),
    Latest,
    Installed,
    Install(String),
}

fn fake(exists_before: bool, latest: Result<&str, &str>, installed: Option<&str>) -> Fake {
    Fake {
        exists_before,
        latest: latest.map(|v| v.to_string()).map_err(|e| e.to_string()),
        installed: installed.map(|v| v.to_string()),
        install: Ok(()),
        exists_after: true,
    }
}

fn run(ext: &mut SolidityExtension, f: &Fake) -> (Vec<Call>, Result<String, ResolveError>) {
    let mut calls = vec![Call::Exists];
    let mut phase = Phase::Start;
    let mut event = Event::ServerExists(f.exists_before);
    loop {
        assert!(phase.accepts(&event));
        let (next, action) = ext.step(phase, event);
        phase = next;
        event = match action {
            Action::CheckServerExists => {
                calls.push(Call::Exists);
                Event::ServerExists(f.exists_after)
            }
            Action::ReportStatus(s) => {
                calls.push(Call::Report(s));
                Event::StatusReported
            }
            Action::QueryLatestVersion => {
                calls.push(Call::Latest);
                Event::LatestVersion(f.latest.clone())
            }
            Action::QueryInstalledVersion => {
                calls.push(Call::Installed);
                Event::InstalledVersion(f.installed.clone())
            }
            Action::InstallPackage(v) => {
                calls.push(Call::Install(v));
                Event::InstallOutcome(f.install.clone())
            }
            Action::Finish(r) => return (calls, r),
        };
    }
}

fn install_calls(version: &str) -> Vec<Call> {
    vec![
        Call::Exists,
        Call::Report(InstallStatus::CheckingForUpdate),
        Call::Latest,
        Call::Installed,
        Call::Report(InstallStatus::Downloading),
        Call::Install(version.to_string()),
        Call::Exists,
    ]
}

#[test]
fn new_resolver_has_not_found_server() {
    assert!(!SolidityExtension::new().did_find_server());
}

#[test]
fn fast_path_makes_no_registry_or_install_call() {
    let mut ext = SolidityExtension::new();
    let first = run(&mut ext, &fake(true, Ok("1.0.0"), Some("1.0.0")));
    assert_eq!(first.1.unwrap(), SERVER_PATH);
    assert!(ext.did_find_server());
    let (calls, r) = run(&mut ext, &fake(true, Err("offline"), None));
    assert_eq!(calls, vec![Call::Exists]);
    assert_eq!(r.unwrap(), SERVER_PATH);
    assert!(ext.did_find_server());
}

#[test]
fn flag_alone_does_not_skip_the_registry() {
    let mut ext = SolidityExtension::new();
    run(&mut ext, &fake(true, Ok("1.0.0"), Some("1.0.0")));
    let (calls, r) = run(&mut ext, &fake(false, Ok("1.0.0"), Some("1.0.0")));
    assert_eq!(calls, install_calls("1.0.0"));
    assert_eq!(r.unwrap(), SERVER_PATH);
}

#[test]
fn first_run_installs_latest_version() {
    let mut ext = SolidityExtension::new();
    let (calls, r) = run(&mut ext, &fake(false, Ok("0.8.4"), None));
    assert_eq!(calls, install_calls("0.8.4"));
    assert_eq!(r.unwrap(), SERVER_PATH);
    assert!(ext.did_find_server());
}

#[test]
fn stale_version_reinstalls_on_fresh_resolver() {
    let mut ext = SolidityExtension::new();
    let (calls, r) = run(&mut ext, &fake(true, Ok("0.8.4"), Some("0.8.3")));
    assert_eq!(calls, install_calls("0.8.4"));
    assert_eq!(r.unwrap(), SERVER_PATH);
}

#[test]
fn newer_installed_version_is_still_replaced() {
    let mut ext = SolidityExtension::new();
    let (calls, _) = run(&mut ext, &fake(true, Ok("0.8.4"), Some("0.9.0")));
    assert!(calls.contains(&Call::Install("0.8.4".to_string())));
}

#[test]
fn current_version_present_needs_no_install() {
    let mut ext = SolidityExtension::new();
    let (calls, r) = run(&mut ext, &fake(true, Ok("0.8.4"), Some("0.8.4")));
    assert_eq!(
        calls,
        vec![
            Call::Exists,
            Call::Report(InstallStatus::CheckingForUpdate),
            Call::Latest,
            Call::Installed,
        ]
    );
    assert_eq!(r.unwrap(), SERVER_PATH);
    assert!(ext.did_find_server());
}

#[test]
fn install_failure_forgiven_when_file_appears() {
    let mut ext = SolidityExtension::new();
    let mut f = fake(false, Ok("0.8.4"), None);
    f.install = Err("network blip".to_string());
    let (calls, r) = run(&mut ext, &f);
    assert_eq!(calls, install_calls("0.8.4"));
    assert_eq!(r.unwrap(), SERVER_PATH);
    assert!(ext.did_find_server());
}

#[test]
fn install_success_without_entry_point_fails() {
    let mut ext = SolidityExtension::new();
    let mut f = fake(false, Ok("0.8.4"), None);
    f.exists_after = false;
    let (calls, r) = run(&mut ext, &f);
    assert_eq!(calls, install_calls("0.8.4"));
    let e = r.unwrap_err();
    assert!(matches!(e, ResolveError::PackageMissingExpectedEntryPoint));
    let m = e.message();
    assert!(m.contains(PACKAGE_NAME));
    assert!(m.contains(SERVER_PATH));
    assert!(!ext.did_find_server());
}

#[test]
fn install_failure_without_entry_point_is_propagated() {
    let mut ext = SolidityExtension::new();
    let mut f = fake(false, Ok("0.8.4"), None);
    f.install = Err("npm exited with 1".to_string());
    f.exists_after = false;
    let (_, r) = run(&mut ext, &f);
    let e = r.unwrap_err();
    assert!(matches!(&e, ResolveError::InstallFailed(c) if c == "npm exited with 1"));
    assert_eq!(e.message(), "npm exited with 1");
    assert!(!ext.did_find_server());
}

#[test]
fn registry_failure_is_fatal() {
    let mut ext = SolidityExtension::new();
    let (calls, r) = run(&mut ext, &fake(false, Err("registry down"), None));
    assert_eq!(
        calls,
        vec![Call::Exists, Call::Report(InstallStatus::CheckingForUpdate), Call::Latest]
    );
    let e = r.unwrap_err();
    assert!(matches!(&e, ResolveError::RegistryUnavailable(c) if c == "registry down"));
    assert_eq!(e.message(), "registry down");
    assert!(!ext.did_find_server());
}

#[test]
fn phases_accept_only_their_answer() {
    assert!(Phase::Start.accepts(&Event::ServerExists(false)));
    assert!(!Phase::Start.accepts(&Event::StatusReported));
    assert!(Phase::ReportingCheck { exists_now: true }.accepts(&Event::StatusReported));
    assert!(!Phase::AwaitingLatest { exists_now: true }.accepts(&Event::InstalledVersion(None)));
    assert!(Phase::Installing.accepts(&Event::InstallOutcome(Ok(()))));
    assert!(!Phase::Finished.accepts(&Event::ServerExists(true)));
}

#[test]
fn missing_entry_point_message_text() {
    assert_eq!(
        ResolveError::PackageMissingExpectedEntryPoint.message(),
        "installed package '@nomicfoundation/solidity-language-server' did not contain expected path 'node_modules/@nomicfoundation/solidity-language-server/out/index.js'"
    );
}
