use daemon::lifecycle::{gate_install, gate_remove, gate_start, gate_status, gate_stop, HostModel};
use daemon::DaemonError;

#[test]
fn install_twice_fails_already_installed() {
    let mut host = HostModel::new();
    let first = daemon::lifecycle::HostModel::new();
    assert!(first.descriptor.is_none());
    let r1 = host.apply_install(Ok(()), String::from("rendered unit one"));
    assert_eq!(r1, Ok(()));
    assert_eq!(host.descriptor.as_deref(), Some("rendered unit one"));
    let r2 = host.apply_install(Ok(()), String::from("rendered unit two"));
    assert_eq!(r2, Err(DaemonError::AlreadyInstalled));
    // the descriptor written by the first install is untouched
    assert_eq!(host.descriptor.as_deref(), Some("rendered unit one"));
}

#[test]
fn remove_before_install_fails_not_installed() {
    let mut host = HostModel::new();
    let r = host.apply_remove(Ok(()));
    assert_eq!(r, Err(DaemonError::NotInstalled));
    assert!(host.descriptor.is_none());
}

#[test]
fn remove_after_install_succeeds() {
    let mut host = HostModel::new();
    assert_eq!(host.apply_install(Ok(()), String::from("unit")), Ok(()));
    assert_eq!(host.apply_remove(Ok(())), Ok(()));
    assert!(host.descriptor.is_none());
    assert_eq!(host.apply_remove(Ok(())), Err(DaemonError::NotInstalled));
}

#[test]
fn start_before_install_fails_not_installed() {
    let mut host = HostModel::new();
    let r = host.apply_start(Ok(()), true);
    assert_eq!(r, Err(DaemonError::NotInstalled));
}

#[test]
fn start_twice_fails_already_running() {
    let mut host = HostModel::new();
    assert_eq!(host.apply_install(Ok(()), String::from("unit")), Ok(()));
    assert_eq!(host.apply_start(Ok(()), true), Ok(()));
    assert!(host.running);
    assert_eq!(host.apply_start(Ok(()), true), Err(DaemonError::AlreadyRunning));
    assert!(host.running);
}

#[test]
fn start_command_failure_is_start_failed() {
    let mut host = HostModel::new();
    assert_eq!(host.apply_install(Ok(()), String::from("unit")), Ok(()));
    assert_eq!(host.apply_start(Ok(()), false), Err(DaemonError::StartFailed));
    assert!(!host.running);
}

#[test]
fn stop_twice_fails_already_stopped() {
    let mut host = HostModel::new();
    assert_eq!(host.apply_install(Ok(()), String::from("unit")), Ok(()));
    assert_eq!(host.apply_start(Ok(()), true), Ok(()));
    assert_eq!(host.apply_stop(Ok(()), true), Ok(()));
    assert!(!host.running);
    assert_eq!(host.apply_stop(Ok(()), true), Err(DaemonError::AlreadyStopped));
}

#[test]
fn stop_command_failure_is_stop_failed() {
    let mut host = HostModel::new();
    assert_eq!(host.apply_install(Ok(()), String::from("unit")), Ok(()));
    assert_eq!(host.apply_start(Ok(()), true), Ok(()));
    assert_eq!(host.apply_stop(Ok(()), false), Err(DaemonError::StopFailed));
    assert!(host.running);
}

#[test]
fn status_before_install_fails_not_installed() {
    let host = HostModel::new();
    assert_eq!(host.apply_status(Ok(())), Err(DaemonError::NotInstalled));
}

#[test]
fn status_after_install_before_start_is_false() {
    let mut host = HostModel::new();
    assert_eq!(host.apply_install(Ok(()), String::from("unit")), Ok(()));
    assert_eq!(host.apply_status(Ok(())), Ok(false));
    assert_eq!(host.apply_start(Ok(()), true), Ok(()));
    assert_eq!(host.apply_status(Ok(())), Ok(true));
}

#[test]
fn privilege_failure_short_circuits_every_operation() {
    let mut host = HostModel::new();
    assert_eq!(host.apply_install(Ok(()), String::from("unit")), Ok(()));
    // even on an installed host, a privilege failure comes back first
    let denied: Result<(), DaemonError> = Err(DaemonError::RootPrivileges);
    assert_eq!(
        host.apply_install(denied, String::from("other")),
        Err(DaemonError::RootPrivileges)
    );
    assert_eq!(host.apply_remove(denied), Err(DaemonError::RootPrivileges));
    assert_eq!(host.apply_start(denied, true), Err(DaemonError::RootPrivileges));
    assert_eq!(host.apply_stop(denied, true), Err(DaemonError::RootPrivileges));
    assert_eq!(host.apply_status(denied), Err(DaemonError::RootPrivileges));
    assert_eq!(host.descriptor.as_deref(), Some("unit"));
}

#[test]
fn gates_follow_the_probed_facts() {
    assert_eq!(gate_install(Ok(()), false), Ok(()));
    assert_eq!(gate_install(Ok(()), true), Err(DaemonError::AlreadyInstalled));
    assert_eq!(gate_remove(Ok(()), true), Ok(()));
    assert_eq!(gate_remove(Ok(()), false), Err(DaemonError::NotInstalled));
    assert_eq!(gate_start(Ok(()), true, Ok(false)), Ok(()));
    assert_eq!(gate_start(Ok(()), true, Ok(true)), Err(DaemonError::AlreadyRunning));
    // a failing probe is surfaced as it came, before the running check
    assert_eq!(
        gate_start(Ok(()), true, Err(DaemonError::Stopped)),
        Err(DaemonError::Stopped)
    );
    assert_eq!(gate_stop(Ok(()), true, Ok(true)), Ok(()));
    assert_eq!(gate_stop(Ok(()), true, Ok(false)), Err(DaemonError::AlreadyStopped));
    assert_eq!(gate_status(Ok(()), true, Ok(false)), Ok(false));
    assert_eq!(gate_status(Ok(()), false, Ok(false)), Err(DaemonError::NotInstalled));
}
