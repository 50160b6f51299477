use daemon::{new, new_daemon, require_executable_path, Daemon, DaemonError, ServiceManager};

#[test]
fn marker_present_selects_systemd() {
    let m = new_daemon(true, String::from("svc"), String::from("x"), vec![]);
    assert!(matches!(m, ServiceManager::SystemD(_)));
    assert_eq!(m.service_path(), "/etc/systemd/system/svc.service");
}

#[test]
fn marker_absent_selects_systemv() {
    let m = new_daemon(false, String::from("svc"), String::from("x"), vec![]);
    assert!(matches!(m, ServiceManager::SystemV(_)));
    assert_eq!(m.service_path(), "/etc/init.d/svc");
}

#[test]
fn unsupported_os_is_refused() {
    let r = new(false, true, String::from("svc"), String::from("x"), vec![]);
    assert!(matches!(r, Err(DaemonError::OSNotSupported)));
}

#[test]
fn supported_os_follows_the_marker() {
    let r = new(true, false, String::from("svc"), String::from("x"), vec![]);
    match r {
        Ok(m) => assert!(matches!(m, ServiceManager::SystemV(_))),
        Err(_) => panic!("a Linux host must get a backend"),
    }
}

#[test]
fn manager_dispatches_template_and_pattern() {
    let mut m = new_daemon(true, String::from("svc"), String::from("x"), vec![]);
    assert_eq!(m.status_pattern(), "Active: active");
    m.set_template("custom");
    assert_eq!(m.get_template(), "custom");
    let mut v = new_daemon(false, String::from("svc"), String::from("x"), vec![]);
    assert_eq!(v.status_pattern(), "svc");
    v.set_template("custom");
    assert_eq!(v.get_template(), "custom");
}

#[test]
fn manager_renders_like_its_backend() {
    let mut m = new_daemon(true, String::from("svc"), String::from("desc"), vec![]);
    m.set_template("{Name}:{Path}");
    assert_eq!(m.render_descriptor("/bin/svc", &vec![]), "svc:/bin/svc");
}

#[test]
fn missing_executable_path_aborts_install() {
    assert_eq!(
        require_executable_path(None),
        Err(DaemonError::ExecutablePath)
    );
    assert_eq!(
        require_executable_path(Some(String::from("/bin/x"))),
        Ok(String::from("/bin/x"))
    );
}

#[test]
fn error_messages_name_the_failure() {
    assert_eq!(
        DaemonError::OSNotSupported.message(),
        "operating system is not supported"
    );
    assert_eq!(DaemonError::UnsupportedSystem.message(), "unsupported system");
    assert_eq!(
        DaemonError::RootPrivileges.message(),
        "you must have root privileges"
    );
    assert_eq!(
        DaemonError::ExecutablePath.message(),
        "cannot get current running executable"
    );
    assert_eq!(DaemonError::Stopped.message(), "service is stopped");
    assert_eq!(
        DaemonError::AlreadyStopped.message(),
        "service has already been stopped"
    );
    assert_eq!(DaemonError::StopFailed.message(), "failed to stop service");
    assert_eq!(
        DaemonError::AlreadyInstalled.message(),
        "service has already been installed"
    );
    assert_eq!(DaemonError::NotInstalled.message(), "service is not installed");
    assert_eq!(
        DaemonError::AlreadyRunning.message(),
        "service is already running"
    );
    assert_eq!(DaemonError::StartFailed.message(), "failed to start service");
    assert_eq!(
        DaemonError::InvalidPattern.message(),
        "status pattern is not a valid regular expression"
    );
}
