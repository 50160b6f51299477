//! Cross-init-system service management for Linux hosts.
//!
//! A long-running program is installed, started, stopped, queried and removed
//! as an operating-system service, either under systemd or under legacy SysV
//! init. The library holds the parts that decide and compute: backend
//! selection, descriptor rendering, the legality rules of the lifecycle, and
//! the interpretation of what the host's control commands report. The
//! surrounding program performs the file writes and runs the control commands,
//! handing their outcomes back as plain values.

use vstd::prelude::*;

pub mod lifecycle;
pub mod privilege;
pub mod status;
pub mod systemd;
pub mod systemv;
pub mod text;

use crate::systemd::SystemD;
use crate::systemv::SystemV;
use crate::text::{join_spaces_spec, render_spec};

verus! {

/// The failure kinds a lifecycle operation can surface.
///
/// `Stopped` stands apart from `AlreadyStopped`: the former says a status
/// probe came back with an unrecognized exit code (the service is dead or its
/// state is unknown), the latter that `stop` found the service cleanly
/// inactive.
#[derive(Clone, Copy, Debug, PartialEq, Eq, Structural)]
pub enum DaemonError {
    /// The host's operating-system family is not supported.
    OSNotSupported,
    /// The privilege probe itself failed to run or returned unreadable output.
    UnsupportedSystem,
    /// The caller lacks root-equivalent rights.
    RootPrivileges,
    /// The running executable's path could not be resolved.
    ExecutablePath,
    /// A status probe returned an unrecognized exit code.
    Stopped,
    /// `stop` found the service already inactive.
    AlreadyStopped,
    /// The stop control command exited non-zero.
    StopFailed,
    /// `install` found the descriptor already present.
    AlreadyInstalled,
    /// The descriptor is absent where an operation needs it present.
    NotInstalled,
    /// `start` found the service already active.
    AlreadyRunning,
    /// The start control command exited non-zero.
    StartFailed,
    /// The status-output pattern failed to compile as a regular expression.
    InvalidPattern,
}

impl DaemonError {
    /// The message a caller logs for this failure kind.
    pub open spec fn message_view(self) -> Seq<char> {
        match self {
            DaemonError::OSNotSupported => "operating system is not supported"@,
            DaemonError::UnsupportedSystem => "unsupported system"@,
            DaemonError::RootPrivileges => "you must have root privileges"@,
            DaemonError::ExecutablePath => "cannot get current running executable"@,
            DaemonError::Stopped => "service is stopped"@,
            DaemonError::AlreadyStopped => "service has already been stopped"@,
            DaemonError::StopFailed => "failed to stop service"@,
            DaemonError::AlreadyInstalled => "service has already been installed"@,
            DaemonError::NotInstalled => "service is not installed"@,
            DaemonError::AlreadyRunning => "service is already running"@,
            DaemonError::StartFailed => "failed to start service"@,
            DaemonError::InvalidPattern => "status pattern is not a valid regular expression"@,
        }
    }

    /// The message a caller logs for this failure kind.
    pub fn message(&self) -> (m: &'static str)
        ensures
            m@ == self.message_view(),
    {
        match self {
            DaemonError::OSNotSupported => "operating system is not supported",
            DaemonError::UnsupportedSystem => "unsupported system",
            DaemonError::RootPrivileges => "you must have root privileges",
            DaemonError::ExecutablePath => "cannot get current running executable",
            DaemonError::Stopped => "service is stopped",
            DaemonError::AlreadyStopped => "service has already been stopped",
            DaemonError::StopFailed => "failed to stop service",
            DaemonError::AlreadyInstalled => "service has already been installed",
            DaemonError::NotInstalled => "service is not installed",
            DaemonError::AlreadyRunning => "service is already running",
            DaemonError::StartFailed => "failed to start service",
            DaemonError::InvalidPattern => "status pattern is not a valid regular expression",
        }
    }
}

/// The capability set every backend exposes: its identity and template state,
/// the path its descriptor lives at, the text it renders at install time, and
/// the pattern its status probe is matched against. The legality rules of the
/// lifecycle are not the backends' to vary: they stand once, in
/// [`lifecycle`], and are decided there for every backend alike.
pub trait Daemon: Sized {
    /// The service's name.
    spec fn name_view(&self) -> Seq<char>;

    /// The service's human-readable description.
    spec fn description_view(&self) -> Seq<char>;

    /// The names of the services this one requires to start first.
    spec fn dependencies_view(&self) -> Seq<Seq<char>>;

    /// The descriptor template that an install would render.
    spec fn template_view(&self) -> Seq<char>;

    /// The path the rendered descriptor lives at.
    spec fn service_path_view(&self) -> Seq<char>;

    /// The pattern a status probe's output is matched against.
    spec fn status_pattern_view(&self) -> Seq<char>;

    /// The active descriptor template, verbatim.
    fn get_template(&self) -> (t: &str)
        ensures
            t@ == self.template_view(),
    ;

    /// Replaces the descriptor template, unvalidated, effective on the next
    /// install; everything else about the backend stays as it was.
    fn set_template(&mut self, new_template: &str)
        ensures
            final(self).template_view() == new_template@,
            final(self).name_view() == old(self).name_view(),
            final(self).description_view() == old(self).description_view(),
            final(self).dependencies_view() == old(self).dependencies_view(),
            final(self).service_path_view() == old(self).service_path_view(),
            final(self).status_pattern_view() == old(self).status_pattern_view(),
    ;

    /// The path the rendered descriptor lives at.
    fn service_path(&self) -> (p: String)
        ensures
            p@ == self.service_path_view(),
    ;

    /// The pattern a status probe's output is matched against.
    fn status_pattern(&self) -> (p: String)
        ensures
            p@ == self.status_pattern_view(),
    ;

    /// The descriptor an install would write: the active template with the
    /// five placeholder tokens substituted.
    fn render_descriptor(&self, exe_path: &str, args: &Vec<String>) -> (d: String)
        ensures
            d@ == render_spec(
                self.template_view(),
                self.name_view(),
                self.description_view(),
                join_spaces_spec(self.dependencies_view()),
                exe_path@,
                join_spaces_spec(args.deep_view()),
            ),
    ;
}

/// The backend chosen for this host, behind the shared capability set. The
/// variant set is closed: a host is governed by systemd or by SysV init,
/// detected once at construction.
pub enum ServiceManager {
    /// The host is governed by systemd.
    SystemD(SystemD),
    /// The host is governed by SysV init.
    SystemV(SystemV),
}

impl Daemon for ServiceManager {
    open spec fn name_view(&self) -> Seq<char> {
        match self {
            ServiceManager::SystemD(d) => d.name_view(),
            ServiceManager::SystemV(d) => d.name_view(),
        }
    }

    open spec fn description_view(&self) -> Seq<char> {
        match self {
            ServiceManager::SystemD(d) => d.description_view(),
            ServiceManager::SystemV(d) => d.description_view(),
        }
    }

    open spec fn dependencies_view(&self) -> Seq<Seq<char>> {
        match self {
            ServiceManager::SystemD(d) => d.dependencies_view(),
            ServiceManager::SystemV(d) => d.dependencies_view(),
        }
    }

    open spec fn template_view(&self) -> Seq<char> {
        match self {
            ServiceManager::SystemD(d) => d.template_view(),
            ServiceManager::SystemV(d) => d.template_view(),
        }
    }

    open spec fn service_path_view(&self) -> Seq<char> {
        match self {
            ServiceManager::SystemD(d) => d.service_path_view(),
            ServiceManager::SystemV(d) => d.service_path_view(),
        }
    }

    open spec fn status_pattern_view(&self) -> Seq<char> {
        match self {
            ServiceManager::SystemD(d) => d.status_pattern_view(),
            ServiceManager::SystemV(d) => d.status_pattern_view(),
        }
    }

    fn get_template(&self) -> (t: &str) {
        match self {
            ServiceManager::SystemD(d) => d.get_template(),
            ServiceManager::SystemV(d) => d.get_template(),
        }
    }

    fn set_template(&mut self, new_template: &str) {
        match self {
            ServiceManager::SystemD(d) => d.set_template(new_template),
            ServiceManager::SystemV(d) => d.set_template(new_template),
        }
    }

    fn service_path(&self) -> (p: String) {
        match self {
            ServiceManager::SystemD(d) => d.service_path(),
            ServiceManager::SystemV(d) => d.service_path(),
        }
    }

    fn status_pattern(&self) -> (p: String) {
        match self {
            ServiceManager::SystemD(d) => d.status_pattern(),
            ServiceManager::SystemV(d) => d.status_pattern(),
        }
    }

    fn render_descriptor(&self, exe_path: &str, args: &Vec<String>) -> (d: String) {
        match self {
            ServiceManager::SystemD(d) => d.render_descriptor(exe_path, args),
            ServiceManager::SystemV(d) => d.render_descriptor(exe_path, args),
        }
    }
}

/// Selects the backend from the host probe and builds it: the systemd
/// runtime marker directory present means systemd, absent means SysV init.
/// Absence is a valid signal, not a failure.
pub fn new_daemon(
    systemd_marker: bool,
    name: String,
    description: String,
    dependencies: Vec<String>,
) -> (m: ServiceManager)
    ensures
        systemd_marker ==> (m matches ServiceManager::SystemD(d) && d.name == name
            && d.description == description && d.dependencies == dependencies && d.template_view()
            == systemd::SYSTEMD_UNIT_TEMPLATE@),
        !systemd_marker ==> (m matches ServiceManager::SystemV(d) && d.name == name
            && d.description == description && d.dependencies == dependencies && d.template_view()
            == systemv::SYSTEMV_INIT_TEMPLATE@),
{
    if systemd_marker {
        ServiceManager::SystemD(SystemD::new(name, description, dependencies))
    } else {
        ServiceManager::SystemV(SystemV::new(name, description, dependencies))
    }
}

/// Builds a service handle for the named service, refusing hosts whose
/// operating-system family is unsupported; on a supported host the backend
/// follows the systemd marker probe.
pub fn new(
    os_linux: bool,
    systemd_marker: bool,
    name: String,
    description: String,
    dependencies: Vec<String>,
) -> (r: Result<ServiceManager, DaemonError>)
    ensures
        !os_linux ==> r == Err::<ServiceManager, DaemonError>(DaemonError::OSNotSupported),
        os_linux ==> (r matches Ok(m) && {
            &&& systemd_marker ==> (m matches ServiceManager::SystemD(d) && d.name == name
                && d.description == description && d.dependencies == dependencies
                && d.template_view() == systemd::SYSTEMD_UNIT_TEMPLATE@)
            &&& !systemd_marker ==> (m matches ServiceManager::SystemV(d) && d.name == name
                && d.description == description && d.dependencies == dependencies
                && d.template_view() == systemv::SYSTEMV_INIT_TEMPLATE@)
        }),
{
    if os_linux {
        Ok(new_daemon(systemd_marker, name, description, dependencies))
    } else {
        Err(DaemonError::OSNotSupported)
    }
}

/// Checks that the running executable's path was resolved; installation
/// cannot proceed without it.
pub fn require_executable_path(path: Option<String>) -> (r: Result<String, DaemonError>)
    ensures
        r == match path {
            Some(p) => Ok::<String, DaemonError>(p),
            None => Err::<String, DaemonError>(DaemonError::ExecutablePath),
        },
{
    match path {
        Some(p) => Ok(p),
        None => Err(DaemonError::ExecutablePath),
    }
}

} // verus!
