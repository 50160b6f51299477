//! The systemd backend: unit files under `/etc/systemd/system`, driven by
//! `systemctl`. Installation renders the unit template and then asks systemd
//! to reload and enable the unit; the status probe is `systemctl status`,
//! whose output must carry the literal activity marker.

use vstd::prelude::*;
use crate::Daemon;
use crate::text::{argv2, argv3, concat2, concat3, render_template};

verus! {

/// The built-in systemd unit template, with its placeholder tokens.
pub const SYSTEMD_UNIT_TEMPLATE: &'static str = "[Unit]\nDescription={Description}\nRequires={Dependencies}\nAfter={Dependencies}\n\n[Service]\nPIDFile=/var/run/{Name}.pid\nExecStartPre=/bin/rm -f /var/run/{Name}.pid\nExecStart={Path} {Args}\nRestart=on-failure\n\n[Install]\nWantedBy=multi-user.target\n";

/// The marker `systemctl status` prints for an active unit.
pub const SYSTEMD_ACTIVE_MARKER: &'static str = "Active: active";

/// The directory prefix a unit file's path starts with.
pub const SYSTEMD_UNIT_DIR: &'static str = "/etc/systemd/system/";

/// The suffix a unit's file name and control-command argument end with.
pub const SYSTEMD_UNIT_SUFFIX: &'static str = ".service";

/// Where the unit file for a service of this name lives.
pub open spec fn systemd_service_path_spec(name: Seq<char>) -> Seq<char> {
    SYSTEMD_UNIT_DIR@ + name + SYSTEMD_UNIT_SUFFIX@
}

/// The unit name `systemctl status` is asked about.
pub open spec fn systemd_status_unit_spec(name: Seq<char>) -> Seq<char> {
    name + SYSTEMD_UNIT_SUFFIX@
}

/// A service managed through systemd.
pub struct SystemD {
    /// The service's name, from which the unit file path and every control
    /// command's argument are derived.
    pub name: String,
    /// The service's human-readable description.
    pub description: String,
    /// The services this one requires to start first.
    pub dependencies: Vec<String>,
    /// The active unit template; read and replaced through `get_template`
    /// and `set_template`.
    pub template: String,
}

impl SystemD {
    /// A systemd backend for the named service, carrying the built-in unit
    /// template until a caller replaces it.
    pub fn new(name: String, description: String, dependencies: Vec<String>) -> (d: SystemD)
        ensures
            d.name == name,
            d.description == description,
            d.dependencies == dependencies,
            d.template_view() == SYSTEMD_UNIT_TEMPLATE@,
    {
        SystemD { name, description, dependencies, template: SYSTEMD_UNIT_TEMPLATE.to_owned() }
    }

    /// The argument vector of the reload command an install runs before
    /// enabling the unit.
    pub fn daemon_reload_command(&self) -> (v: Vec<String>)
        ensures
            v.deep_view() == seq!["systemctl"@, "daemon-reload"@],
    {
        argv2("systemctl", "daemon-reload")
    }

    /// The argument vector of the command that enables the unit at boot.
    pub fn enable_command(&self) -> (v: Vec<String>)
        ensures
            v.deep_view() == seq!["systemctl"@, "enable"@, self.name@],
    {
        argv3("systemctl", "enable", self.name.as_str())
    }

    /// The argument vector of the command that disables the unit, run before
    /// the unit file is removed.
    pub fn disable_command(&self) -> (v: Vec<String>)
        ensures
            v.deep_view() == seq!["systemctl"@, "disable"@, self.name@],
    {
        argv3("systemctl", "disable", self.name.as_str())
    }

    /// The argument vector of the start control command.
    pub fn start_command(&self) -> (v: Vec<String>)
        ensures
            v.deep_view() == seq!["systemctl"@, "start"@, self.name@],
    {
        argv3("systemctl", "start", self.name.as_str())
    }

    /// The argument vector of the stop control command.
    pub fn stop_command(&self) -> (v: Vec<String>)
        ensures
            v.deep_view() == seq!["systemctl"@, "stop"@, self.name@],
    {
        argv3("systemctl", "stop", self.name.as_str())
    }

    /// The argument vector of the status probe.
    pub fn status_command(&self) -> (v: Vec<String>)
        ensures
            v.deep_view() == seq![
                "systemctl"@,
                "status"@,
                systemd_status_unit_spec(self.name@),
            ],
    {
        let unit = concat2(self.name.as_str(), SYSTEMD_UNIT_SUFFIX);
        argv3("systemctl", "status", unit.as_str())
    }
}

impl Daemon for SystemD {
    open spec fn name_view(&self) -> Seq<char> {
        self.name@
    }

    open spec fn description_view(&self) -> Seq<char> {
        self.description@
    }

    open spec fn dependencies_view(&self) -> Seq<Seq<char>> {
        self.dependencies.deep_view()
    }

    open spec fn template_view(&self) -> Seq<char> {
        self.template@
    }

    open spec fn service_path_view(&self) -> Seq<char> {
        systemd_service_path_spec(self.name@)
    }

    open spec fn status_pattern_view(&self) -> Seq<char> {
        SYSTEMD_ACTIVE_MARKER@
    }

    fn get_template(&self) -> (t: &str) {
        self.template.as_str()
    }

    fn set_template(&mut self, new_template: &str) {
        self.template = new_template.to_owned();
    }

    fn service_path(&self) -> (p: String) {
        concat3(SYSTEMD_UNIT_DIR, self.name.as_str(), SYSTEMD_UNIT_SUFFIX)
    }

    fn status_pattern(&self) -> (p: String) {
        SYSTEMD_ACTIVE_MARKER.to_owned()
    }

    fn render_descriptor(&self, exe_path: &str, args: &Vec<String>) -> (d: String) {
        render_template(
            self.template.as_str(),
            self.name.as_str(),
            self.description.as_str(),
            &self.dependencies,
            exe_path,
            args,
        )
    }
}

} // verus!
