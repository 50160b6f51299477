//! The SysV backend: init scripts under `/etc/init.d`, driven by the
//! `service` command. Installation renders the init script, marks it
//! executable and links it into the boot and shutdown runlevels; the status
//! probe is `service <name> status`, whose output must carry the service
//! name.

use vstd::prelude::*;
use crate::Daemon;
use crate::text::{argv3, concat2, render_template};

verus! {

/// The built-in SysV init script template, with its placeholder tokens.
pub const SYSTEMV_INIT_TEMPLATE: &'static str = r#"#! /bin/sh
#
#       /etc/rc.d/init.d/{Name}
#
#       Starts {Name} as a daemon
#
# chkconfig: 2345 87 17
# description: Starts and stops a single {Name} instance on this system

### BEGIN INIT INFO
# Provides: {Name} 
# Required-Start: $network $named
# Required-Stop: $network $named
# Default-Start: 2 3 4 5
# Default-Stop: 0 1 6
# Short-Description: This service manages the {Description}.
# Description: {Description}
### END INIT INFO

#
# Source function library.
#
if [ -f /etc/rc.d/init.d/functions ]; then
    . /etc/rc.d/init.d/functions
fi

exec="{Path}"
servname="{Description}"

proc="{Name}"
pidfile="/var/run/$proc.pid"
lockfile="/var/lock/subsys/$proc"
stdoutlog="/var/log/$proc.log"
stderrlog="/var/log/$proc.err"

[ -d $(dirname $lockfile) ] || mkdir -p $(dirname $lockfile)

[ -e /etc/sysconfig/$proc ] && . /etc/sysconfig/$proc

start() {
    [ -x $exec ] || exit 5

    if [ -f $pidfile ]; then
        if ! [ -d "/proc/$(cat $pidfile)" ]; then
            rm $pidfile
            if [ -f $lockfile ]; then
                rm $lockfile
            fi
        fi
    fi

    if ! [ -f $pidfile ]; then
        printf "Starting $servname:\t"
        echo "$(date)" >> $stdoutlog
        $exec {Args} >> $stdoutlog 2>> $stderrlog &
        echo $! > $pidfile
        touch $lockfile
        success
        echo
    else
        # failure
        echo
        printf "$pidfile still exists...\n"
        exit 7
    fi
}

stop() {
    echo -n $"Stopping $servname: "
    killproc -p $pidfile $proc
    retval=$?
    echo
    [ $retval -eq 0 ] && rm -f $lockfile
    return $retval
}

restart() {
    stop
    start
}

rh_status() {
    status -p $pidfile $proc
}

rh_status_q() {
    rh_status >/dev/null 2>&1
}

case "$1" in
    start)
        rh_status_q && exit 0
        $1
        ;;
    stop)
        rh_status_q || exit 0
        $1
        ;;
    restart)
        $1
        ;;
    status)
        rh_status
        ;;
    *)
        echo $"Usage: $0 {start|stop|status|restart}"
        exit 2
esac

exit $?
"#;

/// The directory prefix an init script's path starts with.
pub const SYSTEMV_SCRIPT_DIR: &'static str = "/etc/init.d/";

/// Where the init script for a service of this name lives.
pub open spec fn systemv_service_path_spec(name: Seq<char>) -> Seq<char> {
    SYSTEMV_SCRIPT_DIR@ + name
}

/// The runlevel symlinks an install creates and a remove deletes: start
/// links at priority 87 for runlevels 2 through 5, kill links at priority 17
/// for runlevels 0, 1 and 6, all pointing at the init script.
pub open spec fn rc_symlink_paths_spec(name: Seq<char>) -> Seq<Seq<char>> {
    seq![
        "/etc/rc2.d/S87"@ + name,
        "/etc/rc3.d/S87"@ + name,
        "/etc/rc4.d/S87"@ + name,
        "/etc/rc5.d/S87"@ + name,
        "/etc/rc0.d/K17"@ + name,
        "/etc/rc1.d/K17"@ + name,
        "/etc/rc6.d/K17"@ + name,
    ]
}

/// A service managed through SysV init.
pub struct SystemV {
    /// The service's name, from which the script path, the symlink names and
    /// every control command's argument are derived.
    pub name: String,
    /// The service's human-readable description.
    pub description: String,
    /// The services this one requires to start first.
    pub dependencies: Vec<String>,
    /// The active init script template; read and replaced through
    /// `get_template` and `set_template`.
    pub template: String,
}

impl SystemV {
    /// A SysV backend for the named service, carrying the built-in init
    /// script template until a caller replaces it.
    pub fn new(name: String, description: String, dependencies: Vec<String>) -> (d: SystemV)
        ensures
            d.name == name,
            d.description == description,
            d.dependencies == dependencies,
            d.template_view() == SYSTEMV_INIT_TEMPLATE@,
    {
        SystemV { name, description, dependencies, template: SYSTEMV_INIT_TEMPLATE.to_owned() }
    }

    /// The paths of the seven runlevel symlinks for this service.
    pub fn rc_symlink_paths(&self) -> (v: Vec<String>)
        ensures
            v.deep_view() == rc_symlink_paths_spec(self.name@),
    {
        let mut v: Vec<String> = Vec::new();
        v.push(concat2("/etc/rc2.d/S87", self.name.as_str()));
        v.push(concat2("/etc/rc3.d/S87", self.name.as_str()));
        v.push(concat2("/etc/rc4.d/S87", self.name.as_str()));
        v.push(concat2("/etc/rc5.d/S87", self.name.as_str()));
        v.push(concat2("/etc/rc0.d/K17", self.name.as_str()));
        v.push(concat2("/etc/rc1.d/K17", self.name.as_str()));
        v.push(concat2("/etc/rc6.d/K17", self.name.as_str()));
        proof {
            assert(v.deep_view() =~= rc_symlink_paths_spec(self.name@));
        }
        v
    }

    /// The permission bits the installed init script is given: readable and
    /// executable by everyone, writable by its owner.
    pub fn script_mode(&self) -> (m: u32)
        ensures
            m == 0o755,
    {
        0o755
    }

    /// The argument vector of the start control command.
    pub fn start_command(&self) -> (v: Vec<String>)
        ensures
            v.deep_view() == seq!["service"@, self.name@, "start"@],
    {
        argv3("service", self.name.as_str(), "start")
    }

    /// The argument vector of the stop control command.
    pub fn stop_command(&self) -> (v: Vec<String>)
        ensures
            v.deep_view() == seq!["service"@, self.name@, "stop"@],
    {
        argv3("service", self.name.as_str(), "stop")
    }

    /// The argument vector of the status probe.
    pub fn status_command(&self) -> (v: Vec<String>)
        ensures
            v.deep_view() == seq!["service"@, self.name@, "status"@],
    {
        argv3("service", self.name.as_str(), "status")
    }
}

impl Daemon for SystemV {
    open spec fn name_view(&self) -> Seq<char> {
        self.name@
    }

    open spec fn description_view(&self) -> Seq<char> {
        self.description@
    }

    open spec fn dependencies_view(&self) -> Seq<Seq<char>> {
        self.dependencies.deep_view()
    }

    open spec fn template_view(&self) -> Seq<char> {
        self.template@
    }

    open spec fn service_path_view(&self) -> Seq<char> {
        systemv_service_path_spec(self.name@)
    }

    /// For SysV the probe's output is searched for the service name itself.
    open spec fn status_pattern_view(&self) -> Seq<char> {
        self.name@
    }

    fn get_template(&self) -> (t: &str) {
        self.template.as_str()
    }

    fn set_template(&mut self, new_template: &str) {
        self.template = new_template.to_owned();
    }

    fn service_path(&self) -> (p: String) {
        concat2(SYSTEMV_SCRIPT_DIR, self.name.as_str())
    }

    fn status_pattern(&self) -> (p: String) {
        self.name.clone()
    }

    fn render_descriptor(&self, exe_path: &str, args: &Vec<String>) -> (d: String) {
        render_template(
            self.template.as_str(),
            self.name.as_str(),
            self.description.as_str(),
            &self.dependencies,
            exe_path,
            args,
        )
    }
}

} // verus!
