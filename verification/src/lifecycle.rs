//! The legality rules of the service lifecycle, shared by every backend: a
//! privilege failure short-circuits before any other check, an operation on a
//! missing descriptor fails with `NotInstalled`, and `install`, `start` and
//! `stop` refuse states they would not change. The gates decide one operation
//! each from the probed facts; [`HostModel`] carries those rules over an
//! in-memory picture of the host, on which the lifecycle laws are stated and
//! proved.

use vstd::prelude::*;
use crate::DaemonError;

verus! {

/// What `install` decides before writing anything: a privilege failure is
/// surfaced first; a descriptor already on disk refuses the install.
pub open spec fn install_outcome(privilege: Result<(), DaemonError>, installed: bool) -> Result<
    (),
    DaemonError,
> {
    if privilege is Err {
        privilege
    } else if installed {
        Err(DaemonError::AlreadyInstalled)
    } else {
        Ok(())
    }
}

/// What `remove` decides before deleting anything.
pub open spec fn remove_outcome(privilege: Result<(), DaemonError>, installed: bool) -> Result<
    (),
    DaemonError,
> {
    if privilege is Err {
        privilege
    } else if !installed {
        Err(DaemonError::NotInstalled)
    } else {
        Ok(())
    }
}

/// What `start` decides before running the start command: privilege first,
/// then presence of the descriptor, then the running-state probe, whose own
/// failure is surfaced as it came; a service already active refuses the
/// start.
pub open spec fn start_gate_outcome(
    privilege: Result<(), DaemonError>,
    installed: bool,
    running: Result<bool, DaemonError>,
) -> Result<(), DaemonError> {
    if privilege is Err {
        privilege
    } else if !installed {
        Err(DaemonError::NotInstalled)
    } else {
        match running {
            Ok(true) => Err(DaemonError::AlreadyRunning),
            Ok(false) => Ok(()),
            Err(e) => Err(e),
        }
    }
}

/// What `stop` decides before running the stop command; a service already
/// inactive refuses the stop.
pub open spec fn stop_gate_outcome(
    privilege: Result<(), DaemonError>,
    installed: bool,
    running: Result<bool, DaemonError>,
) -> Result<(), DaemonError> {
    if privilege is Err {
        privilege
    } else if !installed {
        Err(DaemonError::NotInstalled)
    } else {
        match running {
            Ok(false) => Err(DaemonError::AlreadyStopped),
            Ok(true) => Ok(()),
            Err(e) => Err(e),
        }
    }
}

/// What `status` answers: privilege first, then presence of the descriptor;
/// a stopped service is a clean `false`, not a failure.
pub open spec fn status_outcome(
    privilege: Result<(), DaemonError>,
    installed: bool,
    running: Result<bool, DaemonError>,
) -> Result<bool, DaemonError> {
    if privilege is Err {
        Err(privilege->Err_0)
    } else if !installed {
        Err(DaemonError::NotInstalled)
    } else {
        running
    }
}

/// Decides `install` from the privilege check and the descriptor probe.
pub fn gate_install(privilege: Result<(), DaemonError>, installed: bool) -> (r: Result<
    (),
    DaemonError,
>)
    ensures
        r == install_outcome(privilege, installed),
{
    match privilege {
        Err(e) => Err(e),
        Ok(()) => {
            if installed {
                Err(DaemonError::AlreadyInstalled)
            } else {
                Ok(())
            }
        },
    }
}

/// Decides `remove` from the privilege check and the descriptor probe.
pub fn gate_remove(privilege: Result<(), DaemonError>, installed: bool) -> (r: Result<
    (),
    DaemonError,
>)
    ensures
        r == remove_outcome(privilege, installed),
{
    match privilege {
        Err(e) => Err(e),
        Ok(()) => {
            if !installed {
                Err(DaemonError::NotInstalled)
            } else {
                Ok(())
            }
        },
    }
}

/// Decides whether `start` may run the start command.
pub fn gate_start(
    privilege: Result<(), DaemonError>,
    installed: bool,
    running: Result<bool, DaemonError>,
) -> (r: Result<(), DaemonError>)
    ensures
        r == start_gate_outcome(privilege, installed, running),
{
    match privilege {
        Err(e) => Err(e),
        Ok(()) => {
            if !installed {
                Err(DaemonError::NotInstalled)
            } else {
                match running {
                    Ok(true) => Err(DaemonError::AlreadyRunning),
                    Ok(false) => Ok(()),
                    Err(e) => Err(e),
                }
            }
        },
    }
}

/// Decides whether `stop` may run the stop command.
pub fn gate_stop(
    privilege: Result<(), DaemonError>,
    installed: bool,
    running: Result<bool, DaemonError>,
) -> (r: Result<(), DaemonError>)
    ensures
        r == stop_gate_outcome(privilege, installed, running),
{
    match privilege {
        Err(e) => Err(e),
        Ok(()) => {
            if !installed {
                Err(DaemonError::NotInstalled)
            } else {
                match running {
                    Ok(false) => Err(DaemonError::AlreadyStopped),
                    Ok(true) => Ok(()),
                    Err(e) => Err(e),
                }
            }
        },
    }
}

/// Decides `status` from the privilege check, the descriptor probe and the
/// running-state probe.
pub fn gate_status(
    privilege: Result<(), DaemonError>,
    installed: bool,
    running: Result<bool, DaemonError>,
) -> (r: Result<bool, DaemonError>)
    ensures
        r == status_outcome(privilege, installed, running),
{
    match privilege {
        Err(e) => Err(e),
        Ok(()) => {
            if !installed {
                Err(DaemonError::NotInstalled)
            } else {
                running
            }
        },
    }
}

/// Turns the start command's exit outcome into the operation's result.
pub fn finish_start(command_ok: bool) -> (r: Result<(), DaemonError>)
    ensures
        command_ok ==> r == Ok::<(), DaemonError>(()),
        !command_ok ==> r == Err::<(), DaemonError>(DaemonError::StartFailed),
{
    if command_ok {
        Ok(())
    } else {
        Err(DaemonError::StartFailed)
    }
}

/// Turns the stop command's exit outcome into the operation's result.
pub fn finish_stop(command_ok: bool) -> (r: Result<(), DaemonError>)
    ensures
        command_ok ==> r == Ok::<(), DaemonError>(()),
        !command_ok ==> r == Err::<(), DaemonError>(DaemonError::StopFailed),
{
    if command_ok {
        Ok(())
    } else {
        Err(DaemonError::StopFailed)
    }
}

/// An in-memory picture of the host state one service's lifecycle reads and
/// writes: the descriptor on disk, with its content, and whether the init
/// system reports the service running. The lifecycle laws are stated over it,
/// reading its `running` field as an accurate probe — on a live host the init
/// system is the arbiter, and a probe may also fail outright, which the gates
/// surface as the probe's own error.
pub struct HostModel {
    /// The rendered descriptor on disk, if the service is installed.
    pub descriptor: Option<String>,
    /// Whether the init system reports the service active.
    pub running: bool,
}

impl HostModel {
    /// A host on which the service was never installed.
    pub fn new() -> (m: HostModel)
        ensures
            !m.installed(),
            !m.running,
            m.descriptor is None,
    {
        HostModel { descriptor: None, running: false }
    }

    /// The service is installed when its descriptor is on disk.
    pub open spec fn installed(self) -> bool {
        self.descriptor is Some
    }

    /// Whether the descriptor is on disk.
    pub fn is_installed(&self) -> (b: bool)
        ensures
            b == self.installed(),
    {
        self.descriptor.is_some()
    }
}

/// `install` on the model: on success the rendered descriptor goes on disk;
/// on any refusal the host is untouched.
pub open spec fn spec_install(
    m: HostModel,
    privilege: Result<(), DaemonError>,
    rendered: String,
) -> (Result<(), DaemonError>, HostModel) {
    let r = install_outcome(privilege, m.installed());
    if r is Ok {
        (r, HostModel { descriptor: Some(rendered), running: m.running })
    } else {
        (r, m)
    }
}

/// `remove` on the model: on success the descriptor leaves the disk; on any
/// refusal the host is untouched.
pub open spec fn spec_remove(m: HostModel, privilege: Result<(), DaemonError>) -> (
    Result<(), DaemonError>,
    HostModel,
) {
    let r = remove_outcome(privilege, m.installed());
    if r is Ok {
        (r, HostModel { descriptor: None, running: m.running })
    } else {
        (r, m)
    }
}

/// `start` on the model, where the probe answers with the model's running
/// field; a failed start command leaves the host unchanged.
pub open spec fn spec_start(
    m: HostModel,
    privilege: Result<(), DaemonError>,
    command_ok: bool,
) -> (Result<(), DaemonError>, HostModel) {
    let gate = start_gate_outcome(privilege, m.installed(), Ok(m.running));
    if gate is Err {
        (gate, m)
    } else if command_ok {
        (Ok(()), HostModel { descriptor: m.descriptor, running: true })
    } else {
        (Err(DaemonError::StartFailed), m)
    }
}

/// `stop` on the model, where the probe answers with the model's running
/// field; a failed stop command leaves the host unchanged.
pub open spec fn spec_stop(
    m: HostModel,
    privilege: Result<(), DaemonError>,
    command_ok: bool,
) -> (Result<(), DaemonError>, HostModel) {
    let gate = stop_gate_outcome(privilege, m.installed(), Ok(m.running));
    if gate is Err {
        (gate, m)
    } else if command_ok {
        (Ok(()), HostModel { descriptor: m.descriptor, running: false })
    } else {
        (Err(DaemonError::StopFailed), m)
    }
}

/// `status` on the model: it never changes the host.
pub open spec fn spec_status(m: HostModel, privilege: Result<(), DaemonError>) -> Result<
    bool,
    DaemonError,
> {
    status_outcome(privilege, m.installed(), Ok(m.running))
}

impl HostModel {
    /// Runs `install` against the model, writing `rendered` as the
    /// descriptor when the gates allow it.
    pub fn apply_install(&mut self, privilege: Result<(), DaemonError>, rendered: String) -> (r:
        Result<(), DaemonError>)
        ensures
            (r, *final(self)) == spec_install(*old(self), privilege, rendered),
    {
        let gate = gate_install(privilege, self.is_installed());
        match gate {
            Ok(()) => {
                self.descriptor = Some(rendered);
                Ok(())
            },
            Err(e) => Err(e),
        }
    }

    /// Runs `remove` against the model.
    pub fn apply_remove(&mut self, privilege: Result<(), DaemonError>) -> (r: Result<
        (),
        DaemonError,
    >)
        ensures
            (r, *final(self)) == spec_remove(*old(self), privilege),
    {
        let gate = gate_remove(privilege, self.is_installed());
        match gate {
            Ok(()) => {
                self.descriptor = None;
                Ok(())
            },
            Err(e) => Err(e),
        }
    }

    /// Runs `start` against the model; `command_ok` is the start command's
    /// exit outcome, consulted only when the gates allow the start.
    pub fn apply_start(&mut self, privilege: Result<(), DaemonError>, command_ok: bool) -> (r:
        Result<(), DaemonError>)
        ensures
            (r, *final(self)) == spec_start(*old(self), privilege, command_ok),
    {
        let installed = self.is_installed();
        let gate = gate_start(privilege, installed, Ok(self.running));
        match gate {
            Ok(()) => {
                let r = finish_start(command_ok);
                if r.is_ok() {
                    self.running = true;
                }
                r
            },
            Err(e) => Err(e),
        }
    }

    /// Runs `stop` against the model; `command_ok` is the stop command's
    /// exit outcome, consulted only when the gates allow the stop.
    pub fn apply_stop(&mut self, privilege: Result<(), DaemonError>, command_ok: bool) -> (r:
        Result<(), DaemonError>)
        ensures
            (r, *final(self)) == spec_stop(*old(self), privilege, command_ok),
    {
        let installed = self.is_installed();
        let gate = gate_stop(privilege, installed, Ok(self.running));
        match gate {
            Ok(()) => {
                let r = finish_stop(command_ok);
                if r.is_ok() {
                    self.running = false;
                }
                r
            },
            Err(e) => Err(e),
        }
    }

    /// Runs `status` against the model.
    pub fn apply_status(&self, privilege: Result<(), DaemonError>) -> (r: Result<
        bool,
        DaemonError,
    >)
        ensures
            r == spec_status(*self, privilege),
    {
        gate_status(privilege, self.is_installed(), Ok(self.running))
    }
}

/// Installing twice with no intervening remove: the first install succeeds
/// and writes its descriptor; the second fails with `AlreadyInstalled` and
/// leaves that descriptor untouched.
pub proof fn lemma_install_twice(m: HostModel, first: String, second: String)
    requires
        !m.installed(),
    ensures
        ({
            let (r1, m1) = spec_install(m, Ok(()), first);
            let (r2, m2) = spec_install(m1, Ok(()), second);
            &&& r1 == Ok::<(), DaemonError>(())
            &&& m1.descriptor == Some(first)
            &&& r2 == Err::<(), DaemonError>(DaemonError::AlreadyInstalled)
            &&& m2 == m1
        }),
{
}

/// Removing a service that was never installed fails with `NotInstalled` and
/// changes nothing.
pub proof fn lemma_remove_before_install(m: HostModel)
    requires
        !m.installed(),
    ensures
        spec_remove(m, Ok(())) == (Err::<(), DaemonError>(DaemonError::NotInstalled), m),
{
}

/// Starting a service that was never installed fails with `NotInstalled` and
/// changes nothing, whatever the start command would have reported.
pub proof fn lemma_start_before_install(m: HostModel, command_ok: bool)
    requires
        !m.installed(),
    ensures
        spec_start(m, Ok(()), command_ok) == (
            Err::<(), DaemonError>(DaemonError::NotInstalled),
            m,
        ),
{
}

/// Starting twice with no intervening stop: the first start succeeds and the
/// second fails with `AlreadyRunning`, leaving the host as the first start
/// left it, whatever the second start command would have reported.
pub proof fn lemma_start_twice(m: HostModel, second_command_ok: bool)
    requires
        m.installed(),
        !m.running,
    ensures
        ({
            let (r1, m1) = spec_start(m, Ok(()), true);
            let (r2, m2) = spec_start(m1, Ok(()), second_command_ok);
            &&& r1 == Ok::<(), DaemonError>(())
            &&& m1.running
            &&& r2 == Err::<(), DaemonError>(DaemonError::AlreadyRunning)
            &&& m2 == m1
        }),
{
}

/// Stopping twice with no intervening start: the first stop succeeds and the
/// second fails with `AlreadyStopped`, leaving the host as the first stop
/// left it, whatever the second stop command would have reported.
pub proof fn lemma_stop_twice(m: HostModel, second_command_ok: bool)
    requires
        m.installed(),
        m.running,
    ensures
        ({
            let (r1, m1) = spec_stop(m, Ok(()), true);
            let (r2, m2) = spec_stop(m1, Ok(()), second_command_ok);
            &&& r1 == Ok::<(), DaemonError>(())
            &&& !m1.running
            &&& r2 == Err::<(), DaemonError>(DaemonError::AlreadyStopped)
            &&& m2 == m1
        }),
{
}

/// `status` before any install fails with `NotInstalled`; right after an
/// install, and before any start, it answers a clean `false`.
pub proof fn lemma_status_around_install(m: HostModel, rendered: String)
    requires
        !m.installed(),
        !m.running,
    ensures
        spec_status(m, Ok(())) == Err::<bool, DaemonError>(DaemonError::NotInstalled),
        ({
            let (r1, m1) = spec_install(m, Ok(()), rendered);
            &&& r1 == Ok::<(), DaemonError>(())
            &&& spec_status(m1, Ok(())) == Ok::<bool, DaemonError>(false)
        }),
{
}

/// A privilege failure short-circuits every operation: the failure comes
/// back as it was, and the host is untouched.
pub proof fn lemma_privilege_short_circuits(
    m: HostModel,
    e: DaemonError,
    rendered: String,
    command_ok: bool,
)
    ensures
        spec_install(m, Err(e), rendered) == (Err::<(), DaemonError>(e), m),
        spec_remove(m, Err(e)) == (Err::<(), DaemonError>(e), m),
        spec_start(m, Err(e), command_ok) == (Err::<(), DaemonError>(e), m),
        spec_stop(m, Err(e), command_ok) == (Err::<(), DaemonError>(e), m),
        spec_status(m, Err(e)) == Err::<bool, DaemonError>(e),
{
}

} // verus!
