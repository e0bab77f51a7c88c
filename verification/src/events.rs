//! The vocabulary between the supervisor and the shell: the effects that the
//! supervisor asks for, the events that the shell reports, and the status
//! notices that observers of the primary service receive.

use vstd::prelude::*;
use vstd::string::*;
use crate::probe::PortOccupancy;
use crate::service::ServiceRole;
use crate::text::{decimal_digits, decimal_string};

verus! {

/// The name of the event that carries a status notice to the observers.
pub const BACKEND_STATUS_EVENT: &'static str = "backend-status";

/// The name of the event that tells the observers to clear their failure counters.
pub const CIRCUIT_RESET_EVENT: &'static str = "backend-circuit-reset";

/// On whose behalf a process is launched.
#[derive(Debug, Clone, Copy, PartialEq, Eq)]
pub enum Origin {
    /// The start sequence of the shell.
    Start,
    /// An explicit restart by the operator.
    Restart,
    /// An automatic respawn by the health monitor.
    Monitor,
}

/// What a probe is sent for.
#[derive(Debug, Clone, Copy, PartialEq, Eq)]
pub enum ProbePurpose {
    /// To find an instance that is already running.
    Adoption,
    /// To see whether a spawned process has come up.
    Readiness,
    /// The periodic check of a running service.
    Health,
}

/// Why a launch did not bring up the service.
#[derive(Debug, PartialEq, Eq)]
pub enum LaunchError {
    /// The executable is missing or the system refused to launch it.
    Spawn { reason: String },
    /// The process was spawned and never answered 2xx within the window.
    ReadinessTimeout { service: String, port: u16, waited_secs: u64 },
}

impl LaunchError {
    /// The text that describes the error to the operator.
    pub open spec fn spec_message(self) -> Seq<char> {
        match self {
            LaunchError::Spawn { reason } => reason@,
            LaunchError::ReadinessTimeout { service, port, waited_secs } => service@
                + " failed to become ready within "@ + decimal_digits(waited_secs as nat)
                + " seconds. Check that port "@ + decimal_digits(port as nat)
                + " is not blocked by another application."@,
        }
    }

    /// Describes the error to the operator. A readiness timeout names the
    /// port and suggests looking for a process that blocks it.
    pub fn message(&self) -> (res: String)
        ensures
            res@ == self.spec_message(),
    {
        match self {
            LaunchError::Spawn { reason } => reason.clone(),
            LaunchError::ReadinessTimeout { service, port, waited_secs } => {
                let mut s = service.clone();
                s.append(" failed to become ready within ");
                s.append(decimal_string(*waited_secs).as_str());
                s.append(" seconds. Check that port ");
                s.append(decimal_string(*port as u64).as_str());
                s.append(" is not blocked by another application.");
                s
            },
        }
    }
}

/// The three phases that a status notice can announce.
#[derive(Debug, Clone, Copy, PartialEq, Eq)]
pub enum StatusPhase {
    Starting,
    Ready,
    Error,
}

impl StatusPhase {
    /// The word that stands for the phase on the wire.
    pub open spec fn spec_name(self) -> Seq<char> {
        match self {
            StatusPhase::Starting => "starting"@,
            StatusPhase::Ready => "ready"@,
            StatusPhase::Error => "error"@,
        }
    }

    /// The word that stands for the phase on the wire.
    pub fn name(&self) -> (res: &'static str)
        ensures
            res@ == self.spec_name(),
    {
        match self {
            StatusPhase::Starting => "starting",
            StatusPhase::Ready => "ready",
            StatusPhase::Error => "error",
        }
    }
}

/// A status notice about the primary service.
#[derive(Debug, PartialEq, Eq)]
pub enum StatusEvent {
    /// The start sequence has begun.
    Starting,
    /// An explicit restart has begun.
    Restarting,
    /// The service is still coming up after `elapsed_secs` seconds of waiting.
    Progress { elapsed_secs: u64 },
    /// The service answers.
    Ready,
    /// The start sequence failed.
    Failed { error: LaunchError },
}

impl StatusEvent {
    /// The phase that the notice announces.
    pub open spec fn spec_phase(self) -> StatusPhase {
        match self {
            StatusEvent::Starting => StatusPhase::Starting,
            StatusEvent::Restarting => StatusPhase::Starting,
            StatusEvent::Progress { .. } => StatusPhase::Starting,
            StatusEvent::Ready => StatusPhase::Ready,
            StatusEvent::Failed { .. } => StatusPhase::Error,
        }
    }

    /// The phase that the notice announces.
    pub fn phase(&self) -> (res: StatusPhase)
        ensures
            res == self.spec_phase(),
    {
        match self {
            StatusEvent::Starting => StatusPhase::Starting,
            StatusEvent::Restarting => StatusPhase::Starting,
            StatusEvent::Progress { .. } => StatusPhase::Starting,
            StatusEvent::Ready => StatusPhase::Ready,
            StatusEvent::Failed { .. } => StatusPhase::Error,
        }
    }

    /// The text of the notice.
    pub open spec fn spec_message(self) -> Seq<char> {
        match self {
            StatusEvent::Starting => "Starting backend engine…"@,
            StatusEvent::Restarting => "Restarting backend engine…"@,
            StatusEvent::Progress { elapsed_secs } => "Starting backend engine… ("@
                + decimal_digits(elapsed_secs as nat) + "s)"@,
            StatusEvent::Ready => "Backend engine ready"@,
            StatusEvent::Failed { error } => "Backend engine failed to start: "@
                + error.spec_message(),
        }
    }

    /// The text of the notice.
    pub fn message(&self) -> (res: String)
        ensures
            res@ == self.spec_message(),
    {
        match self {
            StatusEvent::Starting => String::from_str("Starting backend engine…"),
            StatusEvent::Restarting => String::from_str("Restarting backend engine…"),
            StatusEvent::Progress { elapsed_secs } => {
                let mut s = String::from_str("Starting backend engine… (");
                s.append(decimal_string(*elapsed_secs).as_str());
                s.append("s)");
                s
            },
            StatusEvent::Ready => String::from_str("Backend engine ready"),
            StatusEvent::Failed { error } => {
                let mut s = String::from_str("Backend engine failed to start: ");
                s.append(error.message().as_str());
                s
            },
        }
    }
}

/// Where a supervisor stands in a sequence that waits for the shell.
#[derive(Debug, Clone, Copy, PartialEq, Eq)]
pub enum Phase {
    /// Nothing is in flight.
    Idle,
    /// The shell is looking for the service's executable.
    CheckingBinary,
    /// The probe that looks for an instance to adopt is out.
    Adopting,
    /// A spawn is out.
    Spawning { origin: Origin },
    /// Readiness probe number `attempt`, counted from 1, is out.
    AwaitingReady { origin: Origin, attempt: u32 },
}

impl Phase {
    /// Whether the phase belongs to a launch that the health monitor began.
    pub open spec fn spec_by_monitor(self) -> bool {
        match self {
            Phase::Spawning { origin } => origin is Monitor,
            Phase::AwaitingReady { origin, .. } => origin is Monitor,
            _ => false,
        }
    }

    /// Whether the phase belongs to a launch that the health monitor began.
    pub fn by_monitor(&self) -> (res: bool)
        ensures
            res == self.spec_by_monitor(),
    {
        match self {
            Phase::Spawning { origin: Origin::Monitor } => true,
            Phase::AwaitingReady { origin: Origin::Monitor, .. } => true,
            _ => false,
        }
    }

    /// Whether nothing is in flight.
    pub fn is_idle(&self) -> (res: bool)
        ensures
            res == (*self is Idle),
    {
        match self {
            Phase::Idle => true,
            _ => false,
        }
    }
}

/// One thing that the supervisor asks the shell to do. The shell performs the
/// effects of a list in order. `CheckBinary`, `Probe`, `Spawn` and
/// `ScheduleHealthCheck` each end in an [`Event`] that the shell reports back.
#[derive(Debug, PartialEq, Eq)]
pub enum Effect<H> {
    /// Send a status notice about the primary service to the observers.
    EmitStatus { event: StatusEvent },
    /// Tell the observers to clear their failure counters: the service is confirmed healthy.
    EmitCircuitReset,
    /// Pause.
    Sleep { millis: u64 },
    /// Look for the service's executable, then report `Event::BinaryChecked`.
    CheckBinary { role: ServiceRole },
    /// Probe the health endpoint on `port`, then report the result.
    Probe { role: ServiceRole, purpose: ProbePurpose, port: u16, timeout_secs: u64 },
    /// Spawn the service's executable, then report `Event::Spawned` or `Event::SpawnFailed`.
    Spawn { role: ServiceRole, origin: Origin },
    /// Ask the service on `port` to shut down; the outcome does not matter.
    RequestShutdown { role: ServiceRole, port: u16, timeout_secs: u64 },
    /// Kill the process behind `handle`, which the supervisor has given up.
    Kill { role: ServiceRole, handle: H },
    /// Report `Event::HealthTick` after `after_secs` seconds.
    ScheduleHealthCheck { role: ServiceRole, after_secs: u64 },
    /// Hand the error of a launch to whoever asked for it.
    ReportFailure { role: ServiceRole, origin: Origin, error: LaunchError },
    /// Tell the operator who asked for a restart that the service has come up.
    ReportSuccess { role: ServiceRole, origin: Origin },
}

/// One thing that happened, as the shell reports it to the manager.
#[derive(Debug, PartialEq, Eq)]
pub enum Event<H> {
    /// The shell asks for the start sequence.
    Start,
    /// The operator asks for a restart of the primary service.
    Restart,
    /// The shell asks to stop both services.
    Stop,
    /// The search for the executable has ended.
    BinaryChecked { role: ServiceRole, found: bool },
    /// The probe that looks for an instance to adopt has been judged.
    AdoptionChecked { role: ServiceRole, occupancy: PortOccupancy },
    /// A spawn succeeded; `handle` owns the new process.
    Spawned { role: ServiceRole, handle: H },
    /// A spawn failed.
    SpawnFailed { role: ServiceRole, reason: String },
    /// A readiness probe has been judged.
    ReadinessProbed { role: ServiceRole, healthy: bool },
    /// The pause before a health check is over.
    HealthTick { role: ServiceRole },
    /// A health probe has been judged.
    HealthProbed { role: ServiceRole, healthy: bool },
}

impl<H> Event<H> {
    /// The service that the event is about, if it is about one.
    pub open spec fn spec_role(self) -> Option<ServiceRole> {
        match self {
            Event::Start => None,
            Event::Restart => None,
            Event::Stop => None,
            Event::BinaryChecked { role, .. } => Some(role),
            Event::AdoptionChecked { role, .. } => Some(role),
            Event::Spawned { role, .. } => Some(role),
            Event::SpawnFailed { role, .. } => Some(role),
            Event::ReadinessProbed { role, .. } => Some(role),
            Event::HealthTick { role } => Some(role),
            Event::HealthProbed { role, .. } => Some(role),
        }
    }

    /// The service that the event is about, if it is about one.
    pub fn role(&self) -> (res: Option<ServiceRole>)
        ensures
            res == self.spec_role(),
    {
        match self {
            Event::Start => None,
            Event::Restart => None,
            Event::Stop => None,
            Event::BinaryChecked { role, .. } => Some(*role),
            Event::AdoptionChecked { role, .. } => Some(*role),
            Event::Spawned { role, .. } => Some(*role),
            Event::SpawnFailed { role, .. } => Some(*role),
            Event::ReadinessProbed { role, .. } => Some(*role),
            Event::HealthTick { role } => Some(*role),
            Event::HealthProbed { role, .. } => Some(*role),
        }
    }
}

} // verus!
