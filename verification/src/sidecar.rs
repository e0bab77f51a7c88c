//! The manager of the two sidecar services.
//!
//! A [`BackendManager`] holds one supervisor for the backend engine and one for
//! the AI service that depends on it. It starts the primary service first and
//! the secondary one after it, stops them in the reverse order, and answers the
//! questions of the shell about readiness. The shell reports every event to
//! [`BackendManager::handle`] and performs the effects that come back.

use vstd::prelude::*;
use crate::backend_ports::AI_BACKEND_PORT;
use crate::events::{Effect, Event, ProbePurpose, StatusEvent};
use crate::probe::{
    check_health, port_occupancy, spec_health_outcome, spec_port_occupancy, ProbeResult,
};
use crate::service::{ServiceRole, ServiceSpec};
use crate::supervisor::ServiceSupervisor;

verus! {

/// What the shell shows of the AI service.
#[derive(Debug, Clone, Copy, PartialEq, Eq)]
pub struct AISidecarStatus {
    pub available: bool,
    pub running: bool,
    pub port: u16,
}

/// The two supervisors and what links them.
#[derive(Debug)]
pub struct BackendManager<H> {
    pub primary: ServiceSupervisor<H>,
    pub secondary: ServiceSupervisor<H>,
    /// Whether the start of the secondary service waits for the start
    /// sequence of the primary service to end.
    pub secondary_pending: bool,
}

/// The event that a probe result stands for: the verdict on the port for an
/// adoption probe, where `expected` is the name by which the service
/// identifies itself, and the verdict on the service's health for the others.
pub open spec fn spec_judge_probe<H>(
    role: ServiceRole,
    purpose: ProbePurpose,
    probe: ProbeResult,
    expected: Seq<char>,
) -> Event<H> {
    match purpose {
        ProbePurpose::Adoption => Event::AdoptionChecked {
            role,
            occupancy: spec_port_occupancy(probe, expected),
        },
        ProbePurpose::Readiness => Event::ReadinessProbed {
            role,
            healthy: spec_health_outcome(probe) is Healthy,
        },
        ProbePurpose::Health => Event::HealthProbed {
            role,
            healthy: spec_health_outcome(probe) is Healthy,
        },
    }
}

/// Judges the result of a probe that was sent for `purpose` to the service
/// `role`, which identifies itself as `expected`, and wraps the verdict as
/// the event to report.
pub fn judge_probe<H>(
    role: ServiceRole,
    purpose: ProbePurpose,
    probe: &ProbeResult,
    expected: &str,
) -> (res: Event<H>)
    ensures
        res == spec_judge_probe::<H>(role, purpose, *probe, expected@),
{
    match purpose {
        ProbePurpose::Adoption => Event::AdoptionChecked {
            role,
            occupancy: port_occupancy(probe, expected),
        },
        ProbePurpose::Readiness => Event::ReadinessProbed { role, healthy: check_health(probe) },
        ProbePurpose::Health => Event::HealthProbed { role, healthy: check_health(probe) },
    }
}

impl<H> BackendManager<H> {
    /// A manager of two services that were never started.
    pub open spec fn spec_with_specs(primary: ServiceSpec, secondary: ServiceSpec) -> Self {
        BackendManager {
            primary: ServiceSupervisor::spec_new(primary),
            secondary: ServiceSupervisor::spec_new(secondary),
            secondary_pending: false,
        }
    }

    /// Whether `self` is a manager of two services that were never started.
    pub open spec fn is_fresh(self) -> bool {
        self == Self::spec_with_specs(self.primary.config, self.secondary.config)
    }

    /// A manager of two services with the given configurations, neither started.
    pub fn with_specs(primary: ServiceSpec, secondary: ServiceSpec) -> (res: Self)
        ensures
            res == Self::spec_with_specs(primary, secondary),
    {
        BackendManager {
            primary: ServiceSupervisor::new(primary),
            secondary: ServiceSupervisor::new(secondary),
            secondary_pending: false,
        }
    }

    /// A manager of the backend engine and the AI service, neither started.
    pub fn new() -> (res: Self)
        ensures
            res.is_fresh(),
            res.primary.config.is_primary_default(),
            res.secondary.config.is_secondary_default(),
            res.wf(),
    {
        Self::with_specs(ServiceSpec::primary(), ServiceSpec::secondary())
    }

    /// What holds of every manager that began with [`Self::new`] or with
    /// configurations of the right roles: both supervisors are well formed,
    /// and the secondary service is ready, in flight or monitored only where
    /// the primary service is ready.
    pub open spec fn wf(self) -> bool {
        &&& self.primary.wf()
        &&& self.secondary.wf()
        &&& self.primary.config.role is Primary
        &&& self.secondary.config.role is Secondary
        &&& (self.secondary.state.ready || !(self.secondary.phase is Idle)
            || self.secondary.monitoring) ==> self.primary.state.ready
    }

    /// Whether the primary service has passed a readiness check.
    pub fn is_ready(&self) -> (res: bool)
        ensures
            res == self.primary.state.ready,
    {
        self.primary.state.ready
    }

    /// The snapshot of the secondary service.
    pub open spec fn spec_get_ai_status(self) -> AISidecarStatus {
        AISidecarStatus {
            available: self.secondary.available,
            running: self.secondary.available && self.secondary.state.running,
            port: self.secondary.config.port,
        }
    }

    /// The snapshot of the secondary service: whether it can be used, whether
    /// it runs, and its port. A service that cannot be used does not count as running.
    pub fn get_ai_status(&self) -> (res: AISidecarStatus)
        ensures
            res == self.spec_get_ai_status(),
    {
        AISidecarStatus {
            available: self.secondary.available,
            running: self.secondary.available && self.secondary.state.running,
            port: self.secondary.config.port,
        }
    }

    /// Once the start sequence of the primary service has ended, with or
    /// without success, the start of the secondary service is attempted. It
    /// goes on only where the primary service is ready.
    pub open spec fn spec_chain(self, effects: Seq<Effect<H>>) -> (Self, Seq<Effect<H>>) {
        if self.secondary_pending && self.primary.phase is Idle {
            (
                BackendManager {
                    secondary: self.secondary.spec_begin_start(self.primary.state.ready).0,
                    secondary_pending: false,
                    ..self
                },
                effects + self.secondary.spec_begin_start(self.primary.state.ready).1,
            )
        } else {
            (self, effects)
        }
    }

    fn chain(&mut self, effects: Vec<Effect<H>>) -> (res: Vec<Effect<H>>)
        ensures
            *final(self) == old(self).spec_chain(effects@).0,
            res@ == old(self).spec_chain(effects@).1,
    {
        let mut effects = effects;
        if self.secondary_pending && self.primary.phase.is_idle() {
            let mut rest = self.secondary.begin_start(self.primary.state.ready);
            effects.append(&mut rest);
            self.secondary_pending = false;
        }
        effects
    }

    /// The start sequence begins with the primary service. It begins once:
    /// where a service is ready, in flight or monitored already, a start
    /// changes nothing, so that only an explicit restart brings back a
    /// service that was given up. The secondary service follows when the
    /// primary sequence has ended.
    pub open spec fn spec_start(self) -> (Self, Seq<Effect<H>>) {
        if !self.primary.engaged() && !self.secondary.engaged() && !self.secondary_pending {
            BackendManager {
                primary: self.primary.spec_begin_start(true).0,
                secondary_pending: true,
                ..self
            }.spec_chain(self.primary.spec_begin_start(true).1)
        } else {
            (self, seq![])
        }
    }

    /// Begins the start sequence: the primary service announces the start and
    /// has its port probed for an instance to adopt.
    pub fn start(&mut self) -> (effects: Vec<Effect<H>>)
        ensures
            *final(self) == old(self).spec_start().0,
            effects@ == old(self).spec_start().1,
    {
        if !self.primary.is_engaged() && !self.secondary.is_engaged() && !self.secondary_pending {
            let effects = self.primary.begin_start(true);
            self.secondary_pending = true;
            self.chain(effects)
        } else {
            Vec::new()
        }
    }

    /// An explicit restart relaunches the primary service on the same
    /// supervisor, with the restart counter as it is, whatever is in flight.
    /// The process that the slot held is given up before the new one is spawned.
    pub open spec fn spec_restart(self) -> (Self, Seq<Effect<H>>) {
        BackendManager { primary: self.primary.spec_begin_restart().0, ..self }.spec_chain(
            self.primary.spec_begin_restart().1,
        )
    }

    /// Restarts the primary service at the operator's request.
    pub fn restart(&mut self) -> (effects: Vec<Effect<H>>)
        ensures
            *final(self) == old(self).spec_restart().0,
            effects@ == old(self).spec_restart().1,
    {
        let effects = self.primary.begin_restart();
        self.chain(effects)
    }

    /// Both services are stopped, the secondary one first: its shutdown
    /// request, grace period and kill all come before those of the primary
    /// service. A start of the secondary service that was still to come is dropped.
    pub open spec fn spec_stop(self) -> (Self, Seq<Effect<H>>) {
        (
            BackendManager {
                primary: self.primary.spec_stop().0,
                secondary: self.secondary.spec_stop().0,
                secondary_pending: false,
            },
            self.secondary.spec_stop().1 + self.primary.spec_stop().1,
        )
    }

    /// Stops both services, the secondary one before the primary one. A
    /// second call finds no handle left to kill.
    pub fn stop(&mut self) -> (effects: Vec<Effect<H>>)
        ensures
            *final(self) == old(self).spec_stop().0,
            effects@ == old(self).spec_stop().1,
    {
        let mut effects = self.secondary.stop();
        let mut rest = self.primary.stop();
        effects.append(&mut rest);
        self.secondary_pending = false;
        effects
    }

    /// The step of the manager: the state after `event` and the effects that
    /// the shell is to perform, in order. An event about a service goes to
    /// the supervisor of that service; after each step of the primary
    /// supervisor the manager looks whether the secondary service is due.
    pub open spec fn spec_handle(self, event: Event<H>) -> (Self, Seq<Effect<H>>) {
        match event {
            Event::Start => self.spec_start(),
            Event::Restart => self.spec_restart(),
            Event::Stop => self.spec_stop(),
            _ => match event.spec_role() {
                Some(ServiceRole::Secondary) => self.spec_secondary_step(
                    self.secondary.spec_step(event),
                ),
                _ => self.spec_primary_step(self.primary.spec_step(event)),
            },
        }
    }

    /// The manager after a step of its primary supervisor.
    pub open spec fn spec_primary_step(self, step: (ServiceSupervisor<H>, Seq<Effect<H>>)) -> (
        Self,
        Seq<Effect<H>>,
    ) {
        BackendManager { primary: step.0, ..self }.spec_chain(step.1)
    }

    /// The manager after a step of its secondary supervisor.
    pub open spec fn spec_secondary_step(self, step: (ServiceSupervisor<H>, Seq<Effect<H>>)) -> (
        Self,
        Seq<Effect<H>>,
    ) {
        (BackendManager { secondary: step.0, ..self }, step.1)
    }

    /// Takes one event and returns the effects to perform, in order.
    pub fn handle(&mut self, event: Event<H>) -> (effects: Vec<Effect<H>>)
        ensures
            *final(self) == old(self).spec_handle(event).0,
            effects@ == old(self).spec_handle(event).1,
    {
        match event {
            Event::Start => self.start(),
            Event::Restart => self.restart(),
            Event::Stop => self.stop(),
            _ => match event.role() {
                Some(ServiceRole::Secondary) => self.secondary.step(event),
                _ => {
                    let effects = self.primary.step(event);
                    self.chain(effects)
                },
            },
        }
    }

    /// The event that a probe result stands for, judged for the service that
    /// the probe was sent to.
    pub open spec fn spec_probe_event(
        self,
        role: ServiceRole,
        purpose: ProbePurpose,
        probe: ProbeResult,
    ) -> Event<H> {
        spec_judge_probe(
            role,
            purpose,
            probe,
            match role {
                ServiceRole::Primary => self.primary.config.executable@,
                ServiceRole::Secondary => self.secondary.config.executable@,
            },
        )
    }

    /// Judges the result of a probe and takes the event that it stands for.
    pub fn on_probe(&mut self, role: ServiceRole, purpose: ProbePurpose, probe: &ProbeResult) -> (effects:
        Vec<Effect<H>>)
        ensures
            *final(self) == old(self).spec_handle(old(self).spec_probe_event(role, purpose, *probe)).0,
            effects@ == old(self).spec_handle(old(self).spec_probe_event(role, purpose, *probe)).1,
    {
        let event = match role {
            ServiceRole::Primary => judge_probe(
                role,
                purpose,
                probe,
                self.primary.config.executable.as_str(),
            ),
            ServiceRole::Secondary => judge_probe(
                role,
                purpose,
                probe,
                self.secondary.config.executable.as_str(),
            ),
        };
        self.handle(event)
    }
}

/// Creates the manager of the backend engine and the AI service and begins
/// the start sequence.
pub fn start_backend<H>() -> (res: (BackendManager<H>, Vec<Effect<H>>))
    ensures
        res.0.primary.config.is_primary_default(),
        res.0.secondary.config.is_secondary_default(),
        res.0 == BackendManager::<H>::spec_with_specs(
            res.0.primary.config,
            res.0.secondary.config,
        ).spec_start().0,
        res.1@ == BackendManager::<H>::spec_with_specs(
            res.0.primary.config,
            res.0.secondary.config,
        ).spec_start().1,
{
    let mut manager = BackendManager::new();
    let effects = manager.start();
    (manager, effects)
}

/// The status that the shell shows for the primary service when asked: ready
/// once the service has passed a readiness check, starting before that and
/// where no manager exists yet.
pub open spec fn spec_get_backend_status<H>(manager: Option<&BackendManager<H>>) -> StatusEvent {
    match manager {
        Some(m) => if m.primary.state.ready {
            StatusEvent::Ready
        } else {
            StatusEvent::Starting
        },
        None => StatusEvent::Starting,
    }
}

/// Answers the question for the status of the primary service at once, so
/// that an observer who missed the ready notice still learns of it.
pub fn get_backend_status<H>(manager: Option<&BackendManager<H>>) -> (res: StatusEvent)
    ensures
        res == spec_get_backend_status(manager),
{
    match manager {
        Some(m) => if m.is_ready() {
            StatusEvent::Ready
        } else {
            StatusEvent::Starting
        },
        None => StatusEvent::Starting,
    }
}

/// The snapshot of the secondary service, or that of a service that is
/// neither available nor running where no manager exists yet.
pub open spec fn spec_get_ai_status<H>(manager: Option<&BackendManager<H>>) -> AISidecarStatus {
    match manager {
        Some(m) => m.spec_get_ai_status(),
        None => AISidecarStatus { available: false, running: false, port: AI_BACKEND_PORT },
    }
}

/// The snapshot of the secondary service.
pub fn get_ai_status<H>(manager: Option<&BackendManager<H>>) -> (res: AISidecarStatus)
    ensures
        res == spec_get_ai_status(manager),
{
    match manager {
        Some(m) => m.get_ai_status(),
        None => AISidecarStatus { available: false, running: false, port: AI_BACKEND_PORT },
    }
}

} // verus!
