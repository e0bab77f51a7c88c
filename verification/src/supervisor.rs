//! The supervisor of one service.
//!
//! A [`ServiceSupervisor`] owns the state of one service and decides every step
//! of its life: whether to adopt an instance that already runs or to spawn one,
//! how long to wait for readiness, when the health monitor respawns and when it
//! gives up, and how the service is stopped. It performs no I/O. Each method
//! takes what the shell observed, moves the state on and returns the effects
//! that the shell is to perform next. What a method does is stated by the spec
//! function of the same name with the prefix `spec_`.

use vstd::prelude::*;
use crate::events::{Effect, Event, LaunchError, Origin, Phase, ProbePurpose, StatusEvent};
use crate::probe::PortOccupancy;
use crate::readiness::{
    elapsed_secs, progress_due, spec_elapsed_secs, spec_progress_due, spec_wait_verdict,
    wait_verdict, WaitVerdict,
};
use crate::service::{ServiceSpec, ServiceState};

verus! {

/// One service under supervision.
#[derive(Debug)]
pub struct ServiceSupervisor<H> {
    /// The fixed configuration of the service.
    pub config: ServiceSpec,
    pub state: ServiceState<H>,
    /// The sequence that is in flight, if any. A start begins only while none
    /// is; a restart and a stop supersede the one that is.
    pub phase: Phase,
    /// Whether the health monitor of the service has been started.
    pub monitoring: bool,
    /// Whether a health probe of the monitor is out.
    pub health_pending: bool,
    /// Whether the service can be used at all: its executable exists, its port
    /// is not held by a stranger and its restart budget is not spent.
    pub available: bool,
}

impl<H> ServiceSupervisor<H> {
    /// The supervisor of a service that was never started.
    pub open spec fn spec_new(config: ServiceSpec) -> Self {
        ServiceSupervisor {
            config,
            state: ServiceState::spec_new(),
            phase: Phase::Idle,
            monitoring: false,
            health_pending: false,
            available: false,
        }
    }

    /// The supervisor of a service that was never started.
    pub fn new(config: ServiceSpec) -> (res: Self)
        ensures
            res == Self::spec_new(config),
    {
        ServiceSupervisor {
            config,
            state: ServiceState::new(),
            phase: Phase::Idle,
            monitoring: false,
            health_pending: false,
            available: false,
        }
    }

    /// What holds of every supervisor that began with [`Self::new`]: the
    /// monitor probes and launches only once it has been started, a spawn is
    /// out only while the handle slot is empty, the readiness probe that is
    /// out is one of those that the configuration allows, only the secondary
    /// service has its executable looked for, and a service that counts as
    /// available has been ready.
    pub open spec fn wf(self) -> bool {
        &&& self.health_pending ==> self.monitoring
        &&& self.phase.spec_by_monitor() ==> self.monitoring
        &&& self.phase is Spawning ==> self.state.process_handle is None
        &&& self.phase matches Phase::AwaitingReady { attempt, .. } ==> 1 <= attempt
            <= self.config.readiness_attempts
        &&& !(self.config.role is Secondary) ==> !(self.phase is CheckingBinary)
        &&& self.available ==> self.state.ready
    }

    /// Whether anything was ever begun for the service and is still in
    /// effect: it is ready, in flight or monitored.
    pub open spec fn engaged(self) -> bool {
        self.state.ready || !(self.phase is Idle) || self.monitoring
    }

    /// Whether anything was ever begun for the service and is still in effect.
    pub fn is_engaged(&self) -> (res: bool)
        ensures
            res == self.engaged(),
    {
        self.state.ready || !self.phase.is_idle() || self.monitoring
    }

    /// The probe that the supervisor asks for.
    pub open spec fn probe_effect(self, purpose: ProbePurpose) -> Effect<H> {
        Effect::Probe {
            role: self.config.role,
            purpose,
            port: self.config.port,
            timeout_secs: if purpose is Adoption {
                self.config.adoption_timeout_secs
            } else {
                self.config.health_timeout_secs
            },
        }
    }

    /// The request for the next health check.
    pub open spec fn schedule_effect(self) -> Effect<H> {
        Effect::ScheduleHealthCheck {
            role: self.config.role,
            after_secs: self.config.health_interval_secs,
        }
    }

    /// A status notice, which goes out for the primary service only.
    pub open spec fn status_effects(self, event: StatusEvent) -> Seq<Effect<H>> {
        if self.config.role is Primary {
            seq![Effect::EmitStatus { event }]
        } else {
            seq![]
        }
    }

    /// The announcement that the service answers: a ready notice and a circuit
    /// reset, for the primary service only.
    pub open spec fn ready_effects(self) -> Seq<Effect<H>> {
        if self.config.role is Primary {
            seq![Effect::EmitStatus { event: StatusEvent::Ready }, Effect::EmitCircuitReset]
        } else {
            seq![]
        }
    }

    /// The kill of a process that the supervisor gives up, if there is one.
    pub open spec fn kill_effects(self, handle: Option<H>) -> Seq<Effect<H>> {
        match handle {
            Some(handle) => seq![Effect::Kill { role: self.config.role, handle }],
            None => seq![],
        }
    }

    /// A pause, unless it is empty.
    pub open spec fn sleep_effects(millis: u64) -> Seq<Effect<H>> {
        if millis > 0 {
            seq![Effect::Sleep { millis }]
        } else {
            seq![]
        }
    }

    fn make_probe(&self, purpose: ProbePurpose) -> (res: Effect<H>)
        ensures
            res == self.probe_effect(purpose),
    {
        let timeout_secs = match purpose {
            ProbePurpose::Adoption => self.config.adoption_timeout_secs,
            _ => self.config.health_timeout_secs,
        };
        Effect::Probe { role: self.config.role, purpose, port: self.config.port, timeout_secs }
    }

    fn make_schedule(&self) -> (res: Effect<H>)
        ensures
            res == self.schedule_effect(),
    {
        Effect::ScheduleHealthCheck {
            role: self.config.role,
            after_secs: self.config.health_interval_secs,
        }
    }

    fn push_status(&self, effects: &mut Vec<Effect<H>>, event: StatusEvent)
        ensures
            final(effects)@ == old(effects)@ + self.status_effects(event),
    {
        if self.config.role.is_primary() {
            effects.push(Effect::EmitStatus { event });
        }
    }

    fn push_ready(&self, effects: &mut Vec<Effect<H>>)
        ensures
            final(effects)@ == old(effects)@ + self.ready_effects(),
    {
        if self.config.role.is_primary() {
            effects.push(Effect::EmitStatus { event: StatusEvent::Ready });
            effects.push(Effect::EmitCircuitReset);
        }
    }

    fn push_kill(&self, effects: &mut Vec<Effect<H>>, handle: Option<H>)
        ensures
            final(effects)@ == old(effects)@ + self.kill_effects(handle),
    {
        match handle {
            Some(handle) => {
                effects.push(Effect::Kill { role: self.config.role, handle });
            },
            None => {},
        }
    }

    fn push_sleep(effects: &mut Vec<Effect<H>>, millis: u64)
        ensures
            final(effects)@ == old(effects)@ + Self::sleep_effects(millis),
    {
        if millis > 0 {
            effects.push(Effect::Sleep { millis });
        }
    }

    /// A launch: the stale process, if the slot holds one, is killed, the
    /// monitor pauses before it respawns, and the spawn goes out.
    pub open spec fn spec_launch(self, origin: Origin) -> (Self, Seq<Effect<H>>) {
        (
            ServiceSupervisor {
                state: ServiceState { process_handle: None, ..self.state },
                phase: Phase::Spawning { origin },
                ..self
            },
            self.kill_effects(self.state.process_handle) + (if origin is Monitor {
                Self::sleep_effects(self.config.restart_delay_ms)
            } else {
                seq![]
            }) + seq![Effect::Spawn { role: self.config.role, origin }],
        )
    }

    fn launch(&mut self, origin: Origin) -> (effects: Vec<Effect<H>>)
        ensures
            *final(self) == old(self).spec_launch(origin).0,
            effects@ == old(self).spec_launch(origin).1,
    {
        let mut effects = Vec::new();
        let stale = self.state.take_handle();
        self.push_kill(&mut effects, stale);
        match origin {
            Origin::Monitor => {
                Self::push_sleep(&mut effects, self.config.restart_delay_ms);
            },
            _ => {},
        }
        effects.push(Effect::Spawn { role: self.config.role, origin });
        self.phase = Phase::Spawning { origin };
        effects
    }

    /// The answer to the operator who asked for a restart that came up.
    pub open spec fn success_effects(self, origin: Origin) -> Seq<Effect<H>> {
        if origin is Restart {
            seq![Effect::ReportSuccess { role: self.config.role, origin }]
        } else {
            seq![]
        }
    }

    /// The end of a sequence that brought the service up: it runs and is
    /// ready, observers of the primary service hear of it, the operator who
    /// asked for a restart is answered, and the health monitor starts if it
    /// had not, or goes on if the launch was its own.
    pub open spec fn spec_succeed(self, origin: Origin) -> (Self, Seq<Effect<H>>) {
        (
            ServiceSupervisor {
                state: ServiceState { running: true, ready: true, ..self.state },
                phase: Phase::Idle,
                monitoring: true,
                available: true,
                ..self
            },
            self.ready_effects() + self.success_effects(origin) + (if !self.monitoring
                || origin is Monitor {
                seq![self.schedule_effect()]
            } else {
                seq![]
            }),
        )
    }

    fn succeed(&mut self, origin: Origin) -> (effects: Vec<Effect<H>>)
        ensures
            *final(self) == old(self).spec_succeed(origin).0,
            effects@ == old(self).spec_succeed(origin).1,
    {
        let mut effects = Vec::new();
        self.push_ready(&mut effects);
        let by_monitor = match origin {
            Origin::Monitor => true,
            _ => false,
        };
        match origin {
            Origin::Restart => {
                effects.push(Effect::ReportSuccess { role: self.config.role, origin });
            },
            _ => {},
        }
        if !self.monitoring || by_monitor {
            effects.push(self.make_schedule());
        }
        self.state.running = true;
        self.state.ready = true;
        self.phase = Phase::Idle;
        self.monitoring = true;
        self.available = true;
        effects
    }

    /// The end of a launch that failed. A failed start leaves the service
    /// down: it counts neither as running nor as available, whether the spawn
    /// failed or the readiness wait ran out, and the observers of the primary
    /// service are told. A process that was spawned stays in the slot and is
    /// not killed. Every other failure is handed to whoever asked for the
    /// launch and leaves `running` as it is. The monitor goes on after a
    /// failure of its own.
    pub open spec fn spec_fail(self, origin: Origin, error: LaunchError) -> (Self, Seq<Effect<H>>) {
        (
            ServiceSupervisor {
                state: ServiceState {
                    running: if origin is Start {
                        false
                    } else {
                        self.state.running
                    },
                    ..self.state
                },
                phase: Phase::Idle,
                available: if origin is Start {
                    false
                } else {
                    self.available
                },
                ..self
            },
            (if origin is Start && self.config.role is Primary {
                seq![Effect::EmitStatus { event: StatusEvent::Failed { error } }]
            } else {
                seq![Effect::ReportFailure { role: self.config.role, origin, error }]
            }) + (if origin is Monitor {
                seq![self.schedule_effect()]
            } else {
                seq![]
            }),
        )
    }

    fn fail(&mut self, origin: Origin, error: LaunchError) -> (effects: Vec<Effect<H>>)
        ensures
            *final(self) == old(self).spec_fail(origin, error).0,
            effects@ == old(self).spec_fail(origin, error).1,
    {
        let mut effects = Vec::new();
        match origin {
            Origin::Start => {
                if self.config.role.is_primary() {
                    effects.push(Effect::EmitStatus { event: StatusEvent::Failed { error } });
                } else {
                    effects.push(Effect::ReportFailure { role: self.config.role, origin, error });
                }
                self.state.running = false;
                self.available = false;
            },
            Origin::Restart => {
                effects.push(Effect::ReportFailure { role: self.config.role, origin, error });
            },
            Origin::Monitor => {
                effects.push(Effect::ReportFailure { role: self.config.role, origin, error });
                effects.push(self.make_schedule());
            },
        }
        self.phase = Phase::Idle;
        effects
    }

    /// The start sequence begins, unless something is in flight. A service
    /// whose dependency is not ready stays down and is marked unavailable.
    /// The secondary service first has its executable looked for; the primary
    /// service announces the start and probes its port for an instance to adopt.
    pub open spec fn spec_begin_start(self, dependency_ready: bool) -> (Self, Seq<Effect<H>>) {
        if !(self.phase is Idle) {
            (self, seq![])
        } else if !dependency_ready {
            (ServiceSupervisor { available: false, ..self }, seq![])
        } else if self.config.role is Secondary {
            (
                ServiceSupervisor { phase: Phase::CheckingBinary, ..self },
                seq![Effect::CheckBinary { role: self.config.role }],
            )
        } else {
            (
                ServiceSupervisor { phase: Phase::Adopting, ..self },
                self.status_effects(StatusEvent::Starting) + seq![
                    self.probe_effect(ProbePurpose::Adoption),
                ],
            )
        }
    }

    /// Begins the start sequence of the service. `dependency_ready` says
    /// whether the service that this one depends on is ready; a service
    /// without dependency passes `true`.
    pub fn begin_start(&mut self, dependency_ready: bool) -> (effects: Vec<Effect<H>>)
        ensures
            *final(self) == old(self).spec_begin_start(dependency_ready).0,
            effects@ == old(self).spec_begin_start(dependency_ready).1,
    {
        let mut effects = Vec::new();
        if !self.phase.is_idle() {
            return effects;
        }
        if !dependency_ready {
            self.available = false;
            return effects;
        }
        if self.config.role.is_primary() {
            self.push_status(&mut effects, StatusEvent::Starting);
            effects.push(self.make_probe(ProbePurpose::Adoption));
            self.phase = Phase::Adopting;
        } else {
            effects.push(Effect::CheckBinary { role: self.config.role });
            self.phase = Phase::CheckingBinary;
        }
        effects
    }

    /// The search for the executable has ended: without executable the
    /// service is unavailable and nothing is spawned; with it the port is
    /// probed for an instance to adopt.
    pub open spec fn spec_on_binary_checked(self, found: bool) -> (Self, Seq<Effect<H>>) {
        if !(self.phase is CheckingBinary) {
            (self, seq![])
        } else if !found {
            (ServiceSupervisor { phase: Phase::Idle, available: false, ..self }, seq![])
        } else {
            (
                ServiceSupervisor { phase: Phase::Adopting, ..self },
                seq![self.probe_effect(ProbePurpose::Adoption)],
            )
        }
    }

    /// Takes the outcome of the search for the service's executable.
    pub fn on_binary_checked(&mut self, found: bool) -> (effects: Vec<Effect<H>>)
        ensures
            *final(self) == old(self).spec_on_binary_checked(found).0,
            effects@ == old(self).spec_on_binary_checked(found).1,
    {
        let mut effects = Vec::new();
        match self.phase {
            Phase::CheckingBinary => {
                if found {
                    effects.push(self.make_probe(ProbePurpose::Adoption));
                    self.phase = Phase::Adopting;
                } else {
                    self.phase = Phase::Idle;
                    self.available = false;
                }
            },
            _ => {},
        }
        effects
    }

    /// Whether the service leaves a port alone that a stranger holds. The
    /// secondary service does, so as not to bind a port that a foreign
    /// process may be using; the primary service spawns regardless.
    pub open spec fn yields_to_strangers(self) -> bool {
        self.config.role is Secondary
    }

    /// The port has been judged. An instance of the service itself is
    /// adopted: the service runs and is ready, no process is spawned and no
    /// handle is held. A stranger on the port makes the secondary service
    /// unavailable. In every other case the service is launched.
    pub open spec fn spec_on_adoption(self, occupancy: PortOccupancy) -> (Self, Seq<Effect<H>>) {
        if !(self.phase is Adopting) {
            (self, seq![])
        } else if occupancy is Ours {
            (
                self.spec_succeed(Origin::Start).0,
                Self::sleep_effects(self.config.adoption_settle_ms) + self.spec_succeed(
                    Origin::Start,
                ).1,
            )
        } else if occupancy is Foreign && self.yields_to_strangers() {
            (ServiceSupervisor { phase: Phase::Idle, available: false, ..self }, seq![])
        } else {
            self.spec_launch(Origin::Start)
        }
    }

    /// Takes the verdict on the probe that looked for an instance to adopt.
    pub fn on_adoption(&mut self, occupancy: PortOccupancy) -> (effects: Vec<Effect<H>>)
        ensures
            *final(self) == old(self).spec_on_adoption(occupancy).0,
            effects@ == old(self).spec_on_adoption(occupancy).1,
    {
        match self.phase {
            Phase::Adopting => {},
            _ => {
                return Vec::new();
            },
        }
        match occupancy {
            PortOccupancy::Ours => {
                let mut effects = Vec::new();
                Self::push_sleep(&mut effects, self.config.adoption_settle_ms);
                let mut rest = self.succeed(Origin::Start);
                effects.append(&mut rest);
                effects
            },
            PortOccupancy::Foreign => {
                if self.config.role.is_primary() {
                    self.launch(Origin::Start)
                } else {
                    self.phase = Phase::Idle;
                    self.available = false;
                    Vec::new()
                }
            },
            PortOccupancy::Vacant => self.launch(Origin::Start),
        }
    }

    /// What keeps the health monitor going where its own launch is abandoned.
    pub open spec fn resume_effects(self) -> Seq<Effect<H>> {
        if self.phase.spec_by_monitor() {
            seq![self.schedule_effect()]
        } else {
            seq![]
        }
    }

    /// An explicit restart launches the service on this same supervisor, with
    /// the counters as they are, whatever is in flight: the notice goes out,
    /// the process that the slot holds is given up, and one spawn is asked
    /// for. A sequence that was in flight is superseded: its verdicts are no
    /// longer waited for, and the health monitor, if the sequence was its
    /// own, is asked for its next round.
    pub open spec fn spec_begin_restart(self) -> (Self, Seq<Effect<H>>) {
        (
            self.spec_launch(Origin::Restart).0,
            self.status_effects(StatusEvent::Restarting) + self.spec_launch(Origin::Restart).1
                + self.resume_effects(),
        )
    }

    /// Begins an explicit restart.
    pub fn begin_restart(&mut self) -> (effects: Vec<Effect<H>>)
        ensures
            *final(self) == old(self).spec_begin_restart().0,
            effects@ == old(self).spec_begin_restart().1,
    {
        let mut effects = Vec::new();
        let resume = self.phase.by_monitor();
        self.push_status(&mut effects, StatusEvent::Restarting);
        let mut rest = self.launch(Origin::Restart);
        effects.append(&mut rest);
        if resume {
            effects.push(self.make_schedule());
        }
        effects
    }

    /// The error of a wait that ran out.
    pub open spec fn timeout_error(self) -> LaunchError {
        LaunchError::ReadinessTimeout {
            service: self.config.name,
            port: self.config.port,
            waited_secs: spec_elapsed_secs(
                self.config.readiness_attempts,
                self.config.readiness_interval_ms,
            ) as u64,
        }
    }

    fn make_timeout_error(&self) -> (res: LaunchError)
        ensures
            res == self.timeout_error(),
    {
        LaunchError::ReadinessTimeout {
            service: self.config.name.clone(),
            port: self.config.port,
            waited_secs: elapsed_secs(
                self.config.readiness_attempts,
                self.config.readiness_interval_ms,
            ),
        }
    }

    /// A spawn succeeded. Where the supervisor waits for it, the handle goes
    /// into the slot, the service counts as running while the readiness wait
    /// goes on, and that wait begins. A handle that nobody waits for is killed at once, and so is a
    /// handle that the new one would displace.
    pub open spec fn spec_on_spawned(self, handle: H) -> (Self, Seq<Effect<H>>) {
        match self.phase {
            Phase::Spawning { origin } => {
                let held = ServiceSupervisor {
                    state: ServiceState {
                        running: true,
                        process_handle: Some(handle),
                        ..self.state
                    },
                    ..self
                };
                let displaced = self.kill_effects(self.state.process_handle);
                if self.config.readiness_attempts == 0 {
                    (
                        held.spec_fail(origin, self.timeout_error()).0,
                        displaced + held.spec_fail(origin, self.timeout_error()).1,
                    )
                } else {
                    (
                        ServiceSupervisor {
                            phase: Phase::AwaitingReady { origin, attempt: 1 },
                            ..held
                        },
                        displaced + seq![self.probe_effect(ProbePurpose::Readiness)],
                    )
                }
            },
            _ => (self, seq![Effect::Kill { role: self.config.role, handle }]),
        }
    }

    /// Takes the handle of a process that the shell spawned.
    pub fn on_spawned(&mut self, handle: H) -> (effects: Vec<Effect<H>>)
        ensures
            *final(self) == old(self).spec_on_spawned(handle).0,
            effects@ == old(self).spec_on_spawned(handle).1,
    {
        let mut effects = Vec::new();
        match self.phase {
            Phase::Spawning { origin } => {
                let displaced = self.state.take_handle();
                self.push_kill(&mut effects, displaced);
                self.state.process_handle = Some(handle);
                self.state.running = true;
                if self.config.readiness_attempts == 0 {
                    let error = self.make_timeout_error();
                    let mut rest = self.fail(origin, error);
                    effects.append(&mut rest);
                } else {
                    effects.push(self.make_probe(ProbePurpose::Readiness));
                    self.phase = Phase::AwaitingReady { origin, attempt: 1 };
                }
            },
            _ => {
                effects.push(Effect::Kill { role: self.config.role, handle });
            },
        }
        effects
    }

    /// A spawn failed: the launch ends with that error. A failed start leaves
    /// the service down; after a failed restart or respawn `running` is as it was.
    pub open spec fn spec_on_spawn_failed(self, reason: String) -> (Self, Seq<Effect<H>>) {
        match self.phase {
            Phase::Spawning { origin } => self.spec_fail(origin, LaunchError::Spawn { reason }),
            _ => (self, seq![]),
        }
    }

    /// Takes the error of a spawn that failed.
    pub fn on_spawn_failed(&mut self, reason: String) -> (effects: Vec<Effect<H>>)
        ensures
            *final(self) == old(self).spec_on_spawn_failed(reason).0,
            effects@ == old(self).spec_on_spawn_failed(reason).1,
    {
        match self.phase {
            Phase::Spawning { origin } => self.fail(origin, LaunchError::Spawn { reason }),
            _ => Vec::new(),
        }
    }

    /// The progress notice after failed readiness probe number `attempt`.
    pub open spec fn progress_effects(self, attempt: u32) -> Seq<Effect<H>> {
        if spec_progress_due(attempt) {
            self.status_effects(
                StatusEvent::Progress {
                    elapsed_secs: spec_elapsed_secs(attempt, self.config.readiness_interval_ms) as u64,
                },
            )
        } else {
            seq![]
        }
    }

    /// The pause after a failed readiness probe.
    pub open spec fn readiness_pause(self) -> Effect<H> {
        Effect::Sleep { millis: self.config.readiness_interval_ms as u64 }
    }

    /// A readiness probe has been judged. The first healthy probe ends the
    /// wait with success. A failed probe is followed by a pause, and then by
    /// the next probe or, after the last attempt, by the timeout error; the
    /// process that was spawned is left alone, and a start whose wait ran out
    /// leaves the service counted as down. Every fourth failed probe is
    /// announced with the time waited so far.
    pub open spec fn spec_on_readiness(self, healthy: bool) -> (Self, Seq<Effect<H>>) {
        match self.phase {
            Phase::AwaitingReady { origin, attempt } => match spec_wait_verdict(
                self.config.readiness_attempts,
                attempt,
                healthy,
            ) {
                WaitVerdict::Ready => self.spec_succeed(origin),
                WaitVerdict::Retry => (
                    ServiceSupervisor {
                        phase: Phase::AwaitingReady { origin, attempt: (attempt + 1) as u32 },
                        ..self
                    },
                    self.progress_effects(attempt) + seq![
                        self.readiness_pause(),
                        self.probe_effect(ProbePurpose::Readiness),
                    ],
                ),
                WaitVerdict::TimedOut => (
                    self.spec_fail(origin, self.timeout_error()).0,
                    self.progress_effects(attempt) + seq![self.readiness_pause()] + self.spec_fail(
                        origin,
                        self.timeout_error(),
                    ).1,
                ),
            },
            _ => (self, seq![]),
        }
    }

    /// Takes the verdict on a readiness probe.
    pub fn on_readiness(&mut self, healthy: bool) -> (effects: Vec<Effect<H>>)
        ensures
            *final(self) == old(self).spec_on_readiness(healthy).0,
            effects@ == old(self).spec_on_readiness(healthy).1,
    {
        match self.phase {
            Phase::AwaitingReady { origin, attempt } => {
                match wait_verdict(self.config.readiness_attempts, attempt, healthy) {
                    WaitVerdict::Ready => self.succeed(origin),
                    WaitVerdict::Retry => {
                        let mut effects = Vec::new();
                        self.push_progress(&mut effects, attempt);
                        effects.push(
                            Effect::Sleep { millis: self.config.readiness_interval_ms as u64 },
                        );
                        effects.push(self.make_probe(ProbePurpose::Readiness));
                        self.phase = Phase::AwaitingReady { origin, attempt: attempt + 1 };
                        effects
                    },
                    WaitVerdict::TimedOut => {
                        let mut effects = Vec::new();
                        self.push_progress(&mut effects, attempt);
                        effects.push(
                            Effect::Sleep { millis: self.config.readiness_interval_ms as u64 },
                        );
                        let error = self.make_timeout_error();
                        let mut rest = self.fail(origin, error);
                        effects.append(&mut rest);
                        effects
                    },
                }
            },
            _ => Vec::new(),
        }
    }

    fn push_progress(&self, effects: &mut Vec<Effect<H>>, attempt: u32)
        ensures
            final(effects)@ == old(effects)@ + self.progress_effects(attempt),
    {
        if progress_due(attempt) {
            let elapsed = elapsed_secs(attempt, self.config.readiness_interval_ms);
            self.push_status(effects, StatusEvent::Progress { elapsed_secs: elapsed });
        }
    }

    /// The pause before a health check is over. A monitor that was never
    /// started, or whose probe is still out, does nothing. A service that
    /// does not run, or that is being launched, is skipped until the next
    /// round. Otherwise the health probe goes out.
    pub open spec fn spec_on_health_tick(self) -> (Self, Seq<Effect<H>>) {
        if !self.monitoring || self.health_pending {
            (self, seq![])
        } else if !self.state.running || !(self.phase is Idle) {
            (self, seq![self.schedule_effect()])
        } else {
            (
                ServiceSupervisor { health_pending: true, ..self },
                seq![self.probe_effect(ProbePurpose::Health)],
            )
        }
    }

    /// Begins one round of the health monitor.
    pub fn on_health_tick(&mut self) -> (effects: Vec<Effect<H>>)
        ensures
            *final(self) == old(self).spec_on_health_tick().0,
            effects@ == old(self).spec_on_health_tick().1,
    {
        let mut effects = Vec::new();
        if !self.monitoring || self.health_pending {
            return effects;
        }
        if !self.state.running || !self.phase.is_idle() {
            effects.push(self.make_schedule());
            return effects;
        }
        effects.push(self.make_probe(ProbePurpose::Health));
        self.health_pending = true;
        effects
    }

    /// The restart counter after one more failed health check. It stops at the
    /// largest number that it can hold.
    pub open spec fn next_restart_count(count: u32) -> u32 {
        if count < u32::MAX {
            (count + 1) as u32
        } else {
            count
        }
    }

    /// A health probe has been judged. A healthy probe changes nothing. A
    /// failed probe is counted; while the count stays within
    /// `max_restart_attempts` the service is respawned, and once it exceeds
    /// them the service is marked stopped and unavailable, and nothing is
    /// spawned. A probe whose service was stopped or relaunched while it was
    /// out is not counted. The monitor asks for its next round unless it
    /// respawns.
    pub open spec fn spec_on_health(self, healthy: bool) -> (Self, Seq<Effect<H>>) {
        if !self.health_pending {
            (self, seq![])
        } else {
            let s = ServiceSupervisor { health_pending: false, ..self };
            if healthy || !s.state.running || !(s.phase is Idle) {
                (s, seq![s.schedule_effect()])
            } else if s.state.restart_count < s.config.max_restart_attempts {
                ServiceSupervisor {
                    state: ServiceState {
                        restart_count: Self::next_restart_count(s.state.restart_count),
                        ..s.state
                    },
                    ..s
                }.spec_launch(Origin::Monitor)
            } else {
                (
                    ServiceSupervisor {
                        state: ServiceState {
                            running: false,
                            restart_count: Self::next_restart_count(s.state.restart_count),
                            ..s.state
                        },
                        available: false,
                        ..s
                    },
                    seq![s.schedule_effect()],
                )
            }
        }
    }

    /// Takes the verdict on a health probe of the monitor.
    pub fn on_health(&mut self, healthy: bool) -> (effects: Vec<Effect<H>>)
        ensures
            *final(self) == old(self).spec_on_health(healthy).0,
            effects@ == old(self).spec_on_health(healthy).1,
    {
        let mut effects = Vec::new();
        if !self.health_pending {
            return effects;
        }
        self.health_pending = false;
        if healthy || !self.state.running || !self.phase.is_idle() {
            effects.push(self.make_schedule());
            return effects;
        }
        let within_budget = self.state.restart_count < self.config.max_restart_attempts;
        self.state.restart_count = self.state.restart_count.saturating_add(1);
        if within_budget {
            self.launch(Origin::Monitor)
        } else {
            self.state.running = false;
            self.available = false;
            effects.push(self.make_schedule());
            effects
        }
    }

    /// The request that asks the service to shut down by itself.
    pub open spec fn shutdown_effect(self) -> Effect<H> {
        Effect::RequestShutdown {
            role: self.config.role,
            port: self.config.port,
            timeout_secs: self.config.health_timeout_secs,
        }
    }

    /// The service is stopped: it no longer counts as running, whatever was
    /// in flight is abandoned, and the shell is to ask the service to shut
    /// down, to give it the grace period, and then to kill the process that
    /// the supervisor owned, if it owned one. The handle leaves the slot, so
    /// that no second stop can kill it again.
    pub open spec fn spec_stop(self) -> (Self, Seq<Effect<H>>) {
        (
            ServiceSupervisor {
                state: ServiceState { running: false, process_handle: None, ..self.state },
                phase: Phase::Idle,
                ..self
            },
            seq![self.shutdown_effect(), Effect::Sleep { millis: self.config.shutdown_grace_ms }]
                + self.kill_effects(self.state.process_handle) + self.resume_effects(),
        )
    }

    /// Stops the service.
    pub fn stop(&mut self) -> (effects: Vec<Effect<H>>)
        ensures
            *final(self) == old(self).spec_stop().0,
            effects@ == old(self).spec_stop().1,
    {
        let mut effects = Vec::new();
        effects.push(
            Effect::RequestShutdown {
                role: self.config.role,
                port: self.config.port,
                timeout_secs: self.config.health_timeout_secs,
            },
        );
        effects.push(Effect::Sleep { millis: self.config.shutdown_grace_ms });
        let handle = self.state.take_handle();
        self.push_kill(&mut effects, handle);
        if self.phase.by_monitor() {
            effects.push(self.make_schedule());
        }
        self.state.running = false;
        self.phase = Phase::Idle;
        effects
    }

    /// The step that `event` means for the supervisor of the service that it
    /// is about. The requests to start, restart and stop are no such steps.
    pub open spec fn spec_step(self, event: Event<H>) -> (Self, Seq<Effect<H>>) {
        match event {
            Event::BinaryChecked { found, .. } => self.spec_on_binary_checked(found),
            Event::AdoptionChecked { occupancy, .. } => self.spec_on_adoption(occupancy),
            Event::Spawned { handle, .. } => self.spec_on_spawned(handle),
            Event::SpawnFailed { reason, .. } => self.spec_on_spawn_failed(reason),
            Event::ReadinessProbed { healthy, .. } => self.spec_on_readiness(healthy),
            Event::HealthTick { .. } => self.spec_on_health_tick(),
            Event::HealthProbed { healthy, .. } => self.spec_on_health(healthy),
            _ => (self, seq![]),
        }
    }

    /// Takes an event about the service.
    pub fn step(&mut self, event: Event<H>) -> (effects: Vec<Effect<H>>)
        ensures
            *final(self) == old(self).spec_step(event).0,
            effects@ == old(self).spec_step(event).1,
    {
        match event {
            Event::BinaryChecked { found, .. } => self.on_binary_checked(found),
            Event::AdoptionChecked { occupancy, .. } => self.on_adoption(occupancy),
            Event::Spawned { handle, .. } => self.on_spawned(handle),
            Event::SpawnFailed { reason, .. } => self.on_spawn_failed(reason),
            Event::ReadinessProbed { healthy, .. } => self.on_readiness(healthy),
            Event::HealthTick { .. } => self.on_health_tick(),
            Event::HealthProbed { healthy, .. } => self.on_health(healthy),
            _ => Vec::new(),
        }
    }
}

} // verus!
