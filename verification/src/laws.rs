//! What holds of the supervisor over whole runs.
//!
//! A run is a sequence of events, each handled in the state that the one
//! before it left. The functions here are proofs: each states one law of the
//! supervisor for every state and every run that its `requires` admits.

use vstd::prelude::*;
use crate::events::{Effect, Event, LaunchError, Origin, Phase, ProbePurpose, StatusEvent};
use crate::probe::{identifies, PortOccupancy, ProbeResult};
use crate::readiness::{spec_wait_verdict, WaitVerdict};
use crate::service::{ServiceRole, ServiceState};
use crate::sidecar::BackendManager;
use crate::supervisor::ServiceSupervisor;

verus! {

impl<H> BackendManager<H> {
    /// The state after the events of `events`, handled in order, and all the
    /// effects that they brought, in order.
    pub open spec fn spec_run(self, events: Seq<Event<H>>) -> (Self, Seq<Effect<H>>)
        decreases events.len(),
    {
        if events.len() == 0 {
            (self, seq![])
        } else {
            let before = self.spec_run(events.drop_last());
            let step = before.0.spec_handle(events.last());
            (step.0, before.1 + step.1)
        }
    }

    /// The supervisor of the service `role`.
    pub open spec fn supervisor(self, role: ServiceRole) -> ServiceSupervisor<H> {
        match role {
            ServiceRole::Primary => self.primary,
            ServiceRole::Secondary => self.secondary,
        }
    }
}

/// Whether `effect` asks to spawn the service `role`; with `automatic_only`,
/// whether it is a respawn by the health monitor.
pub open spec fn is_spawn<H>(effect: Effect<H>, role: ServiceRole, automatic_only: bool) -> bool {
    effect matches Effect::Spawn { role: r, origin } && r == role && (automatic_only
        ==> origin is Monitor)
}

/// How many spawns of the service `role` the effects ask for; with
/// `automatic_only`, how many respawns by the health monitor.
pub open spec fn spawn_count<H>(
    effects: Seq<Effect<H>>,
    role: ServiceRole,
    automatic_only: bool,
) -> nat
    decreases effects.len(),
{
    if effects.len() == 0 {
        0
    } else {
        spawn_count(effects.drop_last(), role, automatic_only) + if is_spawn(
            effects.last(),
            role,
            automatic_only,
        ) {
            1nat
        } else {
            0nat
        }
    }
}

/// How many spawns of the service `role` the effects ask for.
pub open spec fn spawns<H>(effects: Seq<Effect<H>>, role: ServiceRole) -> nat {
    spawn_count(effects, role, false)
}

/// How many automatic respawns of the service `role` the effects ask for.
pub open spec fn respawns<H>(effects: Seq<Effect<H>>, role: ServiceRole) -> nat {
    spawn_count(effects, role, true)
}

/// The part of the restart budget `max` that a restart counter of `count` has used up.
pub open spec fn budget_used(count: u32, max: u32) -> int {
    if count <= max {
        count as int
    } else {
        max as int
    }
}

/// The spawns of two lists of effects add up.
pub proof fn lemma_spawn_count_concat<H>(
    a: Seq<Effect<H>>,
    b: Seq<Effect<H>>,
    role: ServiceRole,
    automatic_only: bool,
)
    ensures
        spawn_count(a + b, role, automatic_only) == spawn_count(a, role, automatic_only)
            + spawn_count(b, role, automatic_only),
    decreases b.len(),
{
    if b.len() == 0 {
        assert(a + b =~= a);
    } else {
        assert((a + b).drop_last() =~= a + b.drop_last());
        assert((a + b).last() == b.last());
        lemma_spawn_count_concat(a, b.drop_last(), role, automatic_only);
    }
}

/// Effects without a spawn count no spawn.
pub proof fn lemma_spawn_count_zero<H>(
    effects: Seq<Effect<H>>,
    role: ServiceRole,
    automatic_only: bool,
)
    requires
        forall|i: int| 0 <= i < effects.len() ==> !is_spawn(#[trigger] effects[i], role, automatic_only),
    ensures
        spawn_count(effects, role, automatic_only) == 0,
    decreases effects.len(),
{
    if effects.len() > 0 {
        assert(!is_spawn(effects[effects.len() - 1], role, automatic_only));
        lemma_spawn_count_zero(effects.drop_last(), role, automatic_only);
    }
}

impl<H> ServiceSupervisor<H> {
    /// What every step of a supervisor keeps: the configuration, well-formedness
    /// and readiness; and the restart counter does not decrease.
    pub open spec fn keeps(self, next: Self) -> bool {
        &&& next.config == self.config
        &&& self.wf() ==> next.wf()
        &&& self.state.ready ==> next.state.ready
        &&& next.state.restart_count >= self.state.restart_count
    }
}

/// The manager hands an event about a service to the supervisor of that
/// service, and then looks whether the secondary service is due to start.
pub proof fn lemma_handle_routes<H>(manager: BackendManager<H>, event: Event<H>)
    requires
        event.spec_role() is Some,
    ensures
        event.spec_role() == Some(ServiceRole::Primary) ==> manager.spec_handle(event)
            == manager.spec_primary_step(manager.primary.spec_step(event)),
        event.spec_role() == Some(ServiceRole::Secondary) ==> manager.spec_handle(event)
            == manager.spec_secondary_step(manager.secondary.spec_step(event)),
{
}

/// No step of a supervisor changes the configuration, breaks
/// well-formedness, takes readiness back or lowers the restart counter; and a
/// supervisor for which nothing was ever begun is engaged by a start only.
pub proof fn lemma_step_keeps<H>(s: ServiceSupervisor<H>, event: Event<H>)
    ensures
        s.keeps(s.spec_step(event).0),
        s.wf() && !s.engaged() ==> !s.spec_step(event).0.engaged(),
{
}

/// The beginning of a start, the beginning of a restart and a stop keep what
/// every step keeps; a start engages the supervisor only where the dependency is ready.
pub proof fn lemma_requests_keep<H>(s: ServiceSupervisor<H>, dependency_ready: bool)
    ensures
        s.keeps(s.spec_begin_start(dependency_ready).0),
        s.spec_begin_start(dependency_ready).0.engaged() ==> s.engaged() || dependency_ready,
        s.keeps(s.spec_begin_restart().0),
        s.keeps(s.spec_stop().0),
        s.wf() && !s.engaged() ==> !s.spec_stop().0.engaged(),
{
}

/// Every well-formed manager stays well formed, whatever happens. In
/// particular the secondary service is never ready while the primary service
/// is not; and no event lowers a restart counter.
pub proof fn lemma_handle_preserves_wf<H>(manager: BackendManager<H>, event: Event<H>)
    requires
        manager.wf(),
    ensures
        manager.spec_handle(event).0.wf(),
        manager.spec_handle(event).0.secondary.state.ready ==> manager.spec_handle(
            event,
        ).0.primary.state.ready,
{
    let next = manager.spec_handle(event).0;
    lemma_chain_keeps(manager);
    match event.spec_role() {
        Some(ServiceRole::Primary) => {
            lemma_handle_routes(manager, event);
            lemma_step_keeps(manager.primary, event);
            let stepped = BackendManager { primary: manager.primary.spec_step(event).0, ..manager };
            lemma_chain_keeps(stepped);
        },
        Some(ServiceRole::Secondary) => {
            lemma_handle_routes(manager, event);
            lemma_step_keeps(manager.secondary, event);
        },
        None => {
            lemma_requests_keep(manager.primary, true);
            lemma_requests_keep(manager.secondary, true);
            match event {
                Event::Start => {
                    let begun = BackendManager {
                        primary: manager.primary.spec_begin_start(true).0,
                        secondary_pending: true,
                        ..manager
                    };
                    lemma_chain_keeps(begun);
                },
                Event::Restart => {
                    let begun = BackendManager {
                        primary: manager.primary.spec_begin_restart().0,
                        ..manager
                    };
                    lemma_chain_keeps(begun);
                },
                _ => {},
            }
        },
    }
}

/// The look for the secondary service's turn keeps a manager well formed.
proof fn lemma_chain_keeps<H>(manager: BackendManager<H>)
    ensures
        manager.wf() ==> manager.spec_chain(seq![]).0.wf(),
        forall|effects: Seq<Effect<H>>| #[trigger]
            manager.spec_chain(effects).0 == manager.spec_chain(seq![]).0,
        manager.spec_chain(seq![]).0.primary == manager.primary,
{
    lemma_requests_keep(manager.secondary, manager.primary.state.ready);
}

/// A launch asks for exactly one spawn, of its own service; it is a respawn
/// where the health monitor launched.
pub proof fn lemma_launch_spawns<H>(
    s: ServiceSupervisor<H>,
    origin: Origin,
    role: ServiceRole,
    automatic_only: bool,
)
    ensures
        spawn_count(s.spec_launch(origin).1, role, automatic_only) == if role == s.config.role && (
        automatic_only ==> origin is Monitor) {
            1nat
        } else {
            0nat
        },
{
    let effects = s.spec_launch(origin).1;
    let before = s.kill_effects(s.state.process_handle) + (if origin is Monitor {
        ServiceSupervisor::<H>::sleep_effects(s.config.restart_delay_ms)
    } else {
        seq![]
    });
    assert(effects.drop_last() =~= before);
    lemma_spawn_count_zero(before, role, automatic_only);
}

/// Only a launch spawns: the steps that end a sequence, count a healthy probe
/// or wait spawn nothing.
proof fn lemma_quiet_steps<H>(s: ServiceSupervisor<H>, role: ServiceRole, automatic_only: bool)
    ensures
        forall|origin: Origin| #[trigger]
            spawn_count(s.spec_succeed(origin).1, role, automatic_only) == 0,
        forall|origin: Origin, error: LaunchError| #[trigger]
            spawn_count(s.spec_fail(origin, error).1, role, automatic_only) == 0,
        forall|found: bool| #[trigger]
            spawn_count(s.spec_on_binary_checked(found).1, role, automatic_only) == 0,
        spawn_count(s.spec_on_health_tick().1, role, automatic_only) == 0,
        spawn_count(s.spec_stop().1, role, automatic_only) == 0,
        forall|dependency_ready: bool| #[trigger]
            spawn_count(s.spec_begin_start(dependency_ready).1, role, automatic_only) == 0,
{
    assert forall|origin: Origin| #[trigger]
        spawn_count(s.spec_succeed(origin).1, role, automatic_only) == 0 by {
        lemma_spawn_count_zero(s.spec_succeed(origin).1, role, automatic_only);
    }
    assert forall|origin: Origin, error: LaunchError| #[trigger]
        spawn_count(s.spec_fail(origin, error).1, role, automatic_only) == 0 by {
        lemma_spawn_count_zero(s.spec_fail(origin, error).1, role, automatic_only);
    }
    assert forall|found: bool| #[trigger]
        spawn_count(s.spec_on_binary_checked(found).1, role, automatic_only) == 0 by {
        lemma_spawn_count_zero(s.spec_on_binary_checked(found).1, role, automatic_only);
    }
    lemma_spawn_count_zero(s.spec_on_health_tick().1, role, automatic_only);
    lemma_spawn_count_zero(s.spec_stop().1, role, automatic_only);
    assert forall|dependency_ready: bool| #[trigger]
        spawn_count(s.spec_begin_start(dependency_ready).1, role, automatic_only) == 0 by {
        lemma_spawn_count_zero(s.spec_begin_start(dependency_ready).1, role, automatic_only);
    }
}

/// What a step of a supervisor spawns. It never spawns another service than
/// its own. It spawns at most once. And its automatic respawns are paid from
/// the restart budget: a step asks for a respawn exactly where it moves the
/// restart counter up within `max_restart_attempts`.
pub proof fn lemma_step_spawns<H>(s: ServiceSupervisor<H>, event: Event<H>, role: ServiceRole)
    ensures
        role != s.config.role ==> spawns(s.spec_step(event).1, role) == 0,
        spawns(s.spec_step(event).1, role) <= 1,
        respawns(s.spec_step(event).1, role) <= spawns(s.spec_step(event).1, role),
        respawns(s.spec_step(event).1, s.config.role) == budget_used(
            s.spec_step(event).0.state.restart_count,
            s.config.max_restart_attempts,
        ) - budget_used(s.state.restart_count, s.config.max_restart_attempts),
{
    lemma_step_spawn_count(s, event, role, false);
    lemma_step_spawn_count(s, event, role, true);
    lemma_step_spawn_count(s, event, s.config.role, true);
}

/// The spawns of one step, counted.
proof fn lemma_step_spawn_count<H>(
    s: ServiceSupervisor<H>,
    event: Event<H>,
    role: ServiceRole,
    automatic_only: bool,
)
    ensures
        spawn_count(s.spec_step(event).1, role, automatic_only) == if role == s.config.role
            && spec_step_launches(s, event, automatic_only) {
            1nat
        } else {
            0nat
        },
        spec_step_launches(s, event, true) <==> s.spec_step(event).0.state.restart_count
            > s.state.restart_count && s.spec_step(event).0.state.restart_count
            <= s.config.max_restart_attempts,
        !spec_step_launches(s, event, true) ==> budget_used(
            s.spec_step(event).0.state.restart_count,
            s.config.max_restart_attempts,
        ) == budget_used(s.state.restart_count, s.config.max_restart_attempts),
        spec_step_launches(s, event, true) ==> spec_step_launches(s, event, false),
{
    lemma_step_counts(s, event);
    match event {
        Event::BinaryChecked { found, .. } => {
            lemma_quiet_steps(s, role, automatic_only);
        },
        Event::AdoptionChecked { occupancy, .. } => {
            lemma_adoption_spawn_count(s, occupancy, role, automatic_only);
        },
        Event::Spawned { handle, .. } => {
            lemma_spawned_spawn_count(s, handle, role, automatic_only);
        },
        Event::SpawnFailed { reason, .. } => {
            lemma_quiet_steps(s, role, automatic_only);
            assert(spawn_count(s.spec_on_spawn_failed(reason).1, role, automatic_only) == 0) by {
                if !(s.phase is Spawning) {
                    assert(s.spec_on_spawn_failed(reason).1 =~= Seq::<Effect<H>>::empty());
                }
            }
        },
        Event::ReadinessProbed { healthy, .. } => {
            lemma_readiness_spawn_count(s, healthy, role, automatic_only);
        },
        Event::HealthTick { .. } => {
            lemma_quiet_steps(s, role, automatic_only);
        },
        Event::HealthProbed { healthy, .. } => {
            lemma_health_spawn_count(s, healthy, role, automatic_only);
        },
        _ => {
            assert(s.spec_step(event).1 =~= Seq::<Effect<H>>::empty());
        },
    }
}

/// A step moves the restart counter up within the budget exactly where it
/// launches on behalf of the health monitor.
proof fn lemma_step_counts<H>(s: ServiceSupervisor<H>, event: Event<H>)
    ensures
        spec_step_launches(s, event, true) <==> s.spec_step(event).0.state.restart_count
            > s.state.restart_count && s.spec_step(event).0.state.restart_count
            <= s.config.max_restart_attempts,
        !spec_step_launches(s, event, true) ==> budget_used(
            s.spec_step(event).0.state.restart_count,
            s.config.max_restart_attempts,
        ) == budget_used(s.state.restart_count, s.config.max_restart_attempts),
        spec_step_launches(s, event, true) ==> spec_step_launches(s, event, false),
{
}

proof fn lemma_adoption_spawn_count<H>(
    s: ServiceSupervisor<H>,
    occupancy: PortOccupancy,
    role: ServiceRole,
    automatic_only: bool,
)
    ensures
        spawn_count(s.spec_on_adoption(occupancy).1, role, automatic_only) == if role
            == s.config.role && !automatic_only && s.phase is Adopting && !(occupancy is Ours) && !(
        occupancy is Foreign && s.yields_to_strangers()) {
            1nat
        } else {
            0nat
        },
{
    let effects = s.spec_on_adoption(occupancy).1;
    if !(s.phase is Adopting) {
        lemma_spawn_count_zero(effects, role, automatic_only);
    } else if occupancy is Ours {
        lemma_quiet_steps(s, role, automatic_only);
        lemma_spawn_count_zero(
            ServiceSupervisor::<H>::sleep_effects(s.config.adoption_settle_ms),
            role,
            automatic_only,
        );
        lemma_spawn_count_concat(
            ServiceSupervisor::<H>::sleep_effects(s.config.adoption_settle_ms),
            s.spec_succeed(Origin::Start).1,
            role,
            automatic_only,
        );
    } else if occupancy is Foreign && s.yields_to_strangers() {
        lemma_spawn_count_zero(effects, role, automatic_only);
    } else {
        lemma_launch_spawns(s, Origin::Start, role, automatic_only);
    }
}

proof fn lemma_spawned_spawn_count<H>(
    s: ServiceSupervisor<H>,
    handle: H,
    role: ServiceRole,
    automatic_only: bool,
)
    ensures
        spawn_count(s.spec_on_spawned(handle).1, role, automatic_only) == 0,
{
    let effects = s.spec_on_spawned(handle).1;
    match s.phase {
        Phase::Spawning { origin } => {
            let held = ServiceSupervisor {
                state: ServiceState {
                    running: true,
                    process_handle: Some(handle),
                    ..s.state
                },
                ..s
            };
            let displaced = s.kill_effects(s.state.process_handle);
            lemma_spawn_count_zero(displaced, role, automatic_only);
            if s.config.readiness_attempts == 0 {
                lemma_quiet_steps(held, role, automatic_only);
                lemma_spawn_count_concat(
                    displaced,
                    held.spec_fail(origin, s.timeout_error()).1,
                    role,
                    automatic_only,
                );
            } else {
                lemma_spawn_count_zero(effects, role, automatic_only);
            }
        },
        _ => {
            lemma_spawn_count_zero(effects, role, automatic_only);
        },
    }
}

proof fn lemma_readiness_spawn_count<H>(
    s: ServiceSupervisor<H>,
    healthy: bool,
    role: ServiceRole,
    automatic_only: bool,
)
    ensures
        spawn_count(s.spec_on_readiness(healthy).1, role, automatic_only) == 0,
{
    let effects = s.spec_on_readiness(healthy).1;
    lemma_quiet_steps(s, role, automatic_only);
    match s.phase {
        Phase::AwaitingReady { origin, attempt } => {
            let before = s.progress_effects(attempt) + seq![s.readiness_pause()];
            lemma_spawn_count_zero(before, role, automatic_only);
            match spec_wait_verdict(
                s.config.readiness_attempts,
                attempt,
                healthy,
            ) {
                WaitVerdict::Ready => {},
                WaitVerdict::Retry => {
                    lemma_spawn_count_zero(effects, role, automatic_only);
                },
                WaitVerdict::TimedOut => {
                    lemma_spawn_count_concat(
                        before,
                        s.spec_fail(origin, s.timeout_error()).1,
                        role,
                        automatic_only,
                    );
                },
            }
        },
        _ => {
            lemma_spawn_count_zero(effects, role, automatic_only);
        },
    }
}

proof fn lemma_health_spawn_count<H>(
    s: ServiceSupervisor<H>,
    healthy: bool,
    role: ServiceRole,
    automatic_only: bool,
)
    ensures
        spawn_count(s.spec_on_health(healthy).1, role, automatic_only) == if role == s.config.role
            && s.health_pending && !healthy && s.state.running && s.phase is Idle
            && s.state.restart_count < s.config.max_restart_attempts {
            1nat
        } else {
            0nat
        },
{
    let effects = s.spec_on_health(healthy).1;
    if s.health_pending {
        let t = ServiceSupervisor { health_pending: false, ..s };
        if healthy || !t.state.running || !(t.phase is Idle) {
            lemma_spawn_count_zero(effects, role, automatic_only);
        } else if t.state.restart_count < t.config.max_restart_attempts {
            let counted = ServiceSupervisor {
                state: ServiceState {
                    restart_count: ServiceSupervisor::<H>::next_restart_count(
                        t.state.restart_count,
                    ),
                    ..t.state
                },
                ..t
            };
            lemma_launch_spawns(counted, Origin::Monitor, role, automatic_only);
        } else {
            lemma_spawn_count_zero(effects, role, automatic_only);
        }
    } else {
        lemma_spawn_count_zero(effects, role, automatic_only);
    }
}

/// Whether the step that `event` means for `s` launches the service; with
/// `automatic_only`, whether it launches it on behalf of the health monitor.
pub open spec fn spec_step_launches<H>(
    s: ServiceSupervisor<H>,
    event: Event<H>,
    automatic_only: bool,
) -> bool {
    match event {
        Event::AdoptionChecked { occupancy, .. } => !automatic_only && s.phase is Adopting && !(
        occupancy is Ours) && !(occupancy is Foreign && s.yields_to_strangers()),
        Event::HealthProbed { healthy, .. } => s.health_pending && !healthy && s.state.running
            && s.phase is Idle && s.state.restart_count < s.config.max_restart_attempts,
        _ => false,
    }
}

/// Every run of a well-formed manager ends in a well-formed manager whose
/// secondary service is ready only if its primary service is.
pub proof fn lemma_run_preserves_wf<H>(manager: BackendManager<H>, events: Seq<Event<H>>)
    requires
        manager.wf(),
    ensures
        manager.spec_run(events).0.wf(),
        manager.spec_run(events).0.secondary.state.ready ==> manager.spec_run(
            events,
        ).0.primary.state.ready,
    decreases events.len(),
{
    if events.len() > 0 {
        lemma_run_preserves_wf(manager, events.drop_last());
        lemma_handle_preserves_wf(manager.spec_run(events.drop_last()).0, events.last());
    }
}

/// Whether `event` reports a failed health check of the service `role`.
pub open spec fn is_health_failure<H>(event: Event<H>, role: ServiceRole) -> bool {
    event matches Event::HealthProbed { role: r, healthy } && r == role && !healthy
}

/// No event changes the configuration of a service, takes its readiness
/// back or lowers its restart counter; and the counter moves, by one, on a
/// failed health check of that service only.
pub proof fn lemma_handle_keeps<H>(manager: BackendManager<H>, event: Event<H>, role: ServiceRole)
    ensures
        manager.supervisor(role).keeps(manager.spec_handle(event).0.supervisor(role)),
        manager.spec_handle(event).0.supervisor(role).state.restart_count <= manager.supervisor(
            role,
        ).state.restart_count + 1,
        !is_health_failure(event, role) ==> manager.spec_handle(event).0.supervisor(
            role,
        ).state.restart_count == manager.supervisor(role).state.restart_count,
{
    lemma_chain_keeps(manager);
    match event.spec_role() {
        Some(ServiceRole::Primary) => {
            lemma_handle_routes(manager, event);
            lemma_step_keeps(manager.primary, event);
            lemma_only_failures_count(manager.primary, event);
            let stepped = BackendManager { primary: manager.primary.spec_step(event).0, ..manager };
            lemma_chain_keeps(stepped);
        },
        Some(ServiceRole::Secondary) => {
            lemma_handle_routes(manager, event);
            lemma_step_keeps(manager.secondary, event);
            lemma_only_failures_count(manager.secondary, event);
        },
        None => {
            lemma_requests_keep(manager.primary, true);
            lemma_requests_keep(manager.secondary, true);
            match event {
                Event::Start => {
                    let begun = BackendManager {
                        primary: manager.primary.spec_begin_start(true).0,
                        secondary_pending: true,
                        ..manager
                    };
                    lemma_chain_keeps(begun);
                },
                Event::Restart => {
                    let begun = BackendManager {
                        primary: manager.primary.spec_begin_restart().0,
                        ..manager
                    };
                    lemma_chain_keeps(begun);
                },
                _ => {},
            }
        },
    }
}

/// A step of a supervisor moves the restart counter on a failed health check
/// only, and then by one.
proof fn lemma_only_failures_count<H>(s: ServiceSupervisor<H>, event: Event<H>)
    ensures
        s.spec_step(event).0.state.restart_count <= s.state.restart_count + 1,
        !(event matches Event::HealthProbed { healthy, .. } && !healthy) ==> s.spec_step(
            event,
        ).0.state.restart_count == s.state.restart_count,
{
}

/// The restart counter of a service never decreases, whatever the run; and
/// a run without a failed health check of the service leaves it as it was.
pub proof fn lemma_restart_count_never_decreases<H>(
    manager: BackendManager<H>,
    events: Seq<Event<H>>,
    role: ServiceRole,
)
    ensures
        manager.spec_run(events).0.supervisor(role).state.restart_count >= manager.supervisor(
            role,
        ).state.restart_count,
        manager.spec_run(events).0.supervisor(role).config == manager.supervisor(role).config,
        manager.supervisor(role).state.ready ==> manager.spec_run(events).0.supervisor(
            role,
        ).state.ready,
        (forall|i: int| 0 <= i < events.len() ==> !is_health_failure(#[trigger] events[i], role))
            ==> manager.spec_run(events).0.supervisor(role).state.restart_count
            == manager.supervisor(role).state.restart_count,
    decreases events.len(),
{
    if events.len() > 0 {
        let before = events.drop_last();
        lemma_restart_count_never_decreases(manager, before, role);
        lemma_handle_keeps(manager.spec_run(before).0, events.last(), role);
        if forall|i: int| 0 <= i < events.len() ==> !is_health_failure(#[trigger] events[i], role) {
            assert forall|i: int| 0 <= i < before.len() implies !is_health_failure(
                #[trigger] before[i],
                role,
            ) by {
                assert(before[i] == events[i]);
            }
            assert(!is_health_failure(events[events.len() - 1], role));
        }
    }
}

/// The look for the secondary service's turn adds the effects that begin the
/// start of the secondary service, or nothing; none of them is a spawn.
proof fn lemma_chain_effects<H>(
    manager: BackendManager<H>,
    effects: Seq<Effect<H>>,
    role: ServiceRole,
    automatic_only: bool,
)
    ensures
        spawn_count(manager.spec_chain(effects).1, role, automatic_only) == spawn_count(
            effects,
            role,
            automatic_only,
        ),
{
    if manager.secondary_pending && manager.primary.phase is Idle {
        let begun = manager.secondary.spec_begin_start(manager.primary.state.ready).1;
        lemma_quiet_steps(manager.secondary, role, automatic_only);
        lemma_spawn_count_concat(effects, begun, role, automatic_only);
    }
}

/// What one event spawns. A spawn of a service is asked for at most once,
/// and the automatic respawns are paid from the restart budget: an event
/// brings a respawn of a service exactly where it moves the restart counter
/// of that service up within its `max_restart_attempts`.
pub proof fn lemma_handle_spawns<H>(manager: BackendManager<H>, event: Event<H>, role: ServiceRole)
    requires
        manager.wf(),
    ensures
        spawns(manager.spec_handle(event).1, role) <= 1,
        respawns(manager.spec_handle(event).1, role) == budget_used(
            manager.spec_handle(event).0.supervisor(role).state.restart_count,
            manager.supervisor(role).config.max_restart_attempts,
        ) - budget_used(
            manager.supervisor(role).state.restart_count,
            manager.supervisor(role).config.max_restart_attempts,
        ),
{
    lemma_handle_keeps(manager, event, role);
    lemma_handle_spawn_count(manager, event, role, true);
    lemma_handle_spawn_count(manager, event, role, false);
}

/// The spawns that one event brings, counted.
proof fn lemma_handle_spawn_count<H>(
    manager: BackendManager<H>,
    event: Event<H>,
    role: ServiceRole,
    automatic_only: bool,
)
    requires
        manager.wf(),
    ensures
        spawn_count(manager.spec_handle(event).1, role, automatic_only) <= 1,
        automatic_only ==> spawn_count(manager.spec_handle(event).1, role, automatic_only)
            == budget_used(
            manager.spec_handle(event).0.supervisor(role).state.restart_count,
            manager.supervisor(role).config.max_restart_attempts,
        ) - budget_used(
            manager.supervisor(role).state.restart_count,
            manager.supervisor(role).config.max_restart_attempts,
        ),
{
    lemma_handle_keeps(manager, event, role);
    match event.spec_role() {
        Some(ServiceRole::Primary) => {
            lemma_handle_routes(manager, event);
            let step = manager.primary.spec_step(event);
            lemma_step_spawn_count(manager.primary, event, role, automatic_only);
            let stepped = BackendManager { primary: step.0, ..manager };
            lemma_chain_effects(stepped, step.1, role, automatic_only);
            lemma_chain_keeps(stepped);
            lemma_requests_keep(manager.secondary, step.0.state.ready);
        },
        Some(ServiceRole::Secondary) => {
            lemma_handle_routes(manager, event);
            lemma_step_spawn_count(manager.secondary, event, role, automatic_only);
        },
        None => {
            lemma_requests_keep(manager.primary, true);
            match event {
                Event::Start => {
                    if !manager.primary.engaged() && !manager.secondary.engaged()
                        && !manager.secondary_pending {
                        let begun = BackendManager {
                            primary: manager.primary.spec_begin_start(true).0,
                            secondary_pending: true,
                            ..manager
                        };
                        lemma_quiet_steps(manager.primary, role, automatic_only);
                        lemma_chain_effects(
                            begun,
                            manager.primary.spec_begin_start(true).1,
                            role,
                            automatic_only,
                        );
                        lemma_chain_keeps(begun);
                        lemma_requests_keep(manager.secondary, begun.primary.state.ready);
                    } else {
                        lemma_spawn_count_zero(
                            manager.spec_handle(event).1,
                            role,
                            automatic_only,
                        );
                    }
                },
                Event::Restart => {
                    let begun = BackendManager {
                        primary: manager.primary.spec_begin_restart().0,
                        ..manager
                    };
                    lemma_restart_spawn_count(manager.primary, role, automatic_only);
                    lemma_chain_effects(
                        begun,
                        manager.primary.spec_begin_restart().1,
                        role,
                        automatic_only,
                    );
                    lemma_chain_keeps(begun);
                    lemma_requests_keep(manager.secondary, begun.primary.state.ready);
                },
                Event::Stop => {
                    lemma_quiet_steps(manager.primary, role, automatic_only);
                    lemma_quiet_steps(manager.secondary, role, automatic_only);
                    lemma_spawn_count_concat(
                        manager.secondary.spec_stop().1,
                        manager.primary.spec_stop().1,
                        role,
                        automatic_only,
                    );
                    lemma_requests_keep(manager.secondary, true);
                },
                _ => {},
            }
        },
    }
}

/// An explicit restart asks for exactly one spawn of its service, which is no
/// automatic respawn, and leaves the restart counter as it is.
proof fn lemma_restart_spawn_count<H>(
    s: ServiceSupervisor<H>,
    role: ServiceRole,
    automatic_only: bool,
)
    ensures
        spawn_count(s.spec_begin_restart().1, role, automatic_only) == if role == s.config.role
            && !automatic_only {
            1nat
        } else {
            0nat
        },
        s.spec_begin_restart().0.state.restart_count == s.state.restart_count,
{
    let notice = s.status_effects(StatusEvent::Restarting);
    let launch = s.spec_launch(Origin::Restart).1;
    let resume = s.resume_effects();
    lemma_launch_spawns(s, Origin::Restart, role, automatic_only);
    lemma_spawn_count_zero(notice, role, automatic_only);
    lemma_spawn_count_zero(resume, role, automatic_only);
    lemma_spawn_count_concat(notice, launch, role, automatic_only);
    lemma_spawn_count_concat(notice + launch, resume, role, automatic_only);
}

/// The restart budget, over a whole run. However the events interleave and
/// however each respawn ends, the automatic respawns of a service are as
/// many as its restart counter moved within `max_restart_attempts`. So a
/// service whose counter goes from 0 to `max_restart_attempts + 1` was
/// respawned exactly `max_restart_attempts` times; and once the budget is
/// spent no failure brings another respawn.
pub proof fn lemma_restart_budget<H>(
    manager: BackendManager<H>,
    events: Seq<Event<H>>,
    role: ServiceRole,
)
    requires
        manager.wf(),
    ensures
        respawns(manager.spec_run(events).1, role) == budget_used(
            manager.spec_run(events).0.supervisor(role).state.restart_count,
            manager.supervisor(role).config.max_restart_attempts,
        ) - budget_used(
            manager.supervisor(role).state.restart_count,
            manager.supervisor(role).config.max_restart_attempts,
        ),
    decreases events.len(),
{
    if events.len() > 0 {
        let before = manager.spec_run(events.drop_last());
        lemma_restart_budget(manager, events.drop_last(), role);
        lemma_run_preserves_wf(manager, events.drop_last());
        lemma_restart_count_never_decreases(manager, events.drop_last(), role);
        lemma_handle_spawns(before.0, events.last(), role);
        lemma_spawn_count_concat(before.1, before.0.spec_handle(events.last()).1, role, true);
    }
}

/// Once the restart budget of a service is spent, no run brings another
/// automatic respawn of it, whatever fails.
pub proof fn lemma_spent_budget_respawns_nothing<H>(
    manager: BackendManager<H>,
    events: Seq<Event<H>>,
    role: ServiceRole,
)
    requires
        manager.wf(),
        manager.supervisor(role).state.restart_count >= manager.supervisor(
            role,
        ).config.max_restart_attempts,
    ensures
        respawns(manager.spec_run(events).1, role) == 0,
{
    lemma_restart_budget(manager, events, role);
    lemma_restart_count_never_decreases(manager, events, role);
}

/// A service that fails one health check more than `max_restart_attempts`,
/// counted from zero, has been respawned exactly `max_restart_attempts` times.
pub proof fn lemma_one_failure_too_many<H>(
    manager: BackendManager<H>,
    events: Seq<Event<H>>,
    role: ServiceRole,
)
    requires
        manager.wf(),
        manager.supervisor(role).state.restart_count == 0,
        manager.spec_run(events).0.supervisor(role).state.restart_count == manager.supervisor(
            role,
        ).config.max_restart_attempts + 1,
    ensures
        respawns(manager.spec_run(events).1, role) == manager.supervisor(
            role,
        ).config.max_restart_attempts,
{
    lemma_restart_budget(manager, events, role);
}

impl<H> ServiceSupervisor<H> {
    /// The state of a service that only its health monitor touches: whatever
    /// is in flight is a respawn within the budget, and a service whose
    /// budget is spent does not run.
    pub open spec fn guarded(self) -> bool {
        &&& self.state.restart_count > self.config.max_restart_attempts ==> !self.state.running
        &&& !(self.phase is Idle) ==> self.phase.spec_by_monitor() && self.state.restart_count
            <= self.config.max_restart_attempts
    }
}

/// A step that the operator did not ask for keeps a guarded service guarded.
proof fn lemma_step_keeps_guarded<H>(s: ServiceSupervisor<H>, event: Event<H>)
    requires
        s.guarded(),
    ensures
        s.spec_step(event).0.guarded(),
        s.spec_stop().0.guarded(),
        s.monitoring ==> s.spec_step(event).0.monitoring && s.spec_stop().0.monitoring,
{
}

/// The failed health check that exceeds the restart budget leaves the service
/// stopped, and it stays stopped for good: through every run in which the
/// operator asks for no restart, a monitored service whose restart counter
/// is above `max_restart_attempts` does not run.
pub proof fn lemma_spent_budget_stays_stopped<H>(
    manager: BackendManager<H>,
    events: Seq<Event<H>>,
    role: ServiceRole,
)
    requires
        manager.wf(),
        !manager.secondary_pending,
        manager.supervisor(role).monitoring,
        manager.supervisor(role).guarded(),
        forall|i: int| 0 <= i < events.len() ==> !(#[trigger] events[i] is Restart),
    ensures
        !manager.spec_run(events).0.secondary_pending,
        manager.spec_run(events).0.supervisor(role).monitoring,
        manager.spec_run(events).0.supervisor(role).guarded(),
        manager.spec_run(events).0.supervisor(role).state.restart_count > manager.supervisor(
            role,
        ).config.max_restart_attempts ==> !manager.spec_run(events).0.supervisor(
            role,
        ).state.running,
    decreases events.len(),
{
    lemma_restart_count_never_decreases(manager, events, role);
    if events.len() > 0 {
        let before = events.drop_last();
        assert forall|i: int| 0 <= i < before.len() implies !(#[trigger] before[i] is Restart) by {
            assert(before[i] == events[i]);
        }
        lemma_spent_budget_stays_stopped(manager, before, role);
        let m = manager.spec_run(before).0;
        let event = events.last();
        assert(!(events[events.len() - 1] is Restart));
        lemma_step_keeps_guarded(m.supervisor(role), event);
        if event.spec_role() is Some {
            lemma_handle_routes(m, event);
        }
    }
}

/// A service that waits for the verdict on its port and learns that an
/// instance of itself already answers there adopts that instance: it runs
/// and is ready, its monitor is on, the handle slot is as it was, and no
/// spawn is asked for.
pub proof fn lemma_adoption_spawns_nothing<H>(
    manager: BackendManager<H>,
    role: ServiceRole,
    probe: ProbeResult,
)
    requires
        manager.wf(),
        manager.supervisor(role).phase is Adopting,
        identifies(probe, manager.supervisor(role).config.executable@),
    ensures
        ({
            let next = manager.spec_handle(
                manager.spec_probe_event(role, ProbePurpose::Adoption, probe),
            );
            &&& next.0.supervisor(role).state.running
            &&& next.0.supervisor(role).state.ready
            &&& next.0.supervisor(role).monitoring
            &&& next.0.supervisor(role).available
            &&& next.0.supervisor(role).phase is Idle
            &&& next.0.supervisor(role).state.process_handle == manager.supervisor(
                role,
            ).state.process_handle
            &&& spawns(next.1, role) == 0
        }),
{
    let event = manager.spec_probe_event(role, ProbePurpose::Adoption, probe);
    lemma_handle_routes(manager, event);
    lemma_handle_spawn_count(manager, event, role, false);
    lemma_step_spawn_count(manager.supervisor(role), event, role, false);
    match role {
        ServiceRole::Primary => {
            let step = manager.primary.spec_step(event);
            let stepped = BackendManager { primary: step.0, ..manager };
            lemma_chain_effects(stepped, step.1, role, false);
            lemma_chain_keeps(stepped);
        },
        ServiceRole::Secondary => {},
    }
}

/// The start of a fresh manager that finds the primary service already
/// answering on its port under its own name: the service is adopted, the
/// manager reports ready, the health monitor of the service begins, no
/// process is owned and none is spawned.
pub proof fn lemma_start_adopts_running_backend<H>(manager: BackendManager<H>, probe: ProbeResult)
    requires
        manager.is_fresh(),
        manager.primary.config.role is Primary,
        manager.secondary.config.role is Secondary,
        identifies(probe, manager.primary.config.executable@),
    ensures
        ({
            let run = manager.spec_run(
                seq![
                    Event::Start,
                    manager.spec_probe_event(
                        ServiceRole::Primary,
                        ProbePurpose::Adoption,
                        probe,
                    ),
                ],
            );
            &&& run.0.primary.state.running
            &&& run.0.primary.state.ready
            &&& run.0.primary.monitoring
            &&& run.0.primary.state.process_handle is None
            &&& spawns(run.1, ServiceRole::Primary) == 0
            &&& run.1.contains(run.0.primary.schedule_effect())
        }),
{
    let fresh = manager;
    let verdict = manager.spec_probe_event(
        ServiceRole::Primary,
        ProbePurpose::Adoption,
        probe,
    );
    let events = seq![Event::Start, verdict];
    assert(events.drop_last() =~= seq![Event::Start]);
    assert(events.drop_last().drop_last() =~= Seq::<Event<H>>::empty());
    let started = fresh.spec_handle(Event::Start);
    assert(fresh.spec_run(Seq::<Event<H>>::empty()) == (fresh, Seq::<Effect<H>>::empty()));
    assert(seq![Event::<H>::Start].drop_last() =~= Seq::<Event<H>>::empty());
    assert(seq![Event::<H>::Start].last() == Event::<H>::Start);
    assert(fresh.spec_run(seq![Event::Start]).0 == started.0);
    assert(fresh.spec_run(seq![Event::Start]).1 =~= started.1);
    assert(started.0.wf());
    assert(started.0.primary.config == manager.primary.config);
    assert(started.0.spec_probe_event(
        ServiceRole::Primary,
        ProbePurpose::Adoption,
        probe,
    ) == verdict);
    lemma_adoption_spawns_nothing(started.0, ServiceRole::Primary, probe);
    lemma_handle_spawn_count(fresh, Event::Start, ServiceRole::Primary, false);
    lemma_quiet_steps(fresh.primary, ServiceRole::Primary, false);
    let begun = BackendManager {
        primary: fresh.primary.spec_begin_start(true).0,
        secondary_pending: true,
        ..fresh
    };
    lemma_chain_effects(begun, fresh.primary.spec_begin_start(true).1, ServiceRole::Primary, false);
    let adopted = started.0.spec_handle(verdict);
    lemma_spawn_count_concat(started.1, adopted.1, ServiceRole::Primary, false);
    let run = fresh.spec_run(events);
    assert(run.1 =~= started.1 + adopted.1);
    lemma_handle_routes(started.0, verdict);
    let schedule = run.0.primary.schedule_effect();
    let settle = ServiceSupervisor::<H>::sleep_effects(started.0.primary.config.adoption_settle_ms);
    let own = started.0.primary.spec_on_adoption(PortOccupancy::Ours).1;
    assert(own[settle.len() as int + 2] == schedule);
    assert(adopted.1[settle.len() as int + 2] == schedule);
    assert(run.1[started.1.len() as int + settle.len() as int + 2] == schedule);
}

/// A stranger on the port of the secondary service, be it unhealthy or
/// unidentified, makes that service unavailable: nothing is spawned and the
/// status shows neither available nor running.
pub proof fn lemma_secondary_yields_to_stranger<H>(manager: BackendManager<H>, probe: ProbeResult)
    requires
        manager.wf(),
        manager.secondary.phase is Adopting,
        !(probe is Refused),
        !identifies(probe, manager.secondary.config.executable@),
    ensures
        ({
            let next = manager.spec_handle(
                manager.spec_probe_event(
                    ServiceRole::Secondary,
                    ProbePurpose::Adoption,
                    probe,
                ),
            );
            &&& !next.0.secondary.available
            &&& !next.0.spec_get_ai_status().available
            &&& !next.0.spec_get_ai_status().running
            &&& next.0.secondary.phase is Idle
            &&& next.0.secondary.state == manager.secondary.state
            &&& next.1 == Seq::<Effect<H>>::empty()
            &&& spawns(next.1, ServiceRole::Secondary) == 0
        }),
{
    let event = manager.spec_probe_event(
                    ServiceRole::Secondary,
                    ProbePurpose::Adoption,
                    probe,
                );
    lemma_handle_routes(manager, event);
    assert(manager.spec_handle(event).1 =~= Seq::<Effect<H>>::empty());
}

/// The primary service adopts on an exact match only: where the verdict on
/// its port is anything but ours, it is launched, with exactly one spawn.
pub proof fn lemma_primary_adopts_on_exact_match_only<H>(
    manager: BackendManager<H>,
    probe: ProbeResult,
)
    requires
        manager.wf(),
        manager.primary.phase is Adopting,
    ensures
        ({
            let next = manager.spec_handle(
                manager.spec_probe_event(
                    ServiceRole::Primary,
                    ProbePurpose::Adoption,
                    probe,
                ),
            );
            &&& identifies(probe, manager.primary.config.executable@) ==> spawns(
                next.1,
                ServiceRole::Primary,
            ) == 0 && next.0.primary.phase is Idle
            &&& !identifies(probe, manager.primary.config.executable@) ==> spawns(
                next.1,
                ServiceRole::Primary,
            ) == 1 && next.0.primary.phase == (Phase::Spawning { origin: Origin::Start })
                && next.0.primary.state.ready == manager.primary.state.ready
        }),
{
    let event = manager.spec_probe_event(
                    ServiceRole::Primary,
                    ProbePurpose::Adoption,
                    probe,
                );
    lemma_handle_routes(manager, event);
    lemma_step_spawn_count(manager.primary, event, ServiceRole::Primary, false);
    let step = manager.primary.spec_step(event);
    let stepped = BackendManager { primary: step.0, ..manager };
    lemma_chain_effects(stepped, step.1, ServiceRole::Primary, false);
    lemma_chain_keeps(stepped);
}

/// Whether `effect` belongs to the shutdown of the service `role`: the
/// request to shut down or the kill of its process.
pub open spec fn is_shutdown_step<H>(effect: Effect<H>, role: ServiceRole) -> bool {
    ||| effect matches Effect::RequestShutdown { role: r, .. } && r == role
    ||| effect matches Effect::Kill { role: r, .. } && r == role
}

/// A stop deals with the secondary service strictly before the primary one:
/// the request to shut down, then the grace period, then the kill of the
/// process that was owned, first for the secondary service and then for the
/// primary service. After it neither service runs nor owns a process.
pub proof fn lemma_stop_order<H>(manager: BackendManager<H>)
    requires
        manager.primary.config.role is Primary,
        manager.secondary.config.role is Secondary,
    ensures
        ({
            let effects = manager.spec_stop().1;
            let first = manager.secondary.spec_stop().1;
            let second = manager.primary.spec_stop().1;
            &&& effects == first + second
            &&& first[0] == manager.secondary.shutdown_effect()
            &&& first[1] == (Effect::<H>::Sleep { millis: manager.secondary.config.shutdown_grace_ms })
            &&& manager.secondary.state.process_handle matches Some(handle) ==> first[2] == (
            Effect::Kill { role: ServiceRole::Secondary, handle })
            &&& second[0] == manager.primary.shutdown_effect()
            &&& second[1] == (Effect::<H>::Sleep { millis: manager.primary.config.shutdown_grace_ms })
            &&& manager.primary.state.process_handle matches Some(handle) ==> second[2] == (
            Effect::Kill { role: ServiceRole::Primary, handle })
            &&& forall|i: int, j: int|
                0 <= i < effects.len() && 0 <= j < effects.len() && is_shutdown_step(
                    effects[i],
                    ServiceRole::Secondary,
                ) && is_shutdown_step(effects[j], ServiceRole::Primary) ==> i < j
        }),
        !manager.spec_stop().0.primary.state.running,
        !manager.spec_stop().0.secondary.state.running,
        manager.spec_stop().0.primary.state.process_handle is None,
        manager.spec_stop().0.secondary.state.process_handle is None,
{
    let effects = manager.spec_stop().1;
    let first = manager.secondary.spec_stop().1;
    let second = manager.primary.spec_stop().1;
    assert forall|i: int, j: int|
        0 <= i < effects.len() && 0 <= j < effects.len() && is_shutdown_step(
            effects[i],
            ServiceRole::Secondary,
        ) && is_shutdown_step(effects[j], ServiceRole::Primary) implies i < j by {
        if i >= first.len() {
            assert(effects[i] == second[i - first.len()]);
        }
        if j < first.len() {
            assert(effects[j] == first[j]);
        }
    }
}

/// A stop is idempotent: a second stop leaves the state as the first left it
/// and finds no process to kill.
pub proof fn lemma_stop_idempotent<H>(manager: BackendManager<H>)
    ensures
        manager.spec_stop().0.spec_stop().0 == manager.spec_stop().0,
        forall|i: int|
            0 <= i < manager.spec_stop().0.spec_stop().1.len() ==> !(
            #[trigger] manager.spec_stop().0.spec_stop().1[i] is Kill),
{
}

/// A service that does not run is left alone by its health monitor: a round
/// sends no probe, and the verdict on a probe that was still out is not
/// counted and brings no spawn. The monitor only asks for its next round.
pub proof fn lemma_stopped_service_is_left_alone<H>(s: ServiceSupervisor<H>, healthy: bool)
    requires
        !s.state.running,
    ensures
        s.spec_on_health_tick().0 == s,
        forall|i: int|
            0 <= i < s.spec_on_health_tick().1.len() ==> #[trigger] s.spec_on_health_tick().1[i]
                == s.schedule_effect(),
        s.spec_on_health(healthy).0.state == s.state,
        s.spec_on_health(healthy).0.phase == s.phase,
        forall|i: int|
            0 <= i < s.spec_on_health(healthy).1.len() ==> #[trigger] s.spec_on_health(healthy).1[i]
                == s.schedule_effect(),
{
}

/// The secondary service is spawned behind a ready primary service only:
/// whenever an event brings a spawn of the secondary service, the primary
/// service is ready.
pub proof fn lemma_secondary_spawns_behind_ready_primary<H>(
    manager: BackendManager<H>,
    event: Event<H>,
)
    requires
        manager.wf(),
        spawns(manager.spec_handle(event).1, ServiceRole::Secondary) > 0,
    ensures
        manager.primary.state.ready,
        manager.spec_handle(event).0.primary.state.ready,
{
    lemma_handle_preserves_wf(manager, event);
    lemma_handle_keeps(manager, event, ServiceRole::Primary);
    let role = ServiceRole::Secondary;
    match event.spec_role() {
        Some(ServiceRole::Secondary) => {
            lemma_handle_routes(manager, event);
            lemma_step_spawn_count(manager.secondary, event, role, false);
        },
        Some(ServiceRole::Primary) => {
            lemma_handle_routes(manager, event);
            let step = manager.primary.spec_step(event);
            lemma_step_spawn_count(manager.primary, event, role, false);
            let stepped = BackendManager { primary: step.0, ..manager };
            lemma_chain_effects(stepped, step.1, role, false);
        },
        None => {
            match event {
                Event::Start => {
                    if !manager.primary.engaged() && !manager.secondary.engaged()
                        && !manager.secondary_pending {
                        let begun = BackendManager {
                            primary: manager.primary.spec_begin_start(true).0,
                            secondary_pending: true,
                            ..manager
                        };
                        lemma_quiet_steps(manager.primary, role, false);
                        lemma_chain_effects(
                            begun,
                            manager.primary.spec_begin_start(true).1,
                            role,
                            false,
                        );
                    } else {
                        lemma_spawn_count_zero(manager.spec_handle(event).1, role, false);
                    }
                },
                Event::Restart => {
                    let begun = BackendManager {
                        primary: manager.primary.spec_begin_restart().0,
                        ..manager
                    };
                    lemma_restart_spawn_count(manager.primary, role, false);
                    lemma_chain_effects(
                        begun,
                        manager.primary.spec_begin_restart().1,
                        role,
                        false,
                    );
                },
                _ => {
                    lemma_quiet_steps(manager.primary, role, false);
                    lemma_quiet_steps(manager.secondary, role, false);
                    lemma_spawn_count_concat(
                        manager.secondary.spec_stop().1,
                        manager.primary.spec_stop().1,
                        role,
                        false,
                    );
                },
            }
        },
    }
}

/// What observers see of the secondary service stays behind the primary
/// service: the snapshot shows the secondary service available or running
/// only where the primary service is ready.
pub proof fn lemma_snapshot_behind_ready_primary<H>(manager: BackendManager<H>)
    requires
        manager.wf(),
    ensures
        manager.spec_get_ai_status().available ==> manager.primary.state.ready,
        manager.spec_get_ai_status().running ==> manager.primary.state.ready,
        manager.spec_get_ai_status().running ==> manager.secondary.state.ready,
{
}

/// After every run of a well-formed manager the snapshot of the secondary
/// service shows it available or running only where the primary service is ready.
pub proof fn lemma_run_keeps_snapshot_behind<H>(manager: BackendManager<H>, events: Seq<Event<H>>)
    requires
        manager.wf(),
    ensures
        manager.spec_run(events).0.spec_get_ai_status().available ==> manager.spec_run(
            events,
        ).0.primary.state.ready,
        manager.spec_run(events).0.spec_get_ai_status().running ==> manager.spec_run(
            events,
        ).0.primary.state.ready,
{
    lemma_run_preserves_wf(manager, events);
    lemma_snapshot_behind_ready_primary(manager.spec_run(events).0);
}

/// Every request for a restart is served, whatever is in flight: the
/// starting notice goes out first, exactly one spawn of the primary service
/// is asked for, which is no automatic respawn, and the supervisor waits for
/// it on the same instance, with the restart counter, the configuration,
/// `running` and `ready` as they were and the handle slot emptied.
pub proof fn lemma_restart_launches_once<H>(manager: BackendManager<H>)
    requires
        manager.primary.config.role is Primary,
    ensures
        ({
            let next = manager.spec_restart();
            &&& next.1.len() > 0
            &&& next.1[0] == Effect::<H>::EmitStatus { event: StatusEvent::Restarting }
            &&& spawns(next.1, ServiceRole::Primary) == 1
            &&& respawns(next.1, ServiceRole::Primary) == 0
            &&& next.0.primary.phase == (Phase::Spawning { origin: Origin::Restart })
            &&& next.0.primary.state.process_handle is None
            &&& next.0.primary.state.restart_count == manager.primary.state.restart_count
            &&& next.0.primary.state.running == manager.primary.state.running
            &&& next.0.primary.state.ready == manager.primary.state.ready
            &&& next.0.primary.config == manager.primary.config
            &&& next.0.secondary == manager.secondary
        }),
{
    let begun = BackendManager { primary: manager.primary.spec_begin_restart().0, ..manager };
    let effects = manager.primary.spec_begin_restart().1;
    lemma_restart_spawn_count(manager.primary, ServiceRole::Primary, false);
    lemma_restart_spawn_count(manager.primary, ServiceRole::Primary, true);
    lemma_chain_effects(begun, effects, ServiceRole::Primary, false);
    lemma_chain_effects(begun, effects, ServiceRole::Primary, true);
}

/// Whether `effect` announces that the service answers: the ready notice or
/// the circuit reset.
pub open spec fn is_ready_announcement<H>(effect: Effect<H>) -> bool {
    effect == (Effect::<H>::EmitStatus { event: StatusEvent::Ready }) || effect is EmitCircuitReset
}

/// How a restart ends. Where the spawn fails or the readiness wait runs out,
/// the error is handed to the operator, nothing announces readiness, and the
/// restart counter and readiness are as they were; a failed spawn leaves
/// `running` as it was as well. Where a readiness probe is healthy, the
/// service runs and is ready, the ready notice and the circuit reset go out
/// in this order, and the operator is told of the success.
pub proof fn lemma_restart_outcome<H>(s: ServiceSupervisor<H>, reason: String, attempt: u32)
    requires
        s.config.role is Primary,
    ensures
        s.phase == (Phase::Spawning { origin: Origin::Restart }) ==> {
            let failed = s.spec_on_spawn_failed(reason);
            &&& failed.1 == seq![
                Effect::<H>::ReportFailure {
                    role: s.config.role,
                    origin: Origin::Restart,
                    error: LaunchError::Spawn { reason },
                },
            ]
            &&& failed.0.state == s.state
            &&& failed.0.phase is Idle
        },
        s.phase == (Phase::AwaitingReady { origin: Origin::Restart, attempt }) && attempt
            >= s.config.readiness_attempts ==> {
            let timed_out = s.spec_on_readiness(false);
            &&& timed_out.0.state == s.state
            &&& timed_out.0.phase is Idle
            &&& timed_out.1.last() == (Effect::<H>::ReportFailure {
                role: s.config.role,
                origin: Origin::Restart,
                error: s.timeout_error(),
            })
            &&& forall|i: int|
                0 <= i < timed_out.1.len() ==> !is_ready_announcement(#[trigger] timed_out.1[i])
        },
        s.phase == (Phase::AwaitingReady { origin: Origin::Restart, attempt }) ==> {
            let up = s.spec_on_readiness(true);
            &&& up.0.state.running
            &&& up.0.state.ready
            &&& up.0.state.restart_count == s.state.restart_count
            &&& up.0.state.process_handle == s.state.process_handle
            &&& up.0.phase is Idle
            &&& up.1.len() >= 3
            &&& up.1[0] == Effect::<H>::EmitStatus { event: StatusEvent::Ready }
            &&& up.1[1] == Effect::<H>::EmitCircuitReset
            &&& up.1[2] == (Effect::<H>::ReportSuccess {
                role: s.config.role,
                origin: Origin::Restart,
            })
        },
{
    if s.phase == (Phase::Spawning { origin: Origin::Restart }) {
        assert(s.spec_on_spawn_failed(reason).1 =~= seq![
            Effect::<H>::ReportFailure {
                role: s.config.role,
                origin: Origin::Restart,
                error: LaunchError::Spawn { reason },
            },
        ]);
    }
}

/// A start that fails leaves the service down, whether the spawn failed or
/// the readiness wait ran out: the service counts neither as running nor as
/// available, readiness and the restart counter are as they were, the
/// observers of the primary service get the error notice with the cause and
/// nothing announces readiness, nothing more is spawned, and a process that
/// was spawned stays in the slot and is not killed.
pub proof fn lemma_failed_start_leaves_service_down<H>(
    s: ServiceSupervisor<H>,
    reason: String,
    attempt: u32,
)
    requires
        s.config.role is Primary,
    ensures
        s.phase == (Phase::Spawning { origin: Origin::Start }) ==> {
            let failed = s.spec_on_spawn_failed(reason);
            &&& !failed.0.state.running
            &&& !failed.0.available
            &&& failed.0.state.ready == s.state.ready
            &&& failed.0.state.restart_count == s.state.restart_count
            &&& failed.0.state.process_handle == s.state.process_handle
            &&& failed.0.monitoring == s.monitoring
            &&& failed.0.phase is Idle
            &&& failed.1 == seq![
                Effect::<H>::EmitStatus {
                    event: StatusEvent::Failed { error: LaunchError::Spawn { reason } },
                },
            ]
        },
        s.phase == (Phase::AwaitingReady { origin: Origin::Start, attempt }) && attempt
            >= s.config.readiness_attempts ==> {
            let timed_out = s.spec_on_readiness(false);
            &&& !timed_out.0.state.running
            &&& !timed_out.0.available
            &&& timed_out.0.state.ready == s.state.ready
            &&& timed_out.0.state.restart_count == s.state.restart_count
            &&& timed_out.0.state.process_handle == s.state.process_handle
            &&& timed_out.0.monitoring == s.monitoring
            &&& timed_out.0.phase is Idle
            &&& timed_out.1.last() == (Effect::<H>::EmitStatus {
                event: StatusEvent::Failed { error: s.timeout_error() },
            })
            &&& spawns(timed_out.1, ServiceRole::Primary) == 0
            &&& forall|i: int|
                0 <= i < timed_out.1.len() ==> !is_ready_announcement(#[trigger] timed_out.1[i])
                    && !(timed_out.1[i] is Kill)
        },
{
    if s.phase == (Phase::Spawning { origin: Origin::Start }) {
        assert(s.spec_on_spawn_failed(reason).1 =~= seq![
            Effect::<H>::EmitStatus {
                event: StatusEvent::Failed { error: LaunchError::Spawn { reason } },
            },
        ]);
    }
    lemma_readiness_spawn_count(s, false, ServiceRole::Primary, false);
}

/// The time that the effects pause, in milliseconds.
pub open spec fn total_pause<H>(effects: Seq<Effect<H>>) -> nat
    decreases effects.len(),
{
    if effects.len() == 0 {
        0
    } else {
        total_pause(effects.drop_last()) + match effects.last() {
            Effect::Sleep { millis } => millis as nat,
            _ => 0nat,
        }
    }
}

/// The pauses of two lists of effects add up.
pub proof fn lemma_total_pause_concat<H>(a: Seq<Effect<H>>, b: Seq<Effect<H>>)
    ensures
        total_pause(a + b) == total_pause(a) + total_pause(b),
    decreases b.len(),
{
    if b.len() == 0 {
        assert(a + b =~= a);
    } else {
        assert((a + b).drop_last() =~= a + b.drop_last());
        assert((a + b).last() == b.last());
        lemma_total_pause_concat(a, b.drop_last());
    }
}

/// Effects without a pause do not pause.
proof fn lemma_total_pause_zero<H>(effects: Seq<Effect<H>>)
    requires
        forall|i: int| 0 <= i < effects.len() ==> !(#[trigger] effects[i] is Sleep),
    ensures
        total_pause(effects) == 0,
    decreases effects.len(),
{
    if effects.len() > 0 {
        assert(!(effects[effects.len() - 1] is Sleep));
        lemma_total_pause_zero(effects.drop_last());
    }
}

impl<H> ServiceSupervisor<H> {
    /// The supervisor after the verdicts on its readiness probes, taken in
    /// order, and all the effects that they brought.
    pub open spec fn spec_await(self, outcomes: Seq<bool>) -> (Self, Seq<Effect<H>>)
        decreases outcomes.len(),
    {
        if outcomes.len() == 0 {
            (self, seq![])
        } else {
            let step = self.spec_on_readiness(outcomes[0]);
            let rest = step.0.spec_await(outcomes.drop_first());
            (rest.0, step.1 + rest.1)
        }
    }
}

/// The pause of one step of the readiness wait: none after a healthy probe,
/// one interval after a failed one.
proof fn lemma_readiness_step_pause<H>(s: ServiceSupervisor<H>, healthy: bool)
    requires
        s.phase is AwaitingReady,
    ensures
        total_pause(s.spec_on_readiness(healthy).1) == if healthy {
            0nat
        } else {
            s.config.readiness_interval_ms as nat
        },
{
    let effects = s.spec_on_readiness(healthy).1;
    match s.phase {
        Phase::AwaitingReady { origin, attempt } => {
            if healthy {
                lemma_total_pause_zero(effects);
            } else {
                let progress = s.progress_effects(attempt);
                lemma_total_pause_zero(progress);
                let pause = seq![s.readiness_pause()];
                assert(pause.drop_last() =~= Seq::<Effect<H>>::empty());
                assert(total_pause(Seq::<Effect<H>>::empty()) == 0);
                assert(pause.last() == s.readiness_pause());
                assert(total_pause(pause) == s.config.readiness_interval_ms as nat);
                if attempt < s.config.readiness_attempts {
                    let probe = seq![s.probe_effect(ProbePurpose::Readiness)];
                    lemma_total_pause_zero(probe);
                    assert(effects =~= progress + pause + probe);
                    lemma_total_pause_concat(progress, pause);
                    lemma_total_pause_concat(progress + pause, probe);
                } else {
                    let end = s.spec_fail(origin, s.timeout_error()).1;
                    lemma_total_pause_zero(end);
                    assert(effects =~= progress + pause + end);
                    lemma_total_pause_concat(progress, pause);
                    lemma_total_pause_concat(progress + pause, end);
                }
            }
        },
        _ => {},
    }
}

/// A supervisor that waits for no readiness probe ignores the verdicts on them.
proof fn lemma_await_when_idle<H>(s: ServiceSupervisor<H>, outcomes: Seq<bool>)
    requires
        !(s.phase is AwaitingReady),
    ensures
        s.spec_await(outcomes) == (s, Seq::<Effect<H>>::empty()),
    decreases outcomes.len(),
{
    if outcomes.len() > 0 {
        lemma_await_when_idle(s, outcomes.drop_first());
        assert(Seq::<Effect<H>>::empty() + Seq::<Effect<H>>::empty() =~= Seq::<Effect<H>>::empty());
    }
}

/// The readiness wait of a supervisor. Let the verdicts on the probes come
/// in, `first` being the place of the first healthy one. If that probe is
/// among the `readiness_attempts` allowed, the wait ends with it: the
/// service is running and ready, and the pauses sum up to one interval for
/// every failed probe before it. If none of the allowed probes is healthy,
/// the wait ends after exactly `readiness_attempts` probes and as many
/// pauses, that is after `readiness_attempts * readiness_interval_ms`
/// milliseconds, with the timeout error; readiness is as it was, the process
/// that was spawned is still owned, and `running` is as it was but after a
/// start, which leaves the service down.
pub proof fn lemma_readiness_wait<H>(
    s: ServiceSupervisor<H>,
    origin: Origin,
    outcomes: Seq<bool>,
    first: int,
)
    requires
        s.phase == (Phase::AwaitingReady { origin, attempt: 1 }),
        s.config.readiness_attempts >= 1,
        0 <= first <= outcomes.len(),
        forall|i: int| 0 <= i < first ==> !outcomes[i],
        first < outcomes.len() ==> outcomes[first],
        first < outcomes.len() || outcomes.len() >= s.config.readiness_attempts,
    ensures
        s.spec_await(outcomes).0.phase is Idle,
        first < s.config.readiness_attempts && first < outcomes.len() ==> {
            &&& s.spec_await(outcomes).0.state.ready
            &&& s.spec_await(outcomes).0.state.running
            &&& total_pause(s.spec_await(outcomes).1) == first * s.config.readiness_interval_ms
        },
        !(first < s.config.readiness_attempts && first < outcomes.len()) ==> {
            &&& s.spec_await(outcomes).0.state == s.spec_fail(origin, s.timeout_error()).0.state
            &&& total_pause(s.spec_await(outcomes).1) == s.config.readiness_attempts
                * s.config.readiness_interval_ms
            &&& s.spec_await(outcomes).1.contains(s.spec_fail(origin, s.timeout_error()).1[0])
        },
{
    lemma_readiness_wait_from(s, origin, outcomes, first, 1);
    assert(0 * s.config.readiness_interval_ms == 0) by (nonlinear_arith);
}

proof fn lemma_readiness_wait_from<H>(
    s: ServiceSupervisor<H>,
    origin: Origin,
    outcomes: Seq<bool>,
    first: int,
    attempt: u32,
)
    requires
        s.phase == (Phase::AwaitingReady { origin, attempt }),
        1 <= attempt <= s.config.readiness_attempts,
        0 <= first <= outcomes.len(),
        forall|i: int| 0 <= i < first ==> !outcomes[i],
        first < outcomes.len() ==> outcomes[first],
        first < outcomes.len() || attempt + outcomes.len() > s.config.readiness_attempts,
    ensures
        s.spec_await(outcomes).0.phase is Idle,
        attempt + first <= s.config.readiness_attempts && first < outcomes.len() ==> {
            &&& s.spec_await(outcomes).0.state.ready
            &&& s.spec_await(outcomes).0.state.running
            &&& total_pause(s.spec_await(outcomes).1) == first * s.config.readiness_interval_ms
        },
        !(attempt + first <= s.config.readiness_attempts && first < outcomes.len()) ==> {
            &&& s.spec_await(outcomes).0.state == s.spec_fail(origin, s.timeout_error()).0.state
            &&& total_pause(s.spec_await(outcomes).1) == (s.config.readiness_attempts - attempt
                + 1) * s.config.readiness_interval_ms
            &&& s.spec_await(outcomes).1.contains(s.spec_fail(origin, s.timeout_error()).1[0])
        },
    decreases outcomes.len(),
{
    let interval = s.config.readiness_interval_ms;
    let attempts = s.config.readiness_attempts;
    assert(0 * interval == 0) by (nonlinear_arith);
    assert(1 * interval == interval) by (nonlinear_arith);
    assert((first - 1) * interval + interval == first * interval) by (nonlinear_arith);
    assert((attempts - (attempt + 1) + 1) * interval + interval == (attempts - attempt + 1)
        * interval) by (nonlinear_arith);
    assert(outcomes.len() > 0);
    let step = s.spec_on_readiness(outcomes[0]);
    let rest = outcomes.drop_first();
    let tail = step.0.spec_await(rest);
    lemma_readiness_step_pause(s, outcomes[0]);
    lemma_total_pause_concat(step.1, tail.1);
    if outcomes[0] {
        assert(first == 0);
        lemma_await_when_idle(step.0, rest);
        assert(step.1 + tail.1 =~= step.1);
    } else if attempt < attempts {
        assert(first >= 1);
        assert forall|i: int| 0 <= i < first - 1 implies !rest[i] by {
            assert(rest[i] == outcomes[i + 1]);
        }
        if first < outcomes.len() {
            assert(rest[first - 1] == outcomes[first]);
        }
        lemma_readiness_wait_from(step.0, origin, rest, first - 1, (attempt + 1) as u32);
        assert(step.0.state == s.state);
        assert(step.0.spec_fail(origin, step.0.timeout_error()).0.state == s.spec_fail(
            origin,
            s.timeout_error(),
        ).0.state);
        assert(step.0.spec_fail(origin, step.0.timeout_error()).1 == s.spec_fail(
            origin,
            s.timeout_error(),
        ).1);
        if !(attempt + first <= attempts && first < outcomes.len()) {
            let witness = s.spec_fail(origin, s.timeout_error()).1[0];
            let k = choose|k: int| 0 <= k < tail.1.len() && tail.1[k] == witness;
            assert((step.1 + tail.1)[step.1.len() + k] == witness);
        }
    } else {
        assert(first >= 1);
        lemma_await_when_idle(step.0, rest);
        assert(step.1 + tail.1 =~= step.1);
        let end = s.spec_fail(origin, s.timeout_error()).1;
        let before = s.progress_effects(attempt) + seq![s.readiness_pause()];
        assert(step.1 =~= before + end);
        assert(step.1[before.len() as int] == end[0]);
    }
}

} // verus!
