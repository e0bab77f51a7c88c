//! Who owns a process.
//!
//! A handle stands for a process that the shell spawned. The supervisor
//! receives it with the report of the spawn, keeps it in the slot of the
//! service, and gives it up in exactly one kill. The laws here state that no
//! handle is lost and none is given up twice: at any time, what was received
//! is what is held and what was handed out to be killed.

use vstd::prelude::*;
use crate::events::{Effect, Event, LaunchError, Origin, Phase, ProbePurpose, StatusEvent};
use crate::probe::PortOccupancy;
use crate::readiness::{spec_wait_verdict, WaitVerdict};
use crate::service::{ServiceRole, ServiceState};
use crate::sidecar::BackendManager;
use crate::supervisor::ServiceSupervisor;

verus! {

/// How often the handle `handle` is in the slot of the supervisor: once or not at all.
pub open spec fn held<H>(s: ServiceSupervisor<H>, handle: H) -> nat {
    if s.state.process_handle == Some(handle) {
        1
    } else {
        0
    }
}

/// How often the event hands the handle `handle` to the supervisor.
pub open spec fn handed<H>(event: Event<H>, handle: H) -> nat {
    if event matches Event::Spawned { handle: h, .. } && h == handle {
        1
    } else {
        0
    }
}

/// How often the events of a run hand the handle `handle` to the manager.
pub open spec fn handed_over<H>(events: Seq<Event<H>>, handle: H) -> nat
    decreases events.len(),
{
    if events.len() == 0 {
        0
    } else {
        handed_over(events.drop_last(), handle) + handed(events.last(), handle)
    }
}

/// Whether `effect` is the kill of the process behind `handle`.
pub open spec fn is_kill_of<H>(effect: Effect<H>, handle: H) -> bool {
    effect matches Effect::Kill { handle: h, .. } && h == handle
}

/// How often the effects ask to kill the process behind `handle`.
pub open spec fn kills<H>(effects: Seq<Effect<H>>, handle: H) -> nat
    decreases effects.len(),
{
    if effects.len() == 0 {
        0
    } else {
        kills(effects.drop_last(), handle) + if is_kill_of(effects.last(), handle) {
            1nat
        } else {
            0nat
        }
    }
}

/// The kills of two lists of effects add up.
pub proof fn lemma_kills_concat<H>(a: Seq<Effect<H>>, b: Seq<Effect<H>>, handle: H)
    ensures
        kills(a + b, handle) == kills(a, handle) + kills(b, handle),
    decreases b.len(),
{
    if b.len() == 0 {
        assert(a + b =~= a);
    } else {
        assert((a + b).drop_last() =~= a + b.drop_last());
        assert((a + b).last() == b.last());
        lemma_kills_concat(a, b.drop_last(), handle);
    }
}

/// Effects without a kill of the process kill it not once.
proof fn lemma_kills_zero<H>(effects: Seq<Effect<H>>, handle: H)
    requires
        forall|i: int| 0 <= i < effects.len() ==> !is_kill_of(#[trigger] effects[i], handle),
    ensures
        kills(effects, handle) == 0,
    decreases effects.len(),
{
    if effects.len() > 0 {
        assert(!is_kill_of(effects[effects.len() - 1], handle));
        lemma_kills_zero(effects.drop_last(), handle);
    }
}

/// The kills among the effects that give up what a slot holds.
proof fn lemma_kill_effects<H>(s: ServiceSupervisor<H>, slot: Option<H>, handle: H)
    ensures
        kills(s.kill_effects(slot), handle) == if slot == Some(handle) {
            1nat
        } else {
            0nat
        },
{
    let effects = s.kill_effects(slot);
    if slot is Some {
        assert(effects.drop_last() =~= Seq::<Effect<H>>::empty());
        assert(kills(Seq::<Effect<H>>::empty(), handle) == 0);
    }
}

/// A launch gives up what the slot holds and nothing else.
proof fn lemma_launch_kills<H>(s: ServiceSupervisor<H>, origin: Origin, handle: H)
    ensures
        kills(s.spec_launch(origin).1, handle) == held(s, handle),
        held(s.spec_launch(origin).0, handle) == 0,
{
    let kill = s.kill_effects(s.state.process_handle);
    let rest = (if origin is Monitor {
        ServiceSupervisor::<H>::sleep_effects(s.config.restart_delay_ms)
    } else {
        seq![]
    }) + seq![Effect::Spawn { role: s.config.role, origin }];
    lemma_kill_effects(s, s.state.process_handle, handle);
    lemma_kills_zero(rest, handle);
    assert(s.spec_launch(origin).1 =~= kill + rest);
    lemma_kills_concat(kill, rest, handle);
}

/// The steps that end a sequence kill nothing.
proof fn lemma_end_kills_nothing<H>(s: ServiceSupervisor<H>, handle: H)
    ensures
        forall|origin: Origin| #[trigger] kills(s.spec_succeed(origin).1, handle) == 0,
        forall|origin: Origin, error: LaunchError| #[trigger]
            kills(s.spec_fail(origin, error).1, handle) == 0,
{
    assert forall|origin: Origin| #[trigger] kills(s.spec_succeed(origin).1, handle) == 0 by {
        lemma_kills_zero(s.spec_succeed(origin).1, handle);
    }
    assert forall|origin: Origin, error: LaunchError| #[trigger]
        kills(s.spec_fail(origin, error).1, handle) == 0 by {
        lemma_kills_zero(s.spec_fail(origin, error).1, handle);
    }
}

proof fn lemma_adoption_conserves<H>(
    s: ServiceSupervisor<H>,
    occupancy: PortOccupancy,
    handle: H,
)
    ensures
        held(s, handle) == held(s.spec_on_adoption(occupancy).0, handle) + kills(
            s.spec_on_adoption(occupancy).1,
            handle,
        ),
{
    let effects = s.spec_on_adoption(occupancy).1;
    if !(s.phase is Adopting) {
        lemma_kills_zero(effects, handle);
    } else if occupancy is Ours {
        lemma_end_kills_nothing(s, handle);
        let settle = ServiceSupervisor::<H>::sleep_effects(s.config.adoption_settle_ms);
        lemma_kills_zero(settle, handle);
        lemma_kills_concat(settle, s.spec_succeed(Origin::Start).1, handle);
    } else if occupancy is Foreign && s.yields_to_strangers() {
        lemma_kills_zero(effects, handle);
    } else {
        lemma_launch_kills(s, Origin::Start, handle);
    }
}

proof fn lemma_spawned_conserves<H>(s: ServiceSupervisor<H>, given: H, handle: H)
    ensures
        held(s, handle) + (if given == handle {
            1nat
        } else {
            0nat
        }) == held(s.spec_on_spawned(given).0, handle) + kills(s.spec_on_spawned(given).1, handle),
{
    let effects = s.spec_on_spawned(given).1;
    match s.phase {
        Phase::Spawning { origin } => {
            let kept = ServiceSupervisor {
                state: ServiceState {
                    running: true,
                    process_handle: Some(given),
                    ..s.state
                },
                ..s
            };
            let displaced = s.kill_effects(s.state.process_handle);
            lemma_kill_effects(s, s.state.process_handle, handle);
            if s.config.readiness_attempts == 0 {
                lemma_end_kills_nothing(kept, handle);
                lemma_kills_concat(displaced, kept.spec_fail(origin, s.timeout_error()).1, handle);
            } else {
                let probe = seq![s.probe_effect(ProbePurpose::Readiness)];
                lemma_kills_zero(probe, handle);
                lemma_kills_concat(displaced, probe, handle);
            }
        },
        _ => {
            assert(effects.drop_last() =~= Seq::<Effect<H>>::empty());
            assert(kills(Seq::<Effect<H>>::empty(), handle) == 0);
        },
    }
}

proof fn lemma_readiness_conserves<H>(s: ServiceSupervisor<H>, healthy: bool, handle: H)
    ensures
        held(s, handle) == held(s.spec_on_readiness(healthy).0, handle),
        kills(s.spec_on_readiness(healthy).1, handle) == 0,
{
    let effects = s.spec_on_readiness(healthy).1;
    lemma_end_kills_nothing(s, handle);
    match s.phase {
        Phase::AwaitingReady { origin, attempt } => {
            let before = s.progress_effects(attempt) + seq![s.readiness_pause()];
            lemma_kills_zero(before, handle);
            match spec_wait_verdict(
                s.config.readiness_attempts,
                attempt,
                healthy,
            ) {
                WaitVerdict::Ready => {},
                WaitVerdict::Retry => {
                    lemma_kills_zero(effects, handle);
                },
                WaitVerdict::TimedOut => {
                    lemma_kills_concat(before, s.spec_fail(origin, s.timeout_error()).1, handle);
                },
            }
        },
        _ => {
            lemma_kills_zero(effects, handle);
        },
    }
}

proof fn lemma_health_conserves<H>(s: ServiceSupervisor<H>, healthy: bool, handle: H)
    ensures
        held(s, handle) == held(s.spec_on_health(healthy).0, handle) + kills(
            s.spec_on_health(healthy).1,
            handle,
        ),
{
    let effects = s.spec_on_health(healthy).1;
    if s.health_pending {
        let t = ServiceSupervisor { health_pending: false, ..s };
        if healthy || !t.state.running || !(t.phase is Idle) {
            lemma_kills_zero(effects, handle);
        } else if t.state.restart_count < t.config.max_restart_attempts {
            let counted = ServiceSupervisor {
                state: ServiceState {
                    restart_count: ServiceSupervisor::<H>::next_restart_count(
                        t.state.restart_count,
                    ),
                    ..t.state
                },
                ..t
            };
            lemma_launch_kills(counted, Origin::Monitor, handle);
        } else {
            lemma_kills_zero(effects, handle);
        }
    } else {
        lemma_kills_zero(effects, handle);
    }
}

/// No step of a supervisor loses a handle or gives one up twice: the handle
/// that it held or was handed is the handle that it holds or has handed out
/// to be killed, once.
pub proof fn lemma_step_conserves<H>(s: ServiceSupervisor<H>, event: Event<H>, handle: H)
    ensures
        held(s, handle) + handed(event, handle) == held(s.spec_step(event).0, handle) + kills(
            s.spec_step(event).1,
            handle,
        ),
{
    let effects = s.spec_step(event).1;
    match event {
        Event::BinaryChecked { found, .. } => {
            lemma_kills_zero(effects, handle);
        },
        Event::AdoptionChecked { occupancy, .. } => {
            lemma_adoption_conserves(s, occupancy, handle);
        },
        Event::Spawned { handle: given, .. } => {
            lemma_spawned_conserves(s, given, handle);
        },
        Event::SpawnFailed { reason, .. } => {
            lemma_end_kills_nothing(s, handle);
            if !(s.phase is Spawning) {
                lemma_kills_zero(effects, handle);
            }
        },
        Event::ReadinessProbed { healthy, .. } => {
            lemma_readiness_conserves(s, healthy, handle);
        },
        Event::HealthTick { .. } => {
            lemma_kills_zero(effects, handle);
        },
        Event::HealthProbed { healthy, .. } => {
            lemma_health_conserves(s, healthy, handle);
        },
        _ => {
            lemma_kills_zero(effects, handle);
        },
    }
}

/// The requests to start, to restart and to stop lose no handle either: a
/// start holds what was held, and a restart and a stop give up what was held.
pub proof fn lemma_requests_conserve<H>(s: ServiceSupervisor<H>, dependency_ready: bool, handle: H)
    ensures
        held(s.spec_begin_start(dependency_ready).0, handle) == held(s, handle),
        kills(s.spec_begin_start(dependency_ready).1, handle) == 0,
        held(s, handle) == held(s.spec_begin_restart().0, handle) + kills(
            s.spec_begin_restart().1,
            handle,
        ),
        held(s.spec_stop().0, handle) == 0,
        kills(s.spec_stop().1, handle) == held(s, handle),
{
    lemma_kills_zero(s.spec_begin_start(dependency_ready).1, handle);
    let notice = s.status_effects(StatusEvent::Restarting);
    let resume = s.resume_effects();
    lemma_kills_zero(notice, handle);
    lemma_kills_zero(resume, handle);
    lemma_launch_kills(s, Origin::Restart, handle);
    lemma_kills_concat(notice, s.spec_launch(Origin::Restart).1, handle);
    lemma_kills_concat(notice + s.spec_launch(Origin::Restart).1, resume, handle);
    let ask = seq![s.shutdown_effect(), Effect::Sleep { millis: s.config.shutdown_grace_ms }];
    let kill = s.kill_effects(s.state.process_handle);
    let go_on = s.resume_effects();
    lemma_kills_zero(ask, handle);
    lemma_kill_effects(s, s.state.process_handle, handle);
    lemma_kills_zero(go_on, handle);
    assert(s.spec_stop().1 =~= ask + kill + go_on);
    lemma_kills_concat(ask, kill, handle);
    lemma_kills_concat(ask + kill, go_on, handle);
}

impl<H> BackendManager<H> {
    /// How often the manager holds the handle `handle`, in either slot.
    pub open spec fn holds(self, handle: H) -> nat {
        held(self.primary, handle) + held(self.secondary, handle)
    }
}

/// The look for the secondary service's turn kills nothing and moves no handle.
proof fn lemma_chain_conserves<H>(manager: BackendManager<H>, effects: Seq<Effect<H>>, handle: H)
    ensures
        manager.spec_chain(effects).0.holds(handle) == manager.holds(handle),
        kills(manager.spec_chain(effects).1, handle) == kills(effects, handle),
{
    if manager.secondary_pending && manager.primary.phase is Idle {
        lemma_requests_conserve(manager.secondary, manager.primary.state.ready, handle);
        lemma_kills_concat(
            effects,
            manager.secondary.spec_begin_start(manager.primary.state.ready).1,
            handle,
        );
    }
}

/// No event loses a handle or gives one up twice.
pub proof fn lemma_handle_conserves<H>(manager: BackendManager<H>, event: Event<H>, handle: H)
    ensures
        manager.holds(handle) + handed(event, handle) == manager.spec_handle(event).0.holds(handle)
            + kills(manager.spec_handle(event).1, handle),
{
    match event {
        Event::Start => {
            if !manager.primary.engaged() && !manager.secondary.engaged()
                && !manager.secondary_pending {
                lemma_requests_conserve(manager.primary, true, handle);
                let begun = BackendManager {
                    primary: manager.primary.spec_begin_start(true).0,
                    secondary_pending: true,
                    ..manager
                };
                lemma_chain_conserves(begun, manager.primary.spec_begin_start(true).1, handle);
            } else {
                lemma_kills_zero(manager.spec_handle(event).1, handle);
            }
        },
        Event::Restart => {
            lemma_requests_conserve(manager.primary, true, handle);
            let begun = BackendManager {
                primary: manager.primary.spec_begin_restart().0,
                ..manager
            };
            lemma_chain_conserves(begun, manager.primary.spec_begin_restart().1, handle);
        },
        Event::Stop => {
            lemma_requests_conserve(manager.primary, true, handle);
            lemma_requests_conserve(manager.secondary, true, handle);
            lemma_kills_concat(
                manager.secondary.spec_stop().1,
                manager.primary.spec_stop().1,
                handle,
            );
        },
        _ => {
            match event.spec_role() {
                Some(ServiceRole::Secondary) => {
                    lemma_step_conserves(manager.secondary, event, handle);
                },
                _ => {
                    lemma_step_conserves(manager.primary, event, handle);
                    let step = manager.primary.spec_step(event);
                    let stepped = BackendManager { primary: step.0, ..manager };
                    lemma_chain_conserves(stepped, step.1, handle);
                },
            }
        },
    }
}

/// Ownership over a whole run. Whatever happens, every handle that the
/// manager held at the beginning or was handed on the way is, at the end,
/// either still in a slot or was handed out in a kill, and as often as it
/// came in. So a process that was spawned is never forgotten, and a handle
/// that came in once goes out in at most one kill.
pub proof fn lemma_handles_are_conserved<H>(
    manager: BackendManager<H>,
    events: Seq<Event<H>>,
    handle: H,
)
    ensures
        manager.holds(handle) + handed_over(events, handle) == manager.spec_run(events).0.holds(
            handle,
        ) + kills(manager.spec_run(events).1, handle),
    decreases events.len(),
{
    if events.len() > 0 {
        let before = manager.spec_run(events.drop_last());
        lemma_handles_are_conserved(manager, events.drop_last(), handle);
        lemma_handle_conserves(before.0, events.last(), handle);
        lemma_kills_concat(before.1, before.0.spec_handle(events.last()).1, handle);
    } else {
        assert(kills(Seq::<Effect<H>>::empty(), handle) == 0);
    }
}

} // verus!
