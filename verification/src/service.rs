//! What a managed service is: its role, its fixed configuration and the state
//! that its supervisor keeps for it.

use vstd::prelude::*;
use vstd::string::*;
use crate::backend_ports::{AI_BACKEND_PORT, BACKEND_PORT};

verus! {

/// The two services of the shell. The secondary depends on the primary.
#[derive(Debug, Clone, Copy, PartialEq, Eq, Hash)]
pub enum ServiceRole {
    /// The backend engine.
    Primary,
    /// The AI service.
    Secondary,
}

impl ServiceRole {
    /// Whether this is the primary service.
    pub fn is_primary(&self) -> (res: bool)
        ensures
            res == (*self is Primary),
    {
        match self {
            ServiceRole::Primary => true,
            ServiceRole::Secondary => false,
        }
    }
}

/// The fixed configuration of one service.
#[derive(Debug, PartialEq, Eq)]
pub struct ServiceSpec {
    pub role: ServiceRole,
    /// How messages call the service.
    pub name: String,
    /// The name of the service's executable, which is also the name by which
    /// its health payload identifies it.
    pub executable: String,
    /// The loopback port that the service listens on.
    pub port: u16,
    /// How many readiness probes a start may spend.
    pub readiness_attempts: u32,
    /// The pause after a failed readiness probe, in milliseconds.
    pub readiness_interval_ms: u32,
    /// The pause between two health checks, in seconds.
    pub health_interval_secs: u64,
    /// The timeout of one health or readiness probe and of the shutdown request, in seconds.
    pub health_timeout_secs: u64,
    /// The timeout of the probe that looks for an instance to adopt, in seconds.
    pub adoption_timeout_secs: u64,
    /// How many automatic respawns the health monitor may spend.
    pub max_restart_attempts: u32,
    /// The pause before an automatic respawn, in milliseconds.
    pub restart_delay_ms: u64,
    /// The time a service gets to exit after the shutdown request, in milliseconds.
    pub shutdown_grace_ms: u64,
    /// The pause between adopting an instance and announcing it, in milliseconds.
    pub adoption_settle_ms: u64,
}

impl ServiceSpec {
    /// Whether `self` is the configuration of the backend engine: port 819, a
    /// minute of readiness polling, a health check every ten seconds, three respawns.
    pub open spec fn is_primary_default(self) -> bool {
        &&& self.role is Primary
        &&& self.name@ == "Backend"@
        &&& self.executable@ == "kubilitics-backend"@
        &&& self.port == BACKEND_PORT
        &&& self.readiness_attempts == 120
        &&& self.readiness_interval_ms == 500
        &&& self.health_interval_secs == 10
        &&& self.health_timeout_secs == 5
        &&& self.adoption_timeout_secs == 3
        &&& self.max_restart_attempts == 3
        &&& self.restart_delay_ms == 0
        &&& self.shutdown_grace_ms == 1500
        &&& self.adoption_settle_ms == 1500
    }

    /// Whether `self` is the configuration of the AI service: port 8081, half
    /// a minute of readiness polling, a health check every thirty seconds,
    /// two respawns, each after a pause of five seconds.
    pub open spec fn is_secondary_default(self) -> bool {
        &&& self.role is Secondary
        &&& self.name@ == "AI backend"@
        &&& self.executable@ == "kubilitics-ai"@
        &&& self.port == AI_BACKEND_PORT
        &&& self.readiness_attempts == 60
        &&& self.readiness_interval_ms == 500
        &&& self.health_interval_secs == 30
        &&& self.health_timeout_secs == 5
        &&& self.adoption_timeout_secs == 3
        &&& self.max_restart_attempts == 2
        &&& self.restart_delay_ms == 5000
        &&& self.shutdown_grace_ms == 1000
        &&& self.adoption_settle_ms == 0
    }

    /// The configuration of the backend engine.
    pub fn primary() -> (res: ServiceSpec)
        ensures
            res.is_primary_default(),
    {
        ServiceSpec {
            role: ServiceRole::Primary,
            name: String::from_str("Backend"),
            executable: String::from_str("kubilitics-backend"),
            port: BACKEND_PORT,
            readiness_attempts: 120,
            readiness_interval_ms: 500,
            health_interval_secs: 10,
            health_timeout_secs: 5,
            adoption_timeout_secs: 3,
            max_restart_attempts: 3,
            restart_delay_ms: 0,
            shutdown_grace_ms: 1500,
            adoption_settle_ms: 1500,
        }
    }

    /// The configuration of the AI service.
    pub fn secondary() -> (res: ServiceSpec)
        ensures
            res.is_secondary_default(),
    {
        ServiceSpec {
            role: ServiceRole::Secondary,
            name: String::from_str("AI backend"),
            executable: String::from_str("kubilitics-ai"),
            port: AI_BACKEND_PORT,
            readiness_attempts: 60,
            readiness_interval_ms: 500,
            health_interval_secs: 30,
            health_timeout_secs: 5,
            adoption_timeout_secs: 3,
            max_restart_attempts: 2,
            restart_delay_ms: 5000,
            shutdown_grace_ms: 1000,
            adoption_settle_ms: 0,
        }
    }
}

/// The mutable state of one service. `process_handle` holds the process that
/// the supervisor spawned and owns; an adopted process leaves it empty.
#[derive(Debug)]
pub struct ServiceState<H> {
    pub running: bool,
    /// True once the service has passed a readiness check; never cleared.
    pub ready: bool,
    /// How many failed health checks were counted; never decreases.
    pub restart_count: u32,
    pub process_handle: Option<H>,
}

impl<H> ServiceState<H> {
    /// The state of a service that was never started.
    pub open spec fn spec_new() -> Self {
        ServiceState { running: false, ready: false, restart_count: 0, process_handle: None }
    }

    /// The state of a service that was never started.
    pub fn new() -> (res: Self)
        ensures
            res == Self::spec_new(),
    {
        ServiceState { running: false, ready: false, restart_count: 0, process_handle: None }
    }

    /// Takes the process handle out of the state. Whoever calls this owns the
    /// process from now on; a second call finds nothing.
    pub fn take_handle(&mut self) -> (res: Option<H>)
        ensures
            res == old(self).process_handle,
            *final(self) == (ServiceState { process_handle: None, ..*old(self) }),
    {
        self.process_handle.take()
    }
}

} // verus!
