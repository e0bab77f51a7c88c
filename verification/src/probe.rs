//! Health probes and what they say about a port.
//!
//! The shell sends `GET http://localhost:<port>/health` and reports what came
//! back as a [`ProbeResult`]. This module judges that result: whether the
//! service is healthy, and whether a port that answers is held by the expected
//! service, by a stranger, or by nobody.

use vstd::prelude::*;
use crate::json::{spec_string_member, string_member};
use crate::text::str_eq;

verus! {

/// What one timeout-bounded request to a health endpoint brought back.
#[derive(Debug, PartialEq, Eq)]
pub enum ProbeResult {
    /// Nothing listens on the port: the connection was refused.
    Refused,
    /// The connection was not refused and yet no answer came: the timeout ran
    /// out or the exchange broke off.
    Unanswered,
    /// An HTTP response arrived. `body` is `None` where it could not be read.
    Response { status: u16, body: Option<String> },
}

/// Why a probe counts as a failure. Both reasons weigh the same in restart accounting.
#[derive(Debug, Clone, Copy, PartialEq, Eq)]
pub enum FailureReason {
    /// Network failure or timeout.
    Unreachable,
    /// A response with a status outside 2xx.
    Status { code: u16 },
}

/// The verdict of one health probe.
#[derive(Debug, Clone, Copy, PartialEq, Eq)]
pub enum HealthOutcome {
    Healthy,
    Unhealthy { reason: FailureReason },
}

/// Who holds a port, as far as one probe can tell.
#[derive(Debug, Clone, Copy, PartialEq, Eq)]
pub enum PortOccupancy {
    /// Nothing listens on the port.
    Vacant,
    /// A healthy process answered and named itself as the expected service.
    Ours,
    /// Something holds the port that is unhealthy or is not the expected service.
    Foreign,
}

/// What a probe that brought no answer stands for: a connection that was
/// refused shows that nothing listens; where the attempt timed out or broke
/// off otherwise, something may hold the port.
pub open spec fn spec_probe_failure(connect_error: bool, timed_out: bool) -> ProbeResult {
    if connect_error && !timed_out {
        ProbeResult::Refused
    } else {
        ProbeResult::Unanswered
    }
}

/// Judges a request that failed. `connect_error` says that the connection
/// could not be made, `timed_out` that the time ran out. Only a connection
/// that failed at once counts as refused.
pub fn probe_failure(connect_error: bool, timed_out: bool) -> (res: ProbeResult)
    ensures
        res == spec_probe_failure(connect_error, timed_out),
{
    if connect_error && !timed_out {
        ProbeResult::Refused
    } else {
        ProbeResult::Unanswered
    }
}

/// The member of a health payload that names the service.
pub open spec fn service_key() -> Seq<char> {
    "service"@
}

/// A status code of the class 2xx.
pub open spec fn is_success_status(status: u16) -> bool {
    200 <= status <= 299
}

/// Whether `status` is of the class 2xx.
pub fn status_is_success(status: u16) -> (res: bool)
    ensures
        res == is_success_status(status),
{
    200 <= status && status <= 299
}

/// The verdict that a probe result stands for.
pub open spec fn spec_health_outcome(probe: ProbeResult) -> HealthOutcome {
    match probe {
        ProbeResult::Refused => HealthOutcome::Unhealthy { reason: FailureReason::Unreachable },
        ProbeResult::Unanswered => HealthOutcome::Unhealthy {
            reason: FailureReason::Unreachable,
        },
        ProbeResult::Response { status, body } => if is_success_status(status) {
            HealthOutcome::Healthy
        } else {
            HealthOutcome::Unhealthy { reason: FailureReason::Status { code: status } }
        },
    }
}

/// Judges one probe: healthy on a 2xx response, whatever the payload.
pub fn health_outcome(probe: &ProbeResult) -> (res: HealthOutcome)
    ensures
        res == spec_health_outcome(*probe),
{
    match probe {
        ProbeResult::Refused => HealthOutcome::Unhealthy { reason: FailureReason::Unreachable },
        ProbeResult::Unanswered => HealthOutcome::Unhealthy {
            reason: FailureReason::Unreachable,
        },
        ProbeResult::Response { status, body } => if status_is_success(*status) {
            HealthOutcome::Healthy
        } else {
            HealthOutcome::Unhealthy { reason: FailureReason::Status { code: *status } }
        },
    }
}

/// Whether a probe found the service healthy.
pub fn check_health(probe: &ProbeResult) -> (res: bool)
    ensures
        res == (spec_health_outcome(*probe) is Healthy),
{
    match health_outcome(probe) {
        HealthOutcome::Healthy => true,
        HealthOutcome::Unhealthy { .. } => false,
    }
}

/// The service that a health payload names: the string member `service` of the JSON document.
pub open spec fn spec_payload_service(body: Seq<char>) -> Option<Seq<char>> {
    spec_string_member(body, service_key())
}

/// Reads the name of the service out of a health payload.
pub fn payload_service(body: &str) -> (res: Option<String>)
    ensures
        res is Some <==> spec_payload_service(body@) is Some,
        res matches Some(s) ==> spec_payload_service(body@) == Some(s@),
{
    string_member(body, "service")
}

/// Who holds the port, given whether anything answered, the status of the
/// answer and the service that its payload names.
pub open spec fn spec_judge_occupant(
    status: u16,
    service: Option<Seq<char>>,
    expected: Seq<char>,
) -> PortOccupancy {
    if is_success_status(status) && service == Some(expected) {
        PortOccupancy::Ours
    } else {
        PortOccupancy::Foreign
    }
}

/// Judges an occupant that answered with `status` and named itself `service`:
/// ours on a 2xx answer whose name is exactly `expected`, foreign otherwise.
pub fn judge_occupant(status: u16, service: &Option<String>, expected: &str) -> (res: PortOccupancy)
    ensures
        res == spec_judge_occupant(
            status,
            match *service {
                Some(s) => Some(s@),
                None => None,
            },
            expected@,
        ),
{
    if !status_is_success(status) {
        return PortOccupancy::Foreign;
    }
    match service {
        Some(name) => if str_eq(name.as_str(), expected) {
            PortOccupancy::Ours
        } else {
            PortOccupancy::Foreign
        },
        None => PortOccupancy::Foreign,
    }
}

/// Who holds the port that `probe` was sent to, for a service that names itself `expected`.
pub open spec fn spec_port_occupancy(probe: ProbeResult, expected: Seq<char>) -> PortOccupancy {
    match probe {
        ProbeResult::Refused => PortOccupancy::Vacant,
        ProbeResult::Unanswered => PortOccupancy::Foreign,
        ProbeResult::Response { status, body } => spec_judge_occupant(
            status,
            match body {
                Some(text) => spec_payload_service(text@),
                None => None,
            },
            expected,
        ),
    }
}

/// Whether a probe found a healthy process that names itself `expected`.
pub open spec fn identifies(probe: ProbeResult, expected: Seq<char>) -> bool {
    probe matches ProbeResult::Response { status, body: Some(text) } && is_success_status(status)
        && spec_payload_service(text@) == Some(expected)
}

/// A port counts as held by the expected service on an exact match only: a
/// 2xx answer whose payload names exactly that service. A refused connection
/// shows the port vacant. Whatever else comes back, be it another answer or
/// none in time, is a stranger's.
pub proof fn lemma_occupancy(probe: ProbeResult, expected: Seq<char>)
    ensures
        spec_port_occupancy(probe, expected) is Ours <==> identifies(probe, expected),
        spec_port_occupancy(probe, expected) is Vacant <==> probe is Refused,
        spec_port_occupancy(probe, expected) is Foreign <==> !(probe is Refused) && !identifies(
            probe,
            expected,
        ),
{
}

/// Decides from one probe whether the port is free, held by the expected
/// service, or held by a stranger. Only a 2xx answer whose payload names
/// exactly `expected` counts as ours; a refused connection leaves the port
/// vacant; an occupant that does not answer, answers unhealthy or unreadable,
/// or names anything else is foreign.
pub fn port_occupancy(probe: &ProbeResult, expected: &str) -> (res: PortOccupancy)
    ensures
        res == spec_port_occupancy(*probe, expected@),
{
    match probe {
        ProbeResult::Refused => PortOccupancy::Vacant,
        ProbeResult::Unanswered => PortOccupancy::Foreign,
        ProbeResult::Response { status, body } => {
            let service = match body {
                Some(text) => payload_service(text.as_str()),
                None => None,
            };
            judge_occupant(*status, &service, expected)
        },
    }
}

/// Whether the port is already served by the expected service, so that it can
/// be adopted instead of spawning a second instance.
pub fn is_port_in_use(probe: &ProbeResult, expected: &str) -> (res: bool)
    ensures
        res == (spec_port_occupancy(*probe, expected@) is Ours),
{
    match port_occupancy(probe, expected) {
        PortOccupancy::Ours => true,
        _ => false,
    }
}

} // verus!
