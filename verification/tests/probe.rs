use kubilitics_desktop::json::string_member;
use kubilitics_desktop::launcher::{health_url, shutdown_url};
use kubilitics_desktop::probe::{
    check_health, health_outcome, is_port_in_use, judge_occupant, payload_service, port_occupancy,
    probe_failure, status_is_success, FailureReason, HealthOutcome, PortOccupancy, ProbeResult,
};

fn response(status: u16, body: &str) -> ProbeResult {
    ProbeResult::Response { status, body: Some(body.to_string()) }
}

#[test]
fn success_is_the_class_2xx() {
    for status in [200u16, 201, 204, 250, 299] {
        assert!(status_is_success(status));
    }
    for status in [0u16, 100, 199, 300, 301, 404, 500, 503, 65535] {
        assert!(!status_is_success(status));
    }
}

#[test]
fn health_outcomes() {
    assert_eq!(health_outcome(&response(200, "")), HealthOutcome::Healthy);
    assert_eq!(
        health_outcome(&ProbeResult::Response { status: 204, body: None }),
        HealthOutcome::Healthy
    );
    assert_eq!(
        health_outcome(&response(500, "{}")),
        HealthOutcome::Unhealthy { reason: FailureReason::Status { code: 500 } }
    );
    assert_eq!(
        health_outcome(&ProbeResult::Refused),
        HealthOutcome::Unhealthy { reason: FailureReason::Unreachable }
    );
    assert!(check_health(&response(200, "not json")));
    assert!(!check_health(&response(404, "{\"service\":\"kubilitics-backend\"}")));
    assert!(!check_health(&ProbeResult::Refused));
    assert!(!check_health(&ProbeResult::Unanswered));
    assert_eq!(
        health_outcome(&ProbeResult::Unanswered),
        HealthOutcome::Unhealthy { reason: FailureReason::Unreachable }
    );
}

#[test]
fn json_members() {
    assert_eq!(
        string_member("{\"service\":\"kubilitics-backend\"}", "service"),
        Some("kubilitics-backend".to_string())
    );
    assert_eq!(
        string_member("{\"a\":\"x\",\"service\":\"y\"}", "a"),
        Some("x".to_string())
    );
    assert_eq!(string_member("{\"service\":\"\\u00e9\\n\"}", "service"), Some("é\n".to_string()));
    assert_eq!(string_member("{\"service\":\"y\"}", "Service"), None);
    assert_eq!(string_member("{\"service\":1}", "service"), None);
    assert_eq!(string_member("{\"service\":null}", "service"), None);
    assert_eq!(string_member("{\"service\":{\"name\":\"y\"}}", "service"), None);
    assert_eq!(string_member("[\"service\"]", "service"), None);
    assert_eq!(string_member("\"service\"", "service"), None);
    assert_eq!(string_member("{\"service\":\"y\"", "service"), None);
    assert_eq!(string_member("", "service"), None);
    assert_eq!(string_member("service", "service"), None);
}

#[test]
fn payload_names_the_service() {
    assert_eq!(
        payload_service("{\"status\":\"ok\",\"service\":\"kubilitics-backend\"}"),
        Some("kubilitics-backend".to_string())
    );
    assert_eq!(payload_service("{\"status\":\"ok\"}"), None);
    assert_eq!(payload_service("kubilitics-backend"), None);
}

#[test]
fn occupants() {
    let ours = Some("kubilitics-backend".to_string());
    assert_eq!(judge_occupant(200, &ours, "kubilitics-backend"), PortOccupancy::Ours);
    assert_eq!(judge_occupant(299, &ours, "kubilitics-backend"), PortOccupancy::Ours);
    assert_eq!(judge_occupant(300, &ours, "kubilitics-backend"), PortOccupancy::Foreign);
    assert_eq!(judge_occupant(200, &ours, "kubilitics-ai"), PortOccupancy::Foreign);
    assert_eq!(judge_occupant(200, &None, "kubilitics-backend"), PortOccupancy::Foreign);
    assert_eq!(
        judge_occupant(200, &Some("".to_string()), "kubilitics-backend"),
        PortOccupancy::Foreign
    );
}

#[test]
fn port_occupancy_by_probe() {
    let expected = "kubilitics-backend";
    assert_eq!(port_occupancy(&ProbeResult::Refused, expected), PortOccupancy::Vacant);
    assert_eq!(port_occupancy(&ProbeResult::Unanswered, expected), PortOccupancy::Foreign);
    assert_eq!(
        port_occupancy(&response(200, "{\"service\":\"kubilitics-backend\"}"), expected),
        PortOccupancy::Ours
    );
    assert_eq!(
        port_occupancy(&response(200, "{\"service\":\"unrelated-app\"}"), expected),
        PortOccupancy::Foreign
    );
    assert_eq!(
        port_occupancy(&response(200, "<html>hello</html>"), expected),
        PortOccupancy::Foreign
    );
    assert_eq!(
        port_occupancy(&response(500, "{\"service\":\"kubilitics-backend\"}"), expected),
        PortOccupancy::Foreign
    );
    assert_eq!(
        port_occupancy(&ProbeResult::Response { status: 200, body: None }, expected),
        PortOccupancy::Foreign
    );
    assert!(is_port_in_use(&response(200, "{\"service\":\"kubilitics-backend\"}"), expected));
    assert!(!is_port_in_use(&response(200, "{\"service\":\"kubilitics-backend\"}"), "other"));
    assert!(!is_port_in_use(&ProbeResult::Refused, expected));
    assert!(!is_port_in_use(&ProbeResult::Unanswered, expected));
    assert!(!is_port_in_use(&response(200, "{}"), expected));
}

#[test]
fn endpoints() {
    assert_eq!(health_url(819), "http://localhost:819/health");
    assert_eq!(health_url(8081), "http://localhost:8081/health");
    assert_eq!(shutdown_url(819), "http://localhost:819/api/v1/shutdown");
    assert_eq!(shutdown_url(0), "http://localhost:0/api/v1/shutdown");
}

#[test]
fn failed_requests() {
    assert_eq!(probe_failure(true, false), ProbeResult::Refused);
    assert_eq!(probe_failure(true, true), ProbeResult::Unanswered);
    assert_eq!(probe_failure(false, true), ProbeResult::Unanswered);
    assert_eq!(probe_failure(false, false), ProbeResult::Unanswered);
}
