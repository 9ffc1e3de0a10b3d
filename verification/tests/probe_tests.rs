use healthcheck_metrics::probe::{liveness_payload, readiness_payload};

#[test]
fn liveness_payload_is_fixed() {
    let p = liveness_payload();
    assert_eq!(p.status, "ok");
    assert_eq!(p.message, "Service is alive");
}

#[test]
fn readiness_payload_follows_the_flag() {
    let ready = readiness_payload(true);
    assert_eq!(ready.status, "ok");
    assert_eq!(ready.message, "Service is ready");
    let not_ready = readiness_payload(false);
    assert_eq!(not_ready.status, "not_ready");
    assert_eq!(not_ready.message, "Service is not ready");
}
