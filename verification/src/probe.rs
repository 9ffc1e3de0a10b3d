//! The payloads of the liveness and readiness probes.

use vstd::prelude::*;

verus! {

/// What a probe answers: a short status word and a sentence for people.
pub struct ProbePayload {
    pub status: String,
    pub message: String,
}

/// The status word of the readiness probe.
pub open spec fn readiness_status(ready: bool) -> Seq<char> {
    if ready {
        "ok"@
    } else {
        "not_ready"@
    }
}

/// The message of the readiness probe.
pub open spec fn readiness_message(ready: bool) -> Seq<char> {
    if ready {
        "Service is ready"@
    } else {
        "Service is not ready"@
    }
}

/// The fixed payload of the liveness probe.
pub fn liveness_payload() -> (p: ProbePayload)
    ensures
        p.status@ == "ok"@,
        p.message@ == "Service is alive"@,
{
    ProbePayload { status: "ok".to_string(), message: "Service is alive".to_string() }
}

/// The payload of the readiness probe for the outcome of the readiness
/// predicate.
pub fn readiness_payload(ready: bool) -> (p: ProbePayload)
    ensures
        p.status@ == readiness_status(ready),
        p.message@ == readiness_message(ready),
{
    if ready {
        ProbePayload { status: "ok".to_string(), message: "Service is ready".to_string() }
    } else {
        ProbePayload {
            status: "not_ready".to_string(),
            message: "Service is not ready".to_string(),
        }
    }
}

} // verus!
