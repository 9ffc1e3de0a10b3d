//! Publishing to the meter's instruments: the attribute sets that tag each
//! measurement, and the counter updates of the request path and of the
//! service status collector.

use crate::collector::StatusReport;
use crate::request::{
    plan_recording, recording_for, RequestObservation, RequestRecording, SeriesKey, SeriesLabels,
};
use opentelemetry::metrics::{Counter, Meter};
use vstd::prelude::*;

verus! {

/// `opentelemetry::metrics::Meter`, the instrument factory; opaque here.
#[verifier::external_type_specification]
#[verifier::external_body]
pub struct ExMeter(opentelemetry::metrics::Meter);

/// `opentelemetry::metrics::Counter`, a handle to a counter; opaque here.
#[verifier::external_type_specification]
#[verifier::external_body]
#[verifier::reject_recursive_types(T)]
pub struct ExCounter<T>(opentelemetry::metrics::Counter<T>);

/// Name of the meter that owns every instrument of the service.
pub const METER_NAME: &'static str = "healthcheck-service";

/// Counter of handled requests.
pub const REQUESTS_COUNTER: &'static str = "api_requests_total";

/// Counter of requests that ended in an error status.
pub const ERRORS_COUNTER: &'static str = "api_errors_total";

/// Histogram of request durations, in seconds.
pub const DURATION_HISTOGRAM: &'static str = "api_request_duration_seconds";

/// Counter of completed service status cycles.
pub const UP_COUNTER: &'static str = "service.up";

/// Gauge of the readiness flag.
pub const READY_GAUGE: &'static str = "service.ready";

/// Gauge of CPU utilisation, as a fraction.
pub const CPU_GAUGE: &'static str = "system_cpu_usage";

/// Gauge of resident memory in use, in bytes.
pub const MEMORY_GAUGE: &'static str = "system_mem_used";

/// One key-value pair of an attribute set.
pub struct Attribute {
    pub key: String,
    pub value: String,
}

impl View for Attribute {
    type V = (Seq<char>, Seq<char>);

    open spec fn view(&self) -> (Seq<char>, Seq<char>) {
        (self.key@, self.value@)
    }
}

/// The views of a list of attributes, in order.
pub open spec fn pairs_of(attributes: Seq<Attribute>) -> Seq<(Seq<char>, Seq<char>)> {
    attributes.map_values(|a: Attribute| a@)
}

/// The character of a decimal digit.
pub open spec fn digit_char(d: nat) -> char {
    if d == 0 {
        '0'
    } else if d == 1 {
        '1'
    } else if d == 2 {
        '2'
    } else if d == 3 {
        '3'
    } else if d == 4 {
        '4'
    } else if d == 5 {
        '5'
    } else if d == 6 {
        '6'
    } else if d == 7 {
        '7'
    } else if d == 8 {
        '8'
    } else {
        '9'
    }
}

/// A number in decimal, without sign or leading zeros.
pub open spec fn decimal_text(n: nat) -> Seq<char>
    decreases n,
{
    if n < 10 {
        seq![digit_char(n)]
    } else {
        decimal_text(n / 10) + seq![digit_char(n % 10)]
    }
}

/// The attribute set of a request series: method, path and status, the
/// status in decimal.
pub open spec fn request_pairs(method: Seq<char>, path: Seq<char>, status: u16) -> Seq<
    (Seq<char>, Seq<char>),
> {
    seq![("method"@, method), ("path"@, path), ("status"@, decimal_text(status as nat))]
}

/// The attribute set of the "up" counter.
pub open spec fn up_pairs() -> Seq<(Seq<char>, Seq<char>)> {
    seq![("status"@, "alive"@)]
}

/// The attribute set of the readiness gauge.
pub open spec fn ready_pairs() -> Seq<(Seq<char>, Seq<char>)> {
    seq![("status"@, "ready"@)]
}

proof fn lemma_decimal_text_nonempty(n: nat)
    ensures
        decimal_text(n).len() >= 1,
    decreases n,
{
    if n >= 10 {
        lemma_decimal_text_nonempty(n / 10);
    }
}

proof fn lemma_digit_char_injective(a: nat, b: nat)
    requires
        a < 10,
        b < 10,
        digit_char(a) == digit_char(b),
    ensures
        a == b,
{
}

proof fn lemma_decimal_text_injective(n: nat, m: nat)
    requires
        decimal_text(n) == decimal_text(m),
    ensures
        n == m,
    decreases n,
{
    lemma_decimal_text_nonempty(n / 10);
    lemma_decimal_text_nonempty(m / 10);
    if n < 10 && m < 10 {
        assert(seq![digit_char(n)][0] == digit_char(n));
        assert(seq![digit_char(m)][0] == digit_char(m));
        lemma_digit_char_injective(n, m);
    } else if n >= 10 && m >= 10 {
        let a = decimal_text(n / 10);
        let b = decimal_text(m / 10);
        let dn = seq![digit_char(n % 10)];
        let dm = seq![digit_char(m % 10)];
        assert((a + dn).drop_last() =~= a);
        assert((b + dm).drop_last() =~= b);
        assert((a + dn).last() == digit_char(n % 10));
        assert((b + dm).last() == digit_char(m % 10));
        lemma_decimal_text_injective(n / 10, m / 10);
        lemma_digit_char_injective(n % 10, m % 10);
    } else {
        assert(decimal_text(n).len() != decimal_text(m).len());
    }
}

/// Series identity: two label tuples give the same attribute set exactly
/// when they are the same tuple, so measurements of one tuple never spread
/// over several series and those of different tuples never share one.
pub proof fn law_attributes_determine_series(a: SeriesKey, b: SeriesKey)
    ensures
        request_pairs(a.method, a.path, a.status) == request_pairs(b.method, b.path, b.status)
            <==> a == b,
{
    let pa = request_pairs(a.method, a.path, a.status);
    let pb = request_pairs(b.method, b.path, b.status);
    if pa == pb {
        assert(pa[0].1 == pb[0].1);
        assert(pa[1].1 == pb[1].1);
        assert(pa[2].1 == pb[2].1);
        lemma_decimal_text_injective(a.status as nat, b.status as nat);
    }
}

fn digit_str(d: u16) -> (s: &'static str)
    requires
        d < 10,
    ensures
        s@ == seq![digit_char(d as nat)],
{
    proof {
        reveal_strlit("0");
        reveal_strlit("1");
        reveal_strlit("2");
        reveal_strlit("3");
        reveal_strlit("4");
        reveal_strlit("5");
        reveal_strlit("6");
        reveal_strlit("7");
        reveal_strlit("8");
        reveal_strlit("9");
    }
    let s = if d == 0 {
        "0"
    } else if d == 1 {
        "1"
    } else if d == 2 {
        "2"
    } else if d == 3 {
        "3"
    } else if d == 4 {
        "4"
    } else if d == 5 {
        "5"
    } else if d == 6 {
        "6"
    } else if d == 7 {
        "7"
    } else if d == 8 {
        "8"
    } else {
        "9"
    };
    assert(s@ =~= seq![digit_char(d as nat)]);
    s
}

/// Writes a status code in decimal, as the `status` attribute carries it.
pub fn status_text(status: u16) -> (s: String)
    ensures
        s@ == decimal_text(status as nat),
    decreases status,
{
    if status < 10 {
        digit_str(status).to_string()
    } else {
        let mut s = status_text(status / 10);
        s.append(digit_str(status % 10));
        s
    }
}

/// Builds the attribute set that tags every measurement of a request.
pub fn request_attributes(labels: &SeriesLabels) -> (attributes: Vec<Attribute>)
    ensures
        pairs_of(attributes@) == request_pairs(labels.method@, labels.path@, labels.status),
{
    let mut attributes: Vec<Attribute> = Vec::new();
    attributes.push(Attribute { key: "method".to_string(), value: labels.method.clone() });
    attributes.push(Attribute { key: "path".to_string(), value: labels.path.clone() });
    attributes.push(Attribute { key: "status".to_string(), value: status_text(labels.status) });
    assert(pairs_of(attributes@) =~= request_pairs(labels.method@, labels.path@, labels.status));
    attributes
}

/// Builds the attribute set that tags the "up" counter.
pub fn up_attributes() -> (attributes: Vec<Attribute>)
    ensures
        pairs_of(attributes@) == up_pairs(),
{
    let mut attributes: Vec<Attribute> = Vec::new();
    attributes.push(Attribute { key: "status".to_string(), value: "alive".to_string() });
    assert(pairs_of(attributes@) =~= up_pairs());
    attributes
}

/// Builds the attribute set that tags the readiness gauge.
pub fn ready_attributes() -> (attributes: Vec<Attribute>)
    ensures
        pairs_of(attributes@) == ready_pairs(),
{
    let mut attributes: Vec<Attribute> = Vec::new();
    attributes.push(Attribute { key: "status".to_string(), value: "ready".to_string() });
    assert(pairs_of(attributes@) =~= ready_pairs());
    attributes
}

/// `Meter::u64_counter` and the builder's `build`: a handle to the counter
/// of that name. Nothing is claimed of the handle.
#[verifier::external_body]
fn u64_counter(meter: &Meter, name: &str) -> (counter: Counter<u64>) {
    meter.u64_counter(name.to_string()).build()
}

/// `Counter::add`, with each attribute turned into a `KeyValue`. The
/// counter's state lies behind a shared handle, so nothing is claimed here.
#[verifier::external_body]
fn counter_add(counter: &Counter<u64>, value: u64, attributes: &Vec<Attribute>) {
    let pairs: Vec<opentelemetry::KeyValue> = attributes.iter().map(
        |a| opentelemetry::KeyValue::new(a.key.clone(), a.value.clone()),
    ).collect();
    counter.add(value, &pairs);
}

/// Publishes the counters of one handled request: the request counter once,
/// and the error counter once where the status is an error status, both under
/// the attributes of `request_attributes`. Returns what was planned, so that
/// the caller records the duration under the same labels.
pub fn record_request(meter: &Meter, obs: &RequestObservation) -> (recording: RequestRecording)
    ensures
        recording@ == recording_for(obs@),
{
    let recording = plan_recording(obs);
    let attributes = request_attributes(&recording.labels);
    let requests = u64_counter(meter, REQUESTS_COUNTER);
    let errors = u64_counter(meter, ERRORS_COUNTER);
    counter_add(&requests, recording.request_increment, &attributes);
    if recording.error_increment > 0 {
        counter_add(&errors, recording.error_increment, &attributes);
    }
    recording
}

/// Publishes the "up" count of one cycle of the service status collector,
/// under the attributes of `up_attributes`.
pub fn record_up(meter: &Meter, report: &StatusReport) {
    let attributes = up_attributes();
    let up = u64_counter(meter, UP_COUNTER);
    counter_add(&up, report.up_increment, &attributes);
}

} // verus!
