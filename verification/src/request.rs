//! Request tracking: the measurements published for one handled request, and
//! what a history of handled requests adds up to in each series.

use vstd::prelude::*;
use vstd::seq_lib::{to_multiset_contains, to_multiset_len, to_multiset_remove};

verus! {

/// Lowest status code that denotes a client or server error.
pub const ERROR_STATUS_FLOOR: u16 = 400;

/// What the interceptor saw of one request once its handler had returned.
pub struct RequestObservation {
    pub method: String,
    pub path: String,
    pub status: u16,
    /// Time spent in the downstream handler.
    pub elapsed_nanos: u64,
}

/// The attribute set `{method, path, status}` that selects one series.
pub struct SeriesLabels {
    pub method: String,
    pub path: String,
    pub status: u16,
}

/// The measurements to publish for one request, all tagged by `labels`.
pub struct RequestRecording {
    pub labels: SeriesLabels,
    /// Added to the request counter.
    pub request_increment: u64,
    /// Recorded in the duration histogram.
    pub duration_nanos: u64,
    /// Added to the error counter; zero leaves the counter untouched.
    pub error_increment: u64,
}

pub ghost struct ObservationView {
    pub method: Seq<char>,
    pub path: Seq<char>,
    pub status: u16,
    pub elapsed_nanos: u64,
}

pub ghost struct SeriesKey {
    pub method: Seq<char>,
    pub path: Seq<char>,
    pub status: u16,
}

pub ghost struct RecordingView {
    pub key: SeriesKey,
    pub request_increment: u64,
    pub duration_nanos: u64,
    pub error_increment: u64,
}

impl View for RequestObservation {
    type V = ObservationView;

    open spec fn view(&self) -> ObservationView {
        ObservationView {
            method: self.method@,
            path: self.path@,
            status: self.status,
            elapsed_nanos: self.elapsed_nanos,
        }
    }
}

impl View for SeriesLabels {
    type V = SeriesKey;

    open spec fn view(&self) -> SeriesKey {
        SeriesKey { method: self.method@, path: self.path@, status: self.status }
    }
}

impl View for RequestRecording {
    type V = RecordingView;

    open spec fn view(&self) -> RecordingView {
        RecordingView {
            key: self.labels@,
            request_increment: self.request_increment,
            duration_nanos: self.duration_nanos,
            error_increment: self.error_increment,
        }
    }
}

/// Whether a response status counts as an error.
pub open spec fn spec_is_error_status(status: u16) -> bool {
    status >= ERROR_STATUS_FLOOR
}

/// The series that an observation belongs to.
pub open spec fn series_of(o: ObservationView) -> SeriesKey {
    SeriesKey { method: o.method, path: o.path, status: o.status }
}

/// The measurements that one observation calls for: one request, its
/// duration, and one error exactly when the status is an error status.
pub open spec fn recording_for(o: ObservationView) -> RecordingView {
    RecordingView {
        key: series_of(o),
        request_increment: 1,
        duration_nanos: o.elapsed_nanos,
        error_increment: if spec_is_error_status(o.status) { 1 } else { 0 },
    }
}

/// A measured time in nanoseconds as the observation holds it: itself where
/// it fits, the largest value that fits where it does not.
pub open spec fn clamped_nanos(nanos: u128) -> u64 {
    if nanos > u64::MAX {
        u64::MAX
    } else {
        nanos as u64
    }
}

/// Brings a measured time in nanoseconds into the observation's range.
pub fn clamp_nanos(nanos: u128) -> (r: u64)
    ensures
        r == clamped_nanos(nanos),
{
    if nanos > u64::MAX as u128 {
        u64::MAX
    } else {
        nanos as u64
    }
}

/// Tells whether a response status denotes a client or server error.
pub fn is_error_status(status: u16) -> (r: bool)
    ensures
        r == spec_is_error_status(status),
{
    status >= ERROR_STATUS_FLOOR
}

/// Decides what to publish for one handled request.
pub fn plan_recording(obs: &RequestObservation) -> (r: RequestRecording)
    ensures
        r@ == recording_for(obs@),
{
    let error_increment: u64 = if is_error_status(obs.status) { 1 } else { 0 };
    RequestRecording {
        labels: SeriesLabels {
            method: obs.method.clone(),
            path: obs.path.clone(),
            status: obs.status,
        },
        request_increment: 1,
        duration_nanos: obs.elapsed_nanos,
        error_increment,
    }
}

/// One of the accumulators that a series has.
pub enum Instrument {
    /// The request counter.
    Requests,
    /// The error counter.
    Errors,
    /// The cumulative histogram bucket of durations up to the given bound.
    DurationsWithin(u64),
}

/// What one observation adds to an accumulator of the series `key`.
pub open spec fn contribution(o: ObservationView, key: SeriesKey, instrument: Instrument) -> nat {
    let rec = recording_for(o);
    if rec.key != key {
        0
    } else {
        match instrument {
            Instrument::Requests => rec.request_increment as nat,
            Instrument::Errors => rec.error_increment as nat,
            Instrument::DurationsWithin(bound) => if rec.duration_nanos <= bound {
                1
            } else {
                0
            },
        }
    }
}

/// The value of an accumulator of the series `key` once every observation of
/// `history` has been recorded, in any order of arrival.
pub open spec fn recorded(history: Seq<ObservationView>, key: SeriesKey, instrument: Instrument) -> nat
    decreases history.len(),
{
    if history.len() == 0 {
        0
    } else {
        recorded(history.drop_last(), key, instrument) + contribution(
            history.last(),
            key,
            instrument,
        )
    }
}

/// The sum of an accumulator over the series named by `keys`.
pub open spec fn recorded_over(
    history: Seq<ObservationView>,
    keys: Seq<SeriesKey>,
    instrument: Instrument,
) -> nat
    decreases keys.len(),
{
    if keys.len() == 0 {
        0
    } else {
        recorded_over(history, keys.drop_last(), instrument) + recorded(
            history,
            keys.last(),
            instrument,
        )
    }
}

/// Recording one more observation adds its contribution and nothing else.
pub proof fn lemma_recorded_push(
    history: Seq<ObservationView>,
    o: ObservationView,
    key: SeriesKey,
    instrument: Instrument,
)
    ensures
        recorded(history.push(o), key, instrument) == recorded(history, key, instrument)
            + contribution(o, key, instrument),
{
    assert(history.push(o).drop_last() =~= history);
}

proof fn lemma_recorded_over_push(
    history: Seq<ObservationView>,
    o: ObservationView,
    keys: Seq<SeriesKey>,
)
    requires
        keys.no_duplicates(),
    ensures
        recorded_over(history.push(o), keys, Instrument::Requests) == recorded_over(
            history,
            keys,
            Instrument::Requests,
        ) + (if keys.contains(series_of(o)) {
            1nat
        } else {
            0nat
        }),
    decreases keys.len(),
{
    if keys.len() > 0 {
        let front = keys.drop_last();
        let k = keys.last();
        assert(front.no_duplicates());
        lemma_recorded_over_push(history, o, front);
        lemma_recorded_push(history, o, k, Instrument::Requests);
        if k == series_of(o) {
            if front.contains(k) {
                let j = choose|j: int| 0 <= j < front.len() && front[j] == k;
                assert(keys[j] == keys[keys.len() - 1]);
            }
            assert(keys.contains(k));
        } else {
            if keys.contains(series_of(o)) {
                let j = choose|j: int| 0 <= j < keys.len() && keys[j] == series_of(o);
                assert(front[j] == series_of(o));
            }
            if front.contains(series_of(o)) {
                let j = choose|j: int| 0 <= j < front.len() && front[j] == series_of(o);
                assert(keys[j] == series_of(o));
            }
        }
    }
}

/// Counting: whatever `(method, path, status)` tuples a history of requests
/// had, the request counters of the distinct series that cover the history sum
/// to the number of requests.
pub proof fn law_requests_sum_to_history_length(
    history: Seq<ObservationView>,
    keys: Seq<SeriesKey>,
)
    requires
        keys.no_duplicates(),
        forall|i: int| 0 <= i < history.len() ==> keys.contains(#[trigger] series_of(history[i])),
    ensures
        recorded_over(history, keys, Instrument::Requests) == history.len(),
    decreases history.len(),
{
    if history.len() == 0 {
        assert(history =~= Seq::<ObservationView>::empty());
        lemma_nothing_recorded(keys);
    } else {
        let earlier = history.drop_last();
        let o = history.last();
        assert forall|i: int| 0 <= i < earlier.len() implies keys.contains(
            #[trigger] series_of(earlier[i]),
        ) by {
            assert(earlier[i] == history[i]);
        }
        law_requests_sum_to_history_length(earlier, keys);
        lemma_recorded_over_push(earlier, o, keys);
        assert(earlier.push(o) =~= history);
        assert(keys.contains(series_of(history[history.len() - 1])));
        assert(o == history[history.len() - 1]);
    }
}

proof fn lemma_nothing_recorded(keys: Seq<SeriesKey>)
    ensures
        recorded_over(Seq::<ObservationView>::empty(), keys, Instrument::Requests) == 0,
    decreases keys.len(),
{
    if keys.len() > 0 {
        lemma_nothing_recorded(keys.drop_last());
    }
}

/// Counting, within one series: the request counter of a series that no
/// request of the history belongs to is zero, so no request is counted
/// outside the series of its own tuple.
pub proof fn law_requests_only_in_own_series(history: Seq<ObservationView>, key: SeriesKey)
    requires
        forall|i: int| 0 <= i < history.len() ==> #[trigger] series_of(history[i]) != key,
    ensures
        recorded(history, key, Instrument::Requests) == 0,
    decreases history.len(),
{
    if history.len() > 0 {
        let earlier = history.drop_last();
        assert forall|i: int| 0 <= i < earlier.len() implies #[trigger] series_of(earlier[i])
            != key by {
            assert(earlier[i] == history[i]);
        }
        law_requests_only_in_own_series(earlier, key);
        assert(series_of(history[history.len() - 1]) != key);
    }
}

/// Monotonicity: no counter and no histogram bucket of any series is lower
/// after further recordings than it was before them.
pub proof fn law_recorded_never_decreases(
    earlier: Seq<ObservationView>,
    later: Seq<ObservationView>,
    key: SeriesKey,
    instrument: Instrument,
)
    requires
        earlier.is_prefix_of(later),
    ensures
        recorded(earlier, key, instrument) <= recorded(later, key, instrument),
    decreases later.len(),
{
    if earlier.len() == later.len() {
        assert(earlier =~= later);
    } else {
        assert(earlier.is_prefix_of(later.drop_last()));
        law_recorded_never_decreases(earlier, later.drop_last(), key, instrument);
    }
}

proof fn lemma_recorded_remove(
    history: Seq<ObservationView>,
    j: int,
    key: SeriesKey,
    instrument: Instrument,
)
    requires
        0 <= j < history.len(),
    ensures
        recorded(history, key, instrument) == recorded(history.remove(j), key, instrument)
            + contribution(history[j], key, instrument),
    decreases history.len(),
{
    if j == history.len() - 1 {
        assert(history.remove(j) =~= history.drop_last());
    } else {
        lemma_recorded_remove(history.drop_last(), j, key, instrument);
        assert(history.remove(j).drop_last() =~= history.drop_last().remove(j));
        assert(history.remove(j).last() == history.last());
    }
}

/// Concurrent recording: two histories that hold the same observations, in
/// whatever order they arrived, leave every accumulator with the same value.
pub proof fn law_order_of_arrival_is_irrelevant(
    a: Seq<ObservationView>,
    b: Seq<ObservationView>,
    key: SeriesKey,
    instrument: Instrument,
)
    requires
        a.to_multiset() == b.to_multiset(),
    ensures
        recorded(a, key, instrument) == recorded(b, key, instrument),
    decreases a.len(),
{
    to_multiset_len(a);
    to_multiset_len(b);
    if a.len() > 0 {
        let last = a.len() - 1;
        let x = a[last];
        assert(a.contains(x));
        to_multiset_contains(a, x);
        to_multiset_contains(b, x);
        let j = choose|j: int| 0 <= j < b.len() && b[j] == x;
        to_multiset_remove(a, last);
        to_multiset_remove(b, j);
        assert(a.remove(last) =~= a.drop_last());
        law_order_of_arrival_is_irrelevant(a.drop_last(), b.remove(j), key, instrument);
        lemma_recorded_remove(b, j, key, instrument);
    }
}

/// Error correlation: recording a request raises the error counter of a
/// series, by one, exactly when the request belongs to that series and its
/// status is an error status; otherwise the counter keeps its value.
pub proof fn law_error_counted_iff_error_status(
    history: Seq<ObservationView>,
    o: ObservationView,
    key: SeriesKey,
)
    ensures
        recorded(history.push(o), key, Instrument::Errors) == recorded(
            history,
            key,
            Instrument::Errors,
        ) + (if series_of(o) == key && o.status >= 400 {
            1nat
        } else {
            0nat
        }),
{
    lemma_recorded_push(history, o, key, Instrument::Errors);
}

} // verus!
