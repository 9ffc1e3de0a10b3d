//! The exposition endpoint: a snapshot of the shared registry, serialised to
//! the text exposition format and answered with status 200 whatever happens.

use prometheus::proto::MetricFamily;
use prometheus::Registry;
use vstd::prelude::*;
use vstd::utf8::{decode_utf8, valid_utf8};

verus! {

/// `prometheus::Registry`, the shared registry; opaque here.
#[verifier::external_type_specification]
#[verifier::external_body]
pub struct ExRegistry(prometheus::Registry);

/// `prometheus::proto::MetricFamily`, one family of a snapshot; opaque here.
#[verifier::external_type_specification]
#[verifier::external_body]
pub struct ExMetricFamily(prometheus::proto::MetricFamily);

/// `prometheus::Error`, the encoder's error; opaque here.
#[verifier::external_type_specification]
#[verifier::external_body]
pub struct ExEncodeError(prometheus::Error);

/// Status of every scrape response.
pub const SCRAPE_STATUS: u16 = 200;

/// The bytes that the text encoder writes for a list of metric families, or
/// `None` where it rejects the list.
pub uninterp spec fn text_exposition(families: Seq<MetricFamily>) -> Option<Seq<u8>>;

/// Whether a family is of the untyped kind, which the text format has no
/// rendering for.
pub uninterp spec fn is_untyped(family: MetricFamily) -> bool;

/// Whether the text encoder can be run on a list of families.
pub open spec fn encodable(families: Seq<MetricFamily>) -> bool {
    forall|i: int| 0 <= i < families.len() ==> !is_untyped(#[trigger] families[i])
}

/// The outcome of serialising a snapshot: a list with an untyped family is a
/// failure, every other list is left to the encoder.
pub open spec fn exposition_of(families: Seq<MetricFamily>) -> Option<Seq<u8>> {
    if encodable(families) {
        text_exposition(families)
    } else {
        None
    }
}

/// The body that stands in for a document that could not be serialised.
pub open spec fn fallback_body() -> Seq<char> {
    "Error encoding metrics"@
}

/// The response body for an encoder outcome: the encoded document as text,
/// or the fallback where encoding failed or did not give valid UTF-8.
pub open spec fn body_of(encoded: Option<Seq<u8>>) -> Seq<char> {
    match encoded {
        Some(bytes) => if valid_utf8(bytes) {
            decode_utf8(bytes)
        } else {
            fallback_body()
        },
        None => fallback_body(),
    }
}

/// What the exposition endpoint answers to one scrape.
pub struct ScrapeResponse {
    pub status: u16,
    pub body: String,
    /// Number of metric families in the snapshot.
    pub family_count: usize,
    /// Whether to log, at warning level, that the registry held no metrics.
    pub warn_empty: bool,
}

/// `prometheus::Registry::gather`: the registry's current metric families.
/// Nothing is claimed of them: they are whatever the registered collectors
/// report at the moment of the call.
#[verifier::external_body]
fn snapshot(registry: &Registry) -> (families: Vec<MetricFamily>) {
    registry.gather()
}

/// `MetricFamily::get_field_type`, compared with `MetricType::UNTYPED`.
#[verifier::external_body]
fn family_is_untyped(family: &MetricFamily) -> (r: bool)
    ensures
        r == is_untyped(*family),
{
    match family.get_field_type() {
        prometheus::proto::MetricType::UNTYPED => true,
        _ => false,
    }
}

/// `prometheus::Encoder::encode` of `prometheus::TextEncoder`, into a fresh
/// buffer. The encoder aborts on an untyped family, so none may be handed to
/// it. The bytes written depend on the families alone and are named
/// `text_exposition`; an empty list is accepted and writes nothing.
#[verifier::external_body]
fn encode_text(families: &Vec<MetricFamily>) -> (r: Result<Vec<u8>, prometheus::Error>)
    requires
        encodable(families@),
    ensures
        match r {
            Ok(bytes) => text_exposition(families@) == Some(bytes@),
            Err(_) => text_exposition(families@) is None,
        },
        families@.len() == 0 ==> r is Ok && r->Ok_0@.len() == 0,
{
    let mut buffer = Vec::new();
    match prometheus::Encoder::encode(&prometheus::TextEncoder::new(), families, &mut buffer) {
        Ok(()) => Ok(buffer),
        Err(e) => Err(e),
    }
}

/// `String::from_utf8`: succeeds exactly on valid UTF-8, with the text that
/// the bytes encode.
#[verifier::external_body]
fn text_from_utf8(bytes: Vec<u8>) -> (r: Option<String>)
    ensures
        r is Some <==> valid_utf8(bytes@),
        r is Some ==> r->Some_0@ == decode_utf8(bytes@),
{
    match String::from_utf8(bytes) {
        Ok(text) => Some(text),
        Err(_) => None,
    }
}

/// Turns an encoder outcome into the response body. A failed encoding and
/// bytes that are no valid UTF-8 both degrade to the fallback body.
pub fn scrape_body(encoded: Option<Vec<u8>>) -> (body: String)
    ensures
        body@ == body_of(
            match encoded {
                Some(bytes) => Some(bytes@),
                None => None,
            },
        ),
{
    match encoded {
        Some(bytes) => {
            match text_from_utf8(bytes) {
                Some(text) => text,
                None => "Error encoding metrics".to_string(),
            }
        },
        None => "Error encoding metrics".to_string(),
    }
}

/// Tells whether no family of a snapshot is untyped.
pub fn all_typed(families: &Vec<MetricFamily>) -> (r: bool)
    ensures
        r == encodable(families@),
{
    let mut i: usize = 0;
    while i < families.len()
        invariant
            i <= families@.len(),
            forall|j: int| 0 <= j < i ==> !is_untyped(#[trigger] families@[j]),
        decreases families@.len() - i,
    {
        if family_is_untyped(&families[i]) {
            return false;
        }
        i = i + 1;
    }
    true
}

/// Serialises a snapshot into the scrape response. The exchange never fails:
/// the status is 200 for every snapshot, a snapshot that cannot be
/// serialised gives the fallback body, and an empty snapshot gives an empty
/// body and asks for the warning.
pub fn render_families(families: &Vec<MetricFamily>) -> (r: ScrapeResponse)
    ensures
        r.status == SCRAPE_STATUS,
        r.body@ == body_of(exposition_of(families@)),
        r.family_count == families@.len(),
        r.warn_empty == (families@.len() == 0),
        families@.len() == 0 ==> r.body@.len() == 0,
{
    let family_count: usize = families.len();
    let encoded: Option<Vec<u8>> = if all_typed(families) {
        match encode_text(families) {
            Ok(bytes) => Some(bytes),
            Err(_) => None,
        }
    } else {
        None
    };
    proof {
        if families@.len() == 0 {
            let bytes = encoded->Some_0@;
            assert(valid_utf8(bytes));
            assert(decode_utf8(bytes) =~= Seq::<char>::empty());
        }
    }
    let body = scrape_body(encoded);
    ScrapeResponse { status: SCRAPE_STATUS, body, family_count, warn_empty: family_count == 0 }
}

/// Answers one scrape from the registry's state at the moment of the call.
/// Whatever the registry holds, the status is 200, the warning is asked for
/// exactly when the snapshot is empty, and an empty snapshot gives an empty
/// body.
pub fn handle_scrape(registry: &Registry) -> (r: ScrapeResponse)
    ensures
        r.status == SCRAPE_STATUS,
        r.warn_empty == (r.family_count == 0),
        r.family_count == 0 ==> r.body@.len() == 0,
        exists|families: Seq<MetricFamily>|
            families.len() == r.family_count && r.body@ == body_of(
                #[trigger] exposition_of(families),
            ),
{
    let families = snapshot(registry);
    render_families(&families)
}

} // verus!
