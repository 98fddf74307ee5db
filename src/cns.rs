use vstd::prelude::*;
use serde_json::Value;
use crate::store::{AlertRecord, AlertStore, Observation, merge_post};

verus! {

/// The seconds that an enrichment call may take before it is abandoned.
pub const ENRICH_TIMEOUT_SECS: u64 = 5;

/// What the risk-scoring service is shown of an alert: identifiers, time,
/// the names of objects and actions, zone and audio summaries, and the
/// operating-procedure hints. Nothing else of the detection leaves.
pub struct RedactedPayload {
    pub site: String,
    pub camera: String,
    pub time_local: String,
    pub objects: Vec<Value>,
    pub actions: Vec<Value>,
    pub zones: Value,
    pub audio_flags: Value,
    pub audio_phrases: Vec<String>,
    pub sops: Vec<String>,
}

/// The operating-procedure hints sent with every enrichment request.
pub open spec fn sop_hints() -> Seq<Seq<char>> {
    seq!["ATM loiter after-hours threshold 0.70"@, "Escalate if voice raised + concealment"@]
}

/// The names of a list of observations, in order.
pub open spec fn names_of(v: Seq<Observation>) -> Seq<Value> {
    v.map_values(|o: Observation| o.name)
}

fn names(v: &Vec<Observation>) -> (r: Vec<Value>)
    ensures
        r@ == names_of(v@),
{
    let mut r: Vec<Value> = Vec::new();
    let mut i: usize = 0;
    while i < v.len()
        invariant
            i <= v@.len(),
            r@ == names_of(v@.subrange(0, i as int)),
        decreases v@.len() - i,
    {
        r.push(v[i].name.clone());
        i = i + 1;
        assert(names_of(v@.subrange(0, i as int)) =~= names_of(v@.subrange(0, i - 1)).push(v@[i - 1].name));
    }
    assert(v@.subrange(0, v@.len() as int) =~= v@);
    r
}

fn sops() -> (r: Vec<String>)
    ensures
        r@.map_values(|s: String| s@) == sop_hints(),
{
    let mut r: Vec<String> = Vec::new();
    r.push("ATM loiter after-hours threshold 0.70".to_owned());
    r.push("Escalate if voice raised + concealment".to_owned());
    assert(r@.map_values(|s: String| s@) =~= sop_hints());
    r
}

impl RedactedPayload {
    /// The payload is the redaction of `a`.
    pub open spec fn redacts(self, a: AlertRecord) -> bool {
        &&& self.site == a.site_id
        &&& self.camera == a.camera_id
        &&& self.time_local == a.ts
        &&& self.objects@ == names_of(a.objects@)
        &&& self.actions@ == names_of(a.actions@)
        &&& self.zones == a.zones
        &&& self.audio_flags == a.audio_flags
        &&& self.audio_phrases@.len() == 0
        &&& self.sops@.map_values(|s: String| s@) == sop_hints()
    }
}

/// The redacted view of an alert that the risk-scoring service receives.
pub fn build_redacted(a: &AlertRecord) -> (r: RedactedPayload)
    ensures
        r.redacts(*a),
{
    RedactedPayload {
        site: a.site_id.clone(),
        camera: a.camera_id.clone(),
        time_local: a.ts.clone(),
        objects: names(&a.objects),
        actions: names(&a.actions),
        zones: a.zones.clone(),
        audio_flags: a.audio_flags.clone(),
        audio_phrases: Vec::new(),
        sops: sops(),
    }
}

/// A call to the risk-scoring service.
pub struct EnrichmentCall {
    pub url: String,
    pub bearer: String,
    pub timeout_secs: u64,
    pub payload: RedactedPayload,
}

/// The enrichment call to make for alert `a`: none where no endpoint is
/// configured; else a post of the redacted alert to `endpoint`, with the
/// credential (empty where none is configured) as bearer token and a
/// timeout of `ENRICH_TIMEOUT_SECS` seconds.
pub fn enrichment_call(a: &AlertRecord, endpoint: Option<String>, api_key: Option<String>) -> (r: Option<EnrichmentCall>)
    ensures
        r.is_some() == endpoint.is_some(),
        r.is_some() ==> {
            let c = r.unwrap();
            &&& c.url == endpoint.unwrap()
            &&& c.bearer@ == (if api_key.is_some() { api_key.unwrap()@ } else { Seq::<char>::empty() })
            &&& c.timeout_secs == ENRICH_TIMEOUT_SECS
            &&& c.payload.redacts(*a)
        },
{
    match endpoint {
        None => None,
        Some(url) => {
            let bearer = match api_key {
                Some(k) => k,
                None => String::new(),
            };
            Some(EnrichmentCall { url, bearer, timeout_secs: ENRICH_TIMEOUT_SECS, payload: build_redacted(a) })
        },
    }
}

/// Applies the outcome of an enrichment call for alert `a`: a value that
/// came back is merged under `a`'s id, with `a` as the record where the
/// store holds none; a failed call (`None`) changes nothing.
pub fn apply_enrichment(st: &mut AlertStore, a: AlertRecord, outcome: Option<Value>)
    requires
        old(st).wf(),
    ensures
        final(st).wf(),
        final(st).quiet() == old(st).quiet(),
        outcome.is_none() ==> final(st).alerts() == old(st).alerts(),
        outcome.is_some() ==> merge_post(old(st).alerts(), final(st).alerts(), a.id@, a, outcome.unwrap()),
{
    match outcome {
        None => {},
        Some(v) => {
            let id = a.id.clone();
            st.merge_enrichment(id.as_str(), a, v);
        },
    }
}

} // verus!
