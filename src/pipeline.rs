use vstd::prelude::*;
use crate::alerts::{WebhookPost, notify_owner, notify_responder, owner_text, responder_text};
use crate::cns::{EnrichmentCall, ENRICH_TIMEOUT_SECS, enrichment_call};
use crate::jsonlog::{LogEntry, maybe_emit, should_emit, step_last, last_of};
use crate::store::{AlertRecord, AlertStore};

verus! {

/// The optional endpoints of the deployment; each one that is absent turns
/// its feature off.
pub struct Endpoints {
    pub enrichment_url: Option<String>,
    pub enrichment_key: Option<String>,
    pub owner_hook: Option<String>,
    pub responder_hook: Option<String>,
}

/// What a detection asks of the outside world: the log entry to persist,
/// and the best-effort calls to start without waiting for them.
pub struct Dispatch {
    pub entry: Option<LogEntry>,
    pub enrichment: Option<EnrichmentCall>,
    pub owner: Option<WebhookPost>,
    pub responder: Option<WebhookPost>,
}

/// The quiet-window key of a site's camera: the two identifiers joined.
pub open spec fn spec_composite_key(site: Seq<char>, cam: Seq<char>) -> Seq<char> {
    site + cam
}

/// The quiet-window key of a site's camera.
pub fn composite_key(site: &str, cam: &str) -> (r: String)
    ensures
        r@ == spec_composite_key(site@, cam@),
{
    let mut r = site.to_owned();
    r.append(cam);
    r
}

fn copy_opt(o: &Option<String>) -> (r: Option<String>)
    ensures
        r == *o,
{
    match o {
        Some(s) => Some(s.clone()),
        None => None,
    }
}

/// Handles one detection: applies the quiet-window policy under the key of
/// its site and camera; and, where it is elevated, stores the record under
/// its id and plans the enrichment call and the owner and responder
/// notifications, each where its endpoint is configured. The calls are returned,
/// not made, so that the caller can start them without awaiting them.
pub fn ingest(st: &mut AlertStore, rec: AlertRecord, now: u64, cfg: &Endpoints) -> (r: Dispatch)
    requires
        old(st).wf(),
    ensures
        final(st).wf(),
        ({
            let key = spec_composite_key(rec.site_id@, rec.camera_id@);
            &&& r.entry.is_some() == should_emit(rec.level, last_of(old(st).quiet(), key), now)
            &&& last_of(final(st).quiet(), key) == step_last(last_of(old(st).quiet(), key), rec.level, now)
            &&& final(st).quiet() == (if r.entry.is_some() { old(st).quiet().insert(key, now) } else { old(st).quiet() })
        }),
        r.entry matches Some(e) ==> e.describes(rec),
        final(st).alerts() == (if rec.level.spec_is_elevated() { old(st).alerts().insert(rec.id@, rec) } else { old(st).alerts() }),
        r.enrichment.is_some() == (rec.level.spec_is_elevated() && cfg.enrichment_url.is_some()),
        r.enrichment matches Some(c) ==> {
            &&& c.url == cfg.enrichment_url.unwrap()
            &&& c.bearer@ == (if cfg.enrichment_key.is_some() { cfg.enrichment_key.unwrap()@ } else { Seq::<char>::empty() })
            &&& c.timeout_secs == ENRICH_TIMEOUT_SECS
            &&& c.payload.redacts(rec)
        },
        r.owner.is_some() == (rec.level.spec_is_elevated() && cfg.owner_hook.is_some()),
        r.owner matches Some(p) ==> p.url == cfg.owner_hook.unwrap() && p.text@ == owner_text(rec.id@),
        r.responder.is_some() == (rec.level.spec_is_elevated() && cfg.responder_hook.is_some()),
        r.responder matches Some(p) ==> p.url == cfg.responder_hook.unwrap() && p.text@ == responder_text(rec.id@),
{
    let key = composite_key(rec.site_id.as_str(), rec.camera_id.as_str());
    let entry = maybe_emit(st, key.as_str(), &rec, now);
    if rec.level.is_elevated() {
        let enrichment = enrichment_call(&rec, copy_opt(&cfg.enrichment_url), copy_opt(&cfg.enrichment_key));
        let owner = notify_owner(rec.id.as_str(), copy_opt(&cfg.owner_hook));
        let responder = notify_responder(rec.id.as_str(), copy_opt(&cfg.responder_hook));
        let id = rec.id.clone();
        st.upsert(id, rec);
        Dispatch { entry, enrichment, owner, responder }
    } else {
        Dispatch { entry, enrichment: None, owner: None, responder: None }
    }
}

} // verus!
