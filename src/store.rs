use vstd::prelude::*;
use serde_json::Value;
use crate::severity::Severity;
use crate::table::Table;

verus! {

/// One element of a detection's object or action list: its `name`, and the
/// element as received.
pub struct Observation {
    pub name: Value,
    pub detail: Value,
}

impl Observation {
    /// An equal copy.
    pub fn copy(&self) -> (r: Observation)
        ensures
            r == *self,
    {
        Observation { name: self.name.clone(), detail: self.detail.clone() }
    }
}

/// An equal copy of a list of observations.
pub fn copy_observations(v: &Vec<Observation>) -> (r: Vec<Observation>)
    ensures
        r@ == v@,
{
    let mut r: Vec<Observation> = Vec::new();
    let mut i: usize = 0;
    while i < v.len()
        invariant
            i <= v@.len(),
            r@ == v@.subrange(0, i as int),
        decreases v@.len() - i,
    {
        r.push(v[i].copy());
        i = i + 1;
        assert(r@ =~= v@.subrange(0, i as int));
    }
    assert(v@.subrange(0, v@.len() as int) =~= v@);
    r
}

/// One detection event and the enrichment gathered for it. Every field but
/// `enrichment` is fixed when the record is made.
pub struct AlertRecord {
    pub id: String,
    pub ts: String,
    pub site_id: String,
    pub camera_id: String,
    pub risk: Value,
    pub level: Severity,
    pub objects: Vec<Observation>,
    pub actions: Vec<Observation>,
    pub zones: Value,
    pub audio_flags: Value,
    pub enrichment: Option<Value>,
}

impl AlertRecord {
    /// The two records agree on every field but `enrichment`.
    pub open spec fn same_detection(self, other: AlertRecord) -> bool {
        &&& self.id == other.id
        &&& self.ts == other.ts
        &&& self.site_id == other.site_id
        &&& self.camera_id == other.camera_id
        &&& self.risk == other.risk
        &&& self.level == other.level
        &&& self.objects@ == other.objects@
        &&& self.actions@ == other.actions@
        &&& self.zones == other.zones
        &&& self.audio_flags == other.audio_flags
    }

    /// `self` is `base` with its enrichment set to `v` and nothing else changed.
    pub open spec fn is_enriched(self, base: AlertRecord, v: Value) -> bool {
        self.same_detection(base) && self.enrichment == Some(v)
    }

    /// A copy of this record whose enrichment is `v`.
    pub fn enriched(&self, v: Value) -> (r: AlertRecord)
        ensures
            r.is_enriched(*self, v),
    {
        let objects = copy_observations(&self.objects);
        let actions = copy_observations(&self.actions);
        AlertRecord {
            id: self.id.clone(),
            ts: self.ts.clone(),
            site_id: self.site_id.clone(),
            camera_id: self.camera_id.clone(),
            risk: self.risk.clone(),
            level: self.level,
            objects,
            actions,
            zones: self.zones.clone(),
            audio_flags: self.audio_flags.clone(),
            enrichment: Some(v),
        }
    }
}

/// The records after merging `v` under `id` into `before`: the record for
/// `id` is the one held before (or `default` where there was none) with its
/// enrichment set to `v`; every other record is unchanged.
pub open spec fn merge_post(
    before: Map<Seq<char>, AlertRecord>,
    after: Map<Seq<char>, AlertRecord>,
    id: Seq<char>,
    default: AlertRecord,
    v: Value,
) -> bool {
    &&& after.dom() == before.dom().insert(id)
    &&& forall|k: Seq<char>| k != id && #[trigger] after.contains_key(k) ==> after[k] == before[k]
    &&& after[id].is_enriched(if before.contains_key(id) { before[id] } else { default }, v)
}

/// Merging into a store that holds no record for `id` writes `default` with
/// only its enrichment set to `v`.
pub proof fn lemma_merge_absent_writes_default(
    before: Map<Seq<char>, AlertRecord>,
    after: Map<Seq<char>, AlertRecord>,
    id: Seq<char>,
    default: AlertRecord,
    v: Value,
)
    requires
        merge_post(before, after, id, default, v),
        !before.contains_key(id),
    ensures
        after.contains_key(id),
        after[id].same_detection(default),
        after[id].enrichment == Some(v),
{
}

/// A merge never alters the non-enrichment fields of a record already held,
/// whatever id it is made under; and it removes no record.
pub proof fn lemma_merge_keeps_detection(
    before: Map<Seq<char>, AlertRecord>,
    after: Map<Seq<char>, AlertRecord>,
    id: Seq<char>,
    default: AlertRecord,
    v: Value,
    k: Seq<char>,
)
    requires
        merge_post(before, after, id, default, v),
        before.contains_key(k),
    ensures
        after.contains_key(k),
        after[k].same_detection(before[k]),
{
    assert(after.contains_key(k));
}

/// The process-wide state: alert records by alert id, and the time of the
/// last persisted log entry by site/camera key.
pub struct AlertStore {
    alerts: Table<AlertRecord>,
    last_quiet: Table<u64>,
}

impl AlertStore {
    /// Well-formedness of both tables.
    pub closed spec fn wf(&self) -> bool {
        self.alerts.wf() && self.last_quiet.wf()
    }

    /// The alert records, by alert id.
    pub closed spec fn alerts(&self) -> Map<Seq<char>, AlertRecord> {
        self.alerts@
    }

    /// The last emission time, in seconds, by site/camera key.
    pub closed spec fn quiet(&self) -> Map<Seq<char>, u64> {
        self.last_quiet@
    }

    /// An empty store.
    pub fn new() -> (r: AlertStore)
        ensures
            r.wf(),
            r.alerts() == Map::<Seq<char>, AlertRecord>::empty(),
            r.quiet() == Map::<Seq<char>, u64>::empty(),
    {
        AlertStore { alerts: Table::new(), last_quiet: Table::new() }
    }

    /// Inserts or replaces the whole record for `id` (last write wins, no merge).
    pub fn upsert(&mut self, id: String, rec: AlertRecord)
        requires
            old(self).wf(),
        ensures
            final(self).wf(),
            final(self).alerts() == old(self).alerts().insert(id@, rec),
            final(self).quiet() == old(self).quiet(),
    {
        self.alerts.insert(id, rec);
    }

    /// The record held for `id`, if any.
    pub fn get(&self, id: &str) -> (r: Option<&AlertRecord>)
        requires
            self.wf(),
        ensures
            match r {
                Some(rec) => self.alerts().contains_key(id@) && self.alerts()[id@] == *rec,
                None => !self.alerts().contains_key(id@),
            },
    {
        self.alerts.get(id)
    }

    /// Reads the record for `id` (or takes `default` where there is none),
    /// sets its enrichment to `v`, and writes it back, all under the one
    /// `&mut` borrow, so nothing can come between the read and the write.
    ///
    /// The race that remains is between callers that copy a record out with
    /// `get`, release the store, and later write a changed copy back with
    /// `upsert` (or call this method): whichever write lands last wins, and
    /// the other is lost. Each alert id comes from one upstream event and is
    /// enriched once, so this is accepted rather than prevented, and it is
    /// confined to that one id.
    pub fn merge_enrichment(&mut self, id: &str, default: AlertRecord, v: Value)
        requires
            old(self).wf(),
        ensures
            final(self).wf(),
            merge_post(old(self).alerts(), final(self).alerts(), id@, default, v),
            final(self).quiet() == old(self).quiet(),
    {
        let ghost before = self.alerts();
        let rec = match self.alerts.get(id) {
            Some(current) => current.enriched(v),
            None => default.enriched(v),
        };
        self.alerts.insert(id.to_owned(), rec);
        assert(self.alerts().dom() =~= before.dom().insert(id@));
    }

    /// When the last log entry for `key` was persisted, if ever.
    pub fn last_emission(&self, key: &str) -> (r: Option<u64>)
        requires
            self.wf(),
        ensures
            r == (if self.quiet().contains_key(key@) { Some(self.quiet()[key@]) } else { None::<u64> }),
    {
        match self.last_quiet.get(key) {
            Some(t) => Some(*t),
            None => None,
        }
    }

    /// Records that a log entry for `key` was persisted at `now`.
    pub fn record_emission(&mut self, key: &str, now: u64)
        requires
            old(self).wf(),
        ensures
            final(self).wf(),
            final(self).quiet() == old(self).quiet().insert(key@, now),
            final(self).alerts() == old(self).alerts(),
    {
        self.last_quiet.insert(key.to_owned(), now);
    }
}

} // verus!
