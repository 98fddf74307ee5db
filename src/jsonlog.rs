use vstd::prelude::*;
use serde_json::Value;
use crate::severity::Severity;
use crate::store::{AlertRecord, AlertStore, Observation, copy_observations};

verus! {

/// The minimum interval, in seconds, between two `no_threat` entries of a key.
pub const QUIET_WINDOW_SECS: u64 = 15;

/// A log entry to persist, one per file.
pub enum LogEntry {
    /// An elevated detection, logged whatever the quiet window says.
    Threat {
        ts: String,
        site_id: String,
        camera_id: String,
        level: Severity,
        risk: Value,
        objects: Vec<Observation>,
        actions: Vec<Observation>,
        zones: Value,
        audio_flags: Value,
    },
    /// A heartbeat saying that nothing elevated was seen.
    NoThreat {
        ts: String,
        site_id: String,
        camera_id: String,
        window_sec: u64,
    },
}

impl LogEntry {
    /// The entry is the one that the policy writes for `rec`: a threat entry
    /// carrying its payload where it is elevated, else a heartbeat.
    pub open spec fn describes(self, rec: AlertRecord) -> bool {
        match self {
            LogEntry::Threat { ts, site_id, camera_id, level, risk, objects, actions, zones, audio_flags } => {
                &&& rec.level.spec_is_elevated()
                &&& ts == rec.ts && site_id == rec.site_id && camera_id == rec.camera_id
                &&& level == rec.level && risk == rec.risk
                &&& objects@ == rec.objects@ && actions@ == rec.actions@
                &&& zones == rec.zones && audio_flags == rec.audio_flags
            },
            LogEntry::NoThreat { ts, site_id, camera_id, window_sec } => {
                &&& !rec.level.spec_is_elevated()
                &&& ts == rec.ts && site_id == rec.site_id && camera_id == rec.camera_id
                &&& window_sec == QUIET_WINDOW_SECS
            },
        }
    }

    /// The site, camera and timestamp of the entry.
    pub open spec fn spec_ids(self) -> (Seq<char>, Seq<char>, Seq<char>) {
        match self {
            LogEntry::Threat { ts, site_id, camera_id, .. } => (site_id@, camera_id@, ts@),
            LogEntry::NoThreat { ts, site_id, camera_id, .. } => (site_id@, camera_id@, ts@),
        }
    }

    /// The file name of the entry, `<site>_<camera>_<ts>.json`: the same
    /// site, camera and timestamp always give the same file.
    pub fn file_name(&self) -> (r: String)
        ensures
            r@ == file_name_of(self.spec_ids().0, self.spec_ids().1, self.spec_ids().2),
    {
        match self {
            LogEntry::Threat { ts, site_id, camera_id, .. } => entry_file_name(site_id, camera_id, ts),
            LogEntry::NoThreat { ts, site_id, camera_id, .. } => entry_file_name(site_id, camera_id, ts),
        }
    }
}

/// `<site>_<camera>_<ts>.json`.
pub open spec fn file_name_of(site: Seq<char>, cam: Seq<char>, ts: Seq<char>) -> Seq<char> {
    site + "_"@ + cam + "_"@ + ts + ".json"@
}

/// The name of the file that holds the entry of `site`, `cam` at `ts`.
pub fn entry_file_name(site: &str, cam: &str, ts: &str) -> (r: String)
    ensures
        r@ == file_name_of(site@, cam@, ts@),
{
    let mut r = site.to_owned();
    r.append("_");
    r.append(cam);
    r.append("_");
    r.append(ts);
    r.append(".json");
    r
}

/// The directory that holds the persisted entries.
pub open spec fn log_root() -> Seq<char> {
    "surveilens/backend/data/jsonlogs"@
}

/// The directory that holds the persisted entries.
pub fn root() -> (r: String)
    ensures
        r@ == log_root(),
{
    "surveilens/backend/data/jsonlogs".to_owned()
}

/// The quiet-window policy: elevated detections are always logged; others
/// only where the key was never logged or was last logged at least
/// `QUIET_WINDOW_SECS` seconds before `now`.
pub open spec fn should_emit(level: Severity, last: Option<u64>, now: u64) -> bool {
    level.spec_is_elevated() || match last {
        None => true,
        Some(t) => now - t >= QUIET_WINDOW_SECS,
    }
}

/// The key's last emission time after a detection of `level` at `now`.
pub open spec fn step_last(last: Option<u64>, level: Severity, now: u64) -> Option<u64> {
    if should_emit(level, last, now) {
        Some(now)
    } else {
        last
    }
}

/// The last emission time of a key after a series of detections (level and
/// arrival time), starting from `start`.
pub open spec fn run_last(start: Option<u64>, ev: Seq<(Severity, u64)>) -> Option<u64>
    decreases ev.len(),
{
    if ev.len() == 0 {
        start
    } else {
        let prev = run_last(start, ev.drop_last());
        step_last(prev, ev.last().0, ev.last().1)
    }
}

/// For each detection of a series, whether it produced an entry.
pub open spec fn run_emits(start: Option<u64>, ev: Seq<(Severity, u64)>) -> Seq<bool>
    decreases ev.len(),
{
    if ev.len() == 0 {
        Seq::empty()
    } else {
        let prev = run_last(start, ev.drop_last());
        run_emits(start, ev.drop_last()).push(should_emit(ev.last().0, prev, ev.last().1))
    }
}

proof fn lemma_run_emits_len(start: Option<u64>, ev: Seq<(Severity, u64)>)
    ensures
        run_emits(start, ev).len() == ev.len(),
        forall|i: int| 0 <= i < ev.len() - 1 ==> #[trigger] run_emits(start, ev)[i] == run_emits(start, ev.drop_last())[i],
    decreases ev.len(),
{
    if ev.len() > 0 {
        lemma_run_emits_len(start, ev.drop_last());
    }
}

/// Elevated detections are never suppressed: in a series of elevated
/// detections for one key, each one produces an entry, and afterwards the
/// key's last emission time is the arrival time of the last of them.
pub proof fn lemma_elevated_always_logged(start: Option<u64>, ev: Seq<(Severity, u64)>)
    requires
        forall|i: int| 0 <= i < ev.len() ==> (#[trigger] ev[i]).0.spec_is_elevated(),
    ensures
        forall|i: int| 0 <= i < ev.len() ==> #[trigger] run_emits(start, ev)[i],
        ev.len() > 0 ==> run_last(start, ev) == Some(ev.last().1),
    decreases ev.len(),
{
    lemma_run_emits_len(start, ev);
    if ev.len() > 0 {
        let d = ev.drop_last();
        assert forall|i: int| 0 <= i < d.len() implies (#[trigger] d[i]).0.spec_is_elevated() by {
            assert(d[i] == ev[i]);
        }
        lemma_elevated_always_logged(start, d);
        assert(ev.last() == ev[ev.len() - 1]);
        assert forall|i: int| 0 <= i < ev.len() implies #[trigger] run_emits(start, ev)[i] by {
            if i < ev.len() - 1 {
                assert(run_emits(start, d)[i]);
            }
        }
    }
}

/// The quiet window holds: among non-elevated detections of one key whose
/// arrival times all lie less than `QUIET_WINDOW_SECS` apart, at most one
/// produces an entry, and the key's last emission time is then that one's
/// arrival time.
pub proof fn lemma_quiet_window_at_most_one(start: Option<u64>, ev: Seq<(Severity, u64)>)
    requires
        forall|i: int| 0 <= i < ev.len() ==> !(#[trigger] ev[i]).0.spec_is_elevated(),
        forall|i: int, j: int| 0 <= i < ev.len() && 0 <= j < ev.len() ==>
            (#[trigger] ev[j]).1 - (#[trigger] ev[i]).1 < QUIET_WINDOW_SECS,
    ensures
        forall|i: int, j: int| 0 <= i < j < ev.len() ==>
            !(#[trigger] run_emits(start, ev)[i] && #[trigger] run_emits(start, ev)[j]),
        forall|i: int| 0 <= i < ev.len() && #[trigger] run_emits(start, ev)[i] ==> run_last(start, ev) == Some(ev[i].1),
    decreases ev.len(),
{
    lemma_run_emits_len(start, ev);
    if ev.len() > 0 {
        let d = ev.drop_last();
        let n = ev.len() - 1;
        assert forall|i: int| 0 <= i < d.len() implies !(#[trigger] d[i]).0.spec_is_elevated() by {
            assert(d[i] == ev[i]);
        }
        assert forall|i: int, j: int| 0 <= i < d.len() && 0 <= j < d.len() implies
            (#[trigger] d[j]).1 - (#[trigger] d[i]).1 < QUIET_WINDOW_SECS by {
            assert(d[i] == ev[i] && d[j] == ev[j]);
        }
        lemma_quiet_window_at_most_one(start, d);
        lemma_run_emits_len(start, d);
        assert(ev.last() == ev[n]);
        if exists|i: int| 0 <= i < n && #[trigger] run_emits(start, d)[i] {
            let i = choose|i: int| 0 <= i < n && #[trigger] run_emits(start, d)[i];
            assert(run_last(start, d) == Some(ev[i].1));
            assert(ev[n].1 - ev[i].1 < QUIET_WINDOW_SECS);
            assert(!run_emits(start, ev)[n]);
        }
        assert forall|i: int| 0 <= i < ev.len() && #[trigger] run_emits(start, ev)[i] implies run_last(start, ev) == Some(ev[i].1) by {
            if i < n {
                assert(run_emits(start, d)[i]);
                assert(!run_emits(start, ev)[n]);
            }
        }
        assert forall|i: int, j: int| 0 <= i < j < ev.len() implies
            !(#[trigger] run_emits(start, ev)[i] && #[trigger] run_emits(start, ev)[j]) by {
            if j < n {
                assert(run_emits(start, ev)[i] == run_emits(start, d)[i]);
                assert(run_emits(start, ev)[j] == run_emits(start, d)[j]);
            } else if run_emits(start, ev)[i] {
                assert(run_emits(start, d)[i]);
            }
        }
    }
}

/// The quiet window reopens: a non-elevated detection that arrives at least
/// `QUIET_WINDOW_SECS` seconds after the key's last emission, or for a key
/// never logged, produces an entry.
pub proof fn lemma_quiet_window_reopens(level: Severity, last: Option<u64>, now: u64)
    requires
        match last {
            None => true,
            Some(t) => now - t >= QUIET_WINDOW_SECS,
        },
    ensures
        should_emit(level, last, now),
        step_last(last, level, now) == Some(now),
{
}

/// The last emission time that `q` holds for `key`.
pub open spec fn last_of(q: Map<Seq<char>, u64>, key: Seq<char>) -> Option<u64> {
    if q.contains_key(key) {
        Some(q[key])
    } else {
        None
    }
}

/// Applies the quiet-window policy to `rec` for `key` at time `now`
/// (seconds): returns the entry to persist, if any, and records the emission
/// time for `key` when there is one.
pub fn maybe_emit(st: &mut AlertStore, key: &str, rec: &AlertRecord, now: u64) -> (r: Option<LogEntry>)
    requires
        old(st).wf(),
    ensures
        final(st).wf(),
        r.is_some() == should_emit(rec.level, last_of(old(st).quiet(), key@), now),
        final(st).quiet() == (if r.is_some() { old(st).quiet().insert(key@, now) } else { old(st).quiet() }),
        emit_step(old(st).quiet(), final(st).quiet(), key@, rec.level, now, r.is_some()),
        final(st).alerts() == old(st).alerts(),
        match r {
            Some(e) => e.describes(*rec),
            None => true,
        },
{
    let last = st.last_emission(key);
    if rec.level.is_elevated() {
        let e = LogEntry::Threat {
            ts: rec.ts.clone(),
            site_id: rec.site_id.clone(),
            camera_id: rec.camera_id.clone(),
            level: rec.level,
            risk: rec.risk.clone(),
            objects: copy_observations(&rec.objects),
            actions: copy_observations(&rec.actions),
            zones: rec.zones.clone(),
            audio_flags: rec.audio_flags.clone(),
        };
        st.record_emission(key, now);
        Some(e)
    } else {
        let due = match last {
            None => true,
            Some(t) => now >= t && now - t >= QUIET_WINDOW_SECS,
        };
        if due {
            let e = LogEntry::NoThreat {
                ts: rec.ts.clone(),
                site_id: rec.site_id.clone(),
                camera_id: rec.camera_id.clone(),
                window_sec: QUIET_WINDOW_SECS,
            };
            st.record_emission(key, now);
            Some(e)
        } else {
            None
        }
    }
}

/// The effect of one `maybe_emit` call for `key` on the last-emission
/// times: `emitted` says whether it produced an entry, as the policy asks,
/// and the key's time becomes `now` exactly when it did.
pub open spec fn emit_step(
    before: Map<Seq<char>, u64>,
    after: Map<Seq<char>, u64>,
    key: Seq<char>,
    level: Severity,
    now: u64,
    emitted: bool,
) -> bool {
    &&& emitted == should_emit(level, last_of(before, key), now)
    &&& after == (if emitted { before.insert(key, now) } else { before })
}

/// A series of `maybe_emit` calls for `key`: call `i` takes the times from
/// `qs[i]` to `qs[i + 1]`, for a detection of `ev[i]` (level, time), and
/// produced an entry where `emitted[i]`.
pub open spec fn emit_series(
    qs: Seq<Map<Seq<char>, u64>>,
    key: Seq<char>,
    ev: Seq<(Severity, u64)>,
    emitted: Seq<bool>,
) -> bool {
    &&& qs.len() == ev.len() + 1
    &&& emitted.len() == ev.len()
    &&& forall|i: int| 0 <= i < ev.len() ==> emit_step(#[trigger] qs[i], qs[i + 1], key, ev[i].0, ev[i].1, emitted[i])
}

proof fn lemma_series_follows_model(
    qs: Seq<Map<Seq<char>, u64>>,
    key: Seq<char>,
    ev: Seq<(Severity, u64)>,
    emitted: Seq<bool>,
)
    requires
        emit_series(qs, key, ev, emitted),
    ensures
        emitted == run_emits(last_of(qs[0], key), ev),
        last_of(qs.last(), key) == run_last(last_of(qs[0], key), ev),
    decreases ev.len(),
{
    let start = last_of(qs[0], key);
    lemma_run_emits_len(start, ev);
    if ev.len() > 0 {
        let n = ev.len() - 1;
        let qd = qs.drop_last();
        let ed = emitted.drop_last();
        let d = ev.drop_last();
        assert forall|i: int| 0 <= i < d.len() implies emit_step(#[trigger] qd[i], qd[i + 1], key, d[i].0, d[i].1, ed[i]) by {
            assert(emit_step(qs[i], qs[i + 1], key, ev[i].0, ev[i].1, emitted[i]));
        }
        lemma_series_follows_model(qd, key, d, ed);
        assert(emit_step(qs[n], qs[n + 1], key, ev[n].0, ev[n].1, emitted[n]));
        assert(qd.last() == qs[n]);
        assert(ev.last() == ev[n]);
        assert(emitted =~= run_emits(start, ev));
    }
}

/// Over any series of `maybe_emit` calls for one key whose detections are
/// all elevated, every call produces an entry (a threat entry, by
/// `maybe_emit`'s contract), and the key's last emission time ends as the
/// time of the last call.
pub proof fn lemma_series_elevated_always_logged(
    qs: Seq<Map<Seq<char>, u64>>,
    key: Seq<char>,
    ev: Seq<(Severity, u64)>,
    emitted: Seq<bool>,
)
    requires
        emit_series(qs, key, ev, emitted),
        forall|i: int| 0 <= i < ev.len() ==> (#[trigger] ev[i]).0.spec_is_elevated(),
    ensures
        forall|i: int| 0 <= i < ev.len() ==> #[trigger] emitted[i],
        ev.len() > 0 ==> last_of(qs.last(), key) == Some(ev.last().1),
{
    lemma_series_follows_model(qs, key, ev, emitted);
    lemma_elevated_always_logged(last_of(qs[0], key), ev);
}

/// Over any series of `maybe_emit` calls for one key whose detections are
/// non-elevated and whose times all lie less than `QUIET_WINDOW_SECS` apart,
/// at most one call produces an entry, and where one does the key's last
/// emission time ends as its time.
pub proof fn lemma_series_quiet_window_at_most_one(
    qs: Seq<Map<Seq<char>, u64>>,
    key: Seq<char>,
    ev: Seq<(Severity, u64)>,
    emitted: Seq<bool>,
)
    requires
        emit_series(qs, key, ev, emitted),
        forall|i: int| 0 <= i < ev.len() ==> !(#[trigger] ev[i]).0.spec_is_elevated(),
        forall|i: int, j: int| 0 <= i < ev.len() && 0 <= j < ev.len() ==>
            (#[trigger] ev[j]).1 - (#[trigger] ev[i]).1 < QUIET_WINDOW_SECS,
    ensures
        forall|i: int, j: int| 0 <= i < j < ev.len() ==> !(#[trigger] emitted[i] && #[trigger] emitted[j]),
        forall|i: int| 0 <= i < ev.len() && #[trigger] emitted[i] ==> last_of(qs.last(), key) == Some(ev[i].1),
{
    lemma_series_follows_model(qs, key, ev, emitted);
    lemma_quiet_window_at_most_one(last_of(qs[0], key), ev);
}

/// `name` begins with `prefix`.
pub open spec fn has_prefix(name: Seq<char>, prefix: Seq<char>) -> bool {
    prefix.len() <= name.len() && name.subrange(0, prefix.len() as int) == prefix
}

/// Whether `name` begins with `prefix`.
pub fn starts_with(name: &str, prefix: &str) -> (r: bool)
    ensures
        r == has_prefix(name@, prefix@),
{
    let n = name.unicode_len();
    let p = prefix.unicode_len();
    if p > n {
        return false;
    }
    let mut i: usize = 0;
    while i < p
        invariant
            p == prefix@.len(),
            n == name@.len(),
            p <= n,
            i <= p,
            forall|j: int| 0 <= j < i ==> name@[j] == prefix@[j],
        decreases p - i,
    {
        if name.get_char(i) != prefix.get_char(i) {
            assert(name@.subrange(0, p as int)[i as int] != prefix@[i as int]);
            return false;
        }
        i = i + 1;
    }
    assert(name@.subrange(0, p as int) =~= prefix@);
    true
}

/// The file name prefix of the entries of `site`, `cam`: `<site>_<camera>`.
pub open spec fn entry_prefix(site: Seq<char>, cam: Seq<char>) -> Seq<char> {
    site + "_"@ + cam
}

/// Entry `i` of a directory listing belongs to the prefix.
pub open spec fn is_candidate(names: Seq<String>, prefix: Seq<char>, i: int) -> bool {
    0 <= i < names.len() && has_prefix(names[i]@, prefix)
}

/// Chooses, in a directory listing of file names and modification times,
/// the entry to read as the latest status of `site`, `cam`: among the names
/// that begin with `<site>_<camera>`, the first one with the greatest time;
/// `None` where no name begins so.
pub fn latest_for(names: &Vec<String>, mtimes: &Vec<u64>, site: &str, cam: &str) -> (r: Option<usize>)
    requires
        names@.len() == mtimes@.len(),
    ensures
        match r {
            None => forall|j: int| !is_candidate(names@, entry_prefix(site@, cam@), j),
            Some(i) => {
                &&& is_candidate(names@, entry_prefix(site@, cam@), i as int)
                &&& forall|j: int| #[trigger] is_candidate(names@, entry_prefix(site@, cam@), j) ==> mtimes@[j] <= mtimes@[i as int]
                &&& forall|j: int| 0 <= j < i && #[trigger] is_candidate(names@, entry_prefix(site@, cam@), j) ==> mtimes@[j] < mtimes@[i as int]
            },
        },
{
    let mut prefix = site.to_owned();
    prefix.append("_");
    prefix.append(cam);
    let ghost pre = entry_prefix(site@, cam@);
    let mut best: Option<usize> = None;
    let mut k: usize = 0;
    while k < names.len()
        invariant
            names@.len() == mtimes@.len(),
            k <= names@.len(),
            prefix@ == pre,
            pre == entry_prefix(site@, cam@),
            match best {
                None => forall|j: int| 0 <= j < k ==> !is_candidate(names@, pre, j),
                Some(i) => {
                    &&& i < k
                    &&& is_candidate(names@, pre, i as int)
                    &&& forall|j: int| 0 <= j < k && #[trigger] is_candidate(names@, pre, j) ==> mtimes@[j] <= mtimes@[i as int]
                    &&& forall|j: int| 0 <= j < i && #[trigger] is_candidate(names@, pre, j) ==> mtimes@[j] < mtimes@[i as int]
                },
            },
        decreases names@.len() - k,
    {
        if starts_with(names[k].as_str(), prefix.as_str()) {
            let better = match best {
                None => true,
                Some(i) => mtimes[k] > mtimes[i],
            };
            if better {
                best = Some(k);
            }
        }
        k = k + 1;
    }
    best
}

} // verus!
