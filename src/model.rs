use vstd::prelude::*;
use crate::policy::{appended_log, classify_spec, ChangeStatus};
use crate::record::{is_candidate_spec, timestamp_of, CandidateFilter, FileRecord};

verus! {

/// The three tables of the index, as mathematical maps.
pub struct IndexTables {
    /// path to fingerprint
    pub fingerprints: Map<Seq<char>, u32>,
    /// fingerprint to the newline-delimited history of paths seen with it
    pub logs: Map<u32, Seq<char>>,
    /// path to the watermark stored with its fingerprint
    pub times: Map<Seq<char>, Seq<char>>,
}

pub open spec fn lookup<K, V>(m: Map<K, V>, k: K) -> Option<V> {
    if m.contains_key(k) {
        Some(m[k])
    } else {
        None
    }
}

/// The status of `path` against the tables, for a record with watermark `time`.
pub open spec fn status_in(t: IndexTables, path: Seq<char>, time: Seq<char>) -> ChangeStatus {
    classify_spec(lookup(t.fingerprints, path), lookup(t.times, path), time)
}

/// The one atomic update of an entry: the path's fingerprint, the path appended
/// to that fingerprint's log, and the path's watermark.
pub open spec fn apply_put(t: IndexTables, path: Seq<char>, fp: u32, time: Seq<char>) -> IndexTables {
    IndexTables {
        fingerprints: t.fingerprints.insert(path, fp),
        logs: t.logs.insert(fp, appended_log(lookup(t.logs, fp), path)),
        times: t.times.insert(path, time),
    }
}

/// Whether a record leaves the tables alone: it is no candidate, or unchanged.
pub open spec fn is_settled(t: IndexTables, r: FileRecord, f: CandidateFilter) -> bool {
    !is_candidate_spec(r, f) || status_in(t, r.path@, timestamp_of(r.modified))
        == ChangeStatus::Unchanged
}

/// Processing one record, whose file content has fingerprint `content(path)`.
pub open spec fn process(
    t: IndexTables,
    r: FileRecord,
    f: CandidateFilter,
    content: spec_fn(Seq<char>) -> u32,
) -> IndexTables {
    if is_settled(t, r, f) {
        t
    } else {
        apply_put(t, r.path@, content(r.path@), timestamp_of(r.modified))
    }
}

/// Processing records one after another, in the order given.
pub open spec fn run(
    t: IndexTables,
    rs: Seq<FileRecord>,
    f: CandidateFilter,
    content: spec_fn(Seq<char>) -> u32,
) -> IndexTables
    decreases rs.len(),
{
    if rs.len() == 0 {
        t
    } else {
        process(run(t, rs.drop_last(), f, content), rs.last(), f, content)
    }
}

pub open spec fn distinct_paths(rs: Seq<FileRecord>) -> bool {
    forall|i: int, j: int| 0 <= i < j < rs.len() ==> rs[i].path@ != rs[j].path@
}

proof fn lemma_run_settled(
    t: IndexTables,
    rs: Seq<FileRecord>,
    f: CandidateFilter,
    content: spec_fn(Seq<char>) -> u32,
)
    requires
        forall|i: int| 0 <= i < rs.len() ==> is_settled(t, #[trigger] rs[i], f),
    ensures
        run(t, rs, f, content) == t,
    decreases rs.len(),
{
    if rs.len() > 0 {
        let init = rs.drop_last();
        assert forall|i: int| 0 <= i < init.len() implies is_settled(t, #[trigger] init[i], f) by {
            assert(init[i] == rs[i]);
        }
        lemma_run_settled(t, init, f, content);
        assert(is_settled(t, rs[rs.len() - 1], f));
    }
}

proof fn lemma_run_settles(
    t: IndexTables,
    rs: Seq<FileRecord>,
    f: CandidateFilter,
    content: spec_fn(Seq<char>) -> u32,
)
    requires
        distinct_paths(rs),
    ensures
        forall|i: int| 0 <= i < rs.len() ==> is_settled(run(t, rs, f, content), #[trigger] rs[i], f),
    decreases rs.len(),
{
    if rs.len() > 0 {
        let init = rs.drop_last();
        let last = rs.last();
        assert(distinct_paths(init)) by {
            assert forall|i: int, j: int| 0 <= i < j < init.len() implies init[i].path@
                != init[j].path@ by {
                assert(init[i] == rs[i] && init[j] == rs[j]);
            }
        }
        lemma_run_settles(t, init, f, content);
        let u0 = run(t, init, f, content);
        let u = run(t, rs, f, content);
        assert forall|i: int| 0 <= i < rs.len() implies is_settled(u, #[trigger] rs[i], f) by {
            if i < rs.len() - 1 {
                assert(init[i] == rs[i]);
                assert(is_settled(u0, rs[i], f));
                assert(rs[i].path@ != last.path@);
            }
        }
    }
}

/// Idempotence: on a set of files (distinct paths) whose content did not
/// change, a second run leaves the index exactly as the first run left it.
pub proof fn law_second_run_changes_nothing(
    t: IndexTables,
    rs: Seq<FileRecord>,
    f: CandidateFilter,
    content: spec_fn(Seq<char>) -> u32,
)
    requires
        distinct_paths(rs),
    ensures
        run(run(t, rs, f, content), rs, f, content) == run(t, rs, f, content),
{
    lemma_run_settles(t, rs, f, content);
    lemma_run_settled(run(t, rs, f, content), rs, f, content);
}

/// Staleness triggers a recompute: a candidate whose path is indexed under a
/// different watermark ends up stored with the fingerprint of its new content,
/// with the new watermark, and is recorded in that fingerprint's log.
pub proof fn law_stale_is_refingerprinted(
    t: IndexTables,
    r: FileRecord,
    f: CandidateFilter,
    content: spec_fn(Seq<char>) -> u32,
)
    requires
        is_candidate_spec(r, f),
        t.fingerprints.contains_key(r.path@),
        t.times.contains_key(r.path@),
        t.times[r.path@] != timestamp_of(r.modified),
    ensures
        process(t, r, f, content).fingerprints[r.path@] == content(r.path@),
        process(t, r, f, content).times[r.path@] == timestamp_of(r.modified),
        process(t, r, f, content).logs.contains_key(content(r.path@)),
{
}

/// No work on an unchanged record: when the stored watermark equals the
/// record's, the status is `Unchanged` (so no fingerprint is computed) and the
/// tables stay as they are.
pub proof fn law_unchanged_is_left_alone(
    t: IndexTables,
    r: FileRecord,
    f: CandidateFilter,
    content: spec_fn(Seq<char>) -> u32,
)
    requires
        t.fingerprints.contains_key(r.path@),
        t.times.contains_key(r.path@),
        t.times[r.path@] == timestamp_of(r.modified),
    ensures
        status_in(t, r.path@, timestamp_of(r.modified)) == ChangeStatus::Unchanged,
        process(t, r, f, content) == t,
{
}

/// Per-path serialization: two updates of one new path, applied one after the
/// other in either order, leave exactly one of the two (fingerprint, watermark)
/// pairs stored for it.
pub proof fn law_one_of_two_updates_wins(
    t: IndexTables,
    path: Seq<char>,
    fp1: u32,
    time1: Seq<char>,
    fp2: u32,
    time2: Seq<char>,
)
    requires
        !t.fingerprints.contains_key(path),
    ensures
        ({
            let u = after_two(t, path, fp1, time1, fp2, time2);
            (u.fingerprints[path] == fp1 && u.times[path] == time1) || (u.fingerprints[path]
                == fp2 && u.times[path] == time2)
        }),
        ({
            let u = after_two(t, path, fp2, time2, fp1, time1);
            (u.fingerprints[path] == fp1 && u.times[path] == time1) || (u.fingerprints[path]
                == fp2 && u.times[path] == time2)
        }),
{
}

/// Two serialized submissions for one path: each re-checks the status inside
/// its own transaction and writes only when the path is not unchanged.
pub open spec fn after_two(
    t: IndexTables,
    path: Seq<char>,
    fp1: u32,
    time1: Seq<char>,
    fp2: u32,
    time2: Seq<char>,
) -> IndexTables {
    let u = if status_in(t, path, time1) == ChangeStatus::Unchanged {
        t
    } else {
        apply_put(t, path, fp1, time1)
    };
    if status_in(u, path, time2) == ChangeStatus::Unchanged {
        u
    } else {
        apply_put(u, path, fp2, time2)
    }
}

/// Whether `path` is one of the newline-separated lines of `log`.
pub open spec fn logged_in(log: Seq<char>, path: Seq<char>) -> bool {
    exists|i: int|
        0 <= i && i + path.len() <= log.len() && #[trigger] log.subrange(i, i + path.len()) == path
            && (i == 0 || log[i - 1] == '\n') && (i + path.len() == log.len() || log[i
            + path.len()] == '\n')
}

/// Every indexed path is recorded in the log of its fingerprint.
pub open spec fn entries_logged(t: IndexTables) -> bool {
    forall|p: Seq<char>|
        #[trigger] t.fingerprints.contains_key(p) ==> t.logs.contains_key(t.fingerprints[p])
            && logged_in(t.logs[t.fingerprints[p]], p)
}

proof fn lemma_append_keeps_lines(log: Seq<char>, p: Seq<char>, q: Seq<char>)
    requires
        logged_in(log, p),
    ensures
        logged_in(appended_log(Some(log), q), p),
{
    let i = choose|i: int|
        0 <= i && i + p.len() <= log.len() && #[trigger] log.subrange(i, i + p.len()) == p && (i
            == 0 || log[i - 1] == '\n') && (i + p.len() == log.len() || log[i + p.len()] == '\n');
    let l2 = appended_log(Some(log), q);
    assert(l2 == log + seq!['\n'] + q);
    assert(l2.subrange(i, i + p.len()) =~= log.subrange(i, i + p.len()));
    if i > 0 {
        assert(l2[i - 1] == log[i - 1]);
    }
    if i + p.len() < log.len() {
        assert(l2[i + p.len()] == log[i + p.len()]);
    } else {
        assert(l2[i + p.len()] == '\n');
    }
}

proof fn lemma_appended_is_logged(old_log: Option<Seq<char>>, q: Seq<char>)
    ensures
        logged_in(appended_log(old_log, q), q),
{
    let l2 = appended_log(old_log, q);
    match old_log {
        Some(l) => {
            let i: int = l.len() as int + 1;
            assert(l2 == l + seq!['\n'] + q);
            assert(l2.subrange(i, i + q.len() as int) =~= q);
            assert(l2[i - 1] == '\n');
            assert(i + q.len() == l2.len());
            assert(l2.subrange(i, i + q.len()) == q);
        },
        None => {
            let z: int = 0;
            assert(l2.subrange(z, z + q.len()) =~= q);
        },
    }
}

/// The path log is a history: appending keeps the old log as a prefix, so each
/// earlier line is still there (an equal path is not deduplicated), and the new
/// path becomes a line of its own.
pub proof fn law_append_keeps_history(old_log: Option<Seq<char>>, path: Seq<char>, p: Seq<char>)
    ensures
        logged_in(appended_log(old_log, path), path),
        old_log is Some ==> appended_log(old_log, path).subrange(0, old_log->0.len() as int)
            == old_log->0,
        old_log is Some && logged_in(old_log->0, p) ==> logged_in(appended_log(old_log, path), p),
{
    lemma_appended_is_logged(old_log, path);
    if let Some(l) = old_log {
        assert(appended_log(old_log, path).subrange(0, l.len() as int) =~= l);
        if logged_in(l, p) {
            lemma_append_keeps_lines(l, p, path);
        }
    }
}

/// The reverse index stays complete: when every indexed path is recorded in
/// its fingerprint's log, this still holds after one atomic entry update. An
/// empty index has the property, and the update is the only write, so no
/// state shows a fingerprint entry without its reverse entry.
pub proof fn law_update_keeps_entries_logged(
    t: IndexTables,
    path: Seq<char>,
    fp: u32,
    time: Seq<char>,
)
    requires
        entries_logged(t),
    ensures
        entries_logged(apply_put(t, path, fp, time)),
{
    let u = apply_put(t, path, fp, time);
    assert forall|p: Seq<char>| #[trigger] u.fingerprints.contains_key(p) implies u.logs.contains_key(
        u.fingerprints[p],
    ) && logged_in(u.logs[u.fingerprints[p]], p) by {
        if p == path {
            lemma_appended_is_logged(lookup(t.logs, fp), path);
        } else {
            assert(t.fingerprints.contains_key(p));
            let f = t.fingerprints[p];
            if f == fp {
                lemma_append_keeps_lines(t.logs[f], p, path);
            }
        }
    }
}

/// Nothing is ever deleted: an entry update keeps every indexed path and
/// every watermark key, and each existing log is a prefix of its new value.
pub proof fn law_update_deletes_nothing(t: IndexTables, path: Seq<char>, fp: u32, time: Seq<char>)
    ensures
        t.fingerprints.dom().subset_of(apply_put(t, path, fp, time).fingerprints.dom()),
        t.times.dom().subset_of(apply_put(t, path, fp, time).times.dom()),
        forall|f: u32| #[trigger]
            t.logs.contains_key(f) ==> apply_put(t, path, fp, time).logs.contains_key(f)
                && apply_put(t, path, fp, time).logs[f].subrange(0, t.logs[f].len() as int)
                == t.logs[f],
{
    let u = apply_put(t, path, fp, time);
    assert forall|f: u32| #[trigger] t.logs.contains_key(f) implies u.logs.contains_key(f)
        && u.logs[f].subrange(0, t.logs[f].len() as int) == t.logs[f] by {
        if f == fp {
            assert(u.logs[f].subrange(0, t.logs[f].len() as int) =~= t.logs[f]);
        }
    }
}

/// The path table and the watermark table always have the same keys: an
/// entry update writes both for its path.
pub proof fn law_update_keeps_domains_equal(
    t: IndexTables,
    path: Seq<char>,
    fp: u32,
    time: Seq<char>,
)
    requires
        t.fingerprints.dom() == t.times.dom(),
    ensures
        apply_put(t, path, fp, time).fingerprints.dom() == apply_put(t, path, fp, time).times.dom(),
{
    assert(apply_put(t, path, fp, time).fingerprints.dom() =~= apply_put(
        t,
        path,
        fp,
        time,
    ).times.dom());
}

/// An empty index trivially records every indexed path in its log.
pub proof fn law_empty_index_is_logged()
    ensures
        entries_logged(
            IndexTables { fingerprints: Map::empty(), logs: Map::empty(), times: Map::empty() },
        ),
{
}

} // verus!
