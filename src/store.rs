use vstd::prelude::*;
use redb::ReadableTable;
use crate::model::{apply_put, lookup, process, status_in, IndexTables};
use crate::policy::{append_log, appended_log, classify, needs_fingerprint, text_view, ChangeStatus};
use crate::record::{is_candidate_spec, timestamp_of, CandidateFilter, FileRecord};

verus! {

#[verifier::external_type_specification]
#[verifier::external_body]
pub struct ExDatabase(redb::Database);

#[verifier::external_type_specification]
#[verifier::external_body]
pub struct ExWriteTransaction(redb::WriteTransaction);

#[verifier::external_type_specification]
#[verifier::external_body]
pub struct ExReadTransaction(redb::ReadTransaction);

#[verifier::external_type_specification]
#[verifier::external_body]
pub struct ExRedbError(redb::Error);

/// Table of path to fingerprint.
pub const FINGERPRINT_TABLE: &'static str = "PATH_CRC32";

/// Table of fingerprint to path log.
pub const LOG_TABLE: &'static str = "CRC32_PATH";

/// Table of path to watermark.
pub const TIME_TABLE: &'static str = "PATH_DATE";

/// The path-to-`u32` table named `table`, as the write transaction sees it.
pub uninterp spec fn staged_fingerprints(txn: redb::WriteTransaction, table: Seq<char>) -> Map<
    Seq<char>,
    u32,
>;

/// The path-to-text table named `table`, as the write transaction sees it.
pub uninterp spec fn staged_texts(txn: redb::WriteTransaction, table: Seq<char>) -> Map<
    Seq<char>,
    Seq<char>,
>;

/// The `u32`-to-text table named `table`, as the write transaction sees it.
pub uninterp spec fn staged_logs(txn: redb::WriteTransaction, table: Seq<char>) -> Map<
    u32,
    Seq<char>,
>;

/// Every table seen by `txn`, but the path-to-`u32` table `table`, is as in `before`.
pub open spec fn others_kept_but_fingerprints(
    before: redb::WriteTransaction,
    after: redb::WriteTransaction,
    table: Seq<char>,
) -> bool {
    &&& forall|n: Seq<char>|
        n != table ==> #[trigger] staged_fingerprints(after, n) == staged_fingerprints(before, n)
    &&& forall|n: Seq<char>| #[trigger] staged_texts(after, n) == staged_texts(before, n)
    &&& forall|n: Seq<char>| #[trigger] staged_logs(after, n) == staged_logs(before, n)
}

pub open spec fn others_kept_but_texts(
    before: redb::WriteTransaction,
    after: redb::WriteTransaction,
    table: Seq<char>,
) -> bool {
    &&& forall|n: Seq<char>| #[trigger] staged_fingerprints(after, n) == staged_fingerprints(before, n)
    &&& forall|n: Seq<char>|
        n != table ==> #[trigger] staged_texts(after, n) == staged_texts(before, n)
    &&& forall|n: Seq<char>| #[trigger] staged_logs(after, n) == staged_logs(before, n)
}

pub open spec fn others_kept_but_logs(
    before: redb::WriteTransaction,
    after: redb::WriteTransaction,
    table: Seq<char>,
) -> bool {
    &&& forall|n: Seq<char>| #[trigger] staged_fingerprints(after, n) == staged_fingerprints(before, n)
    &&& forall|n: Seq<char>| #[trigger] staged_texts(after, n) == staged_texts(before, n)
    &&& forall|n: Seq<char>|
        n != table ==> #[trigger] staged_logs(after, n) == staged_logs(before, n)
}

/// Whether the write transaction `txn` was begun on the database `db`.
pub uninterp spec fn write_belongs(txn: redb::WriteTransaction, db: redb::Database) -> bool;

/// Whether the staged contents of `txn` were committed to its database.
pub uninterp spec fn committed(txn: redb::WriteTransaction) -> bool;

/// Whether the read transaction `txn` is a snapshot of the database `db`.
pub uninterp spec fn read_belongs(txn: redb::ReadTransaction, db: redb::Database) -> bool;

/// `t1` is a state of a write transaction on `db`, committed, that began as `t0`.
pub open spec fn committed_change(
    db: redb::Database,
    t0: redb::WriteTransaction,
    t1: redb::WriteTransaction,
) -> bool {
    write_belongs(t0, db) && write_belongs(t1, db) && committed(t1)
}

/// A mutation of a write transaction keeps the database it belongs to.
pub open spec fn same_database(before: redb::WriteTransaction, after: redb::WriteTransaction) -> bool {
    forall|d: redb::Database| #[trigger] write_belongs(after, d) == write_belongs(before, d)
}

/// Relies on redb's `Database::begin_write`.
#[verifier::external_body]
fn begin_write(db: &redb::Database) -> (r: Result<redb::WriteTransaction, redb::Error>)
    ensures
        r is Ok ==> write_belongs(r->Ok_0, *db),
{
    db.begin_write().map_err(redb::Error::from)
}

/// Relies on redb's `Database::begin_read`.
#[verifier::external_body]
fn begin_read(db: &redb::Database) -> (r: Result<redb::ReadTransaction, redb::Error>)
    ensures
        r is Ok ==> read_belongs(r->Ok_0, *db),
{
    db.begin_read().map_err(redb::Error::from)
}

/// Relies on redb's `WriteTransaction::commit`.
#[verifier::external_body]
fn commit(txn: redb::WriteTransaction) -> (r: Result<(), redb::Error>)
    ensures
        r is Ok ==> committed(txn),
{
    txn.commit().map_err(redb::Error::from)
}

/// Relies on redb's `WriteTransaction::open_table`, which creates each table
/// that does not exist yet and leaves the contents of one that does.
#[verifier::external_body]
fn create_tables(
    txn: &mut redb::WriteTransaction,
    fingerprints: &str,
    logs: &str,
    times: &str,
) -> (r: Result<(), redb::Error>)
    requires
        fingerprints@.len() > 0,
        logs@.len() > 0,
        times@.len() > 0,
    ensures
        same_database(*old(txn), *final(txn)),
        r is Ok ==> forall|n: Seq<char>| #[trigger] staged_fingerprints(*final(txn), n)
            == staged_fingerprints(*old(txn), n),
        r is Ok ==> forall|n: Seq<char>| #[trigger] staged_texts(*final(txn), n) == staged_texts(
            *old(txn),
            n,
        ),
        r is Ok ==> forall|n: Seq<char>| #[trigger] staged_logs(*final(txn), n) == staged_logs(
            *old(txn),
            n,
        ),
{
    txn.open_table(redb::TableDefinition::<String, u32>::new(fingerprints))?;
    txn.open_table(redb::TableDefinition::<u32, String>::new(logs))?;
    txn.open_table(redb::TableDefinition::<String, String>::new(times))?;
    Ok(())
}

/// Relies on redb's `WriteTransaction::open_table` and `Table::get`: the value
/// under `key` in the transaction's view of the table.
#[verifier::external_body]
fn staged_fingerprint(txn: &redb::WriteTransaction, table: &str, key: &str) -> (r: Result<
    Option<u32>,
    redb::Error,
>)
    requires
        table@.len() > 0,
    ensures
        r is Ok ==> r->Ok_0 == lookup(staged_fingerprints(*txn, table@), key@),
{
    let t = txn.open_table(redb::TableDefinition::<String, u32>::new(table))?;
    let v = t.get(key.to_string())?.map(|g| g.value());
    Ok(v)
}

/// Relies on redb's `WriteTransaction::open_table` and `Table::get`.
#[verifier::external_body]
fn staged_text(txn: &redb::WriteTransaction, table: &str, key: &str) -> (r: Result<
    Option<String>,
    redb::Error,
>)
    requires
        table@.len() > 0,
    ensures
        r is Ok ==> (match r->Ok_0 {
            Some(s) => lookup(staged_texts(*txn, table@), key@) == Some(s@),
            None => lookup(staged_texts(*txn, table@), key@) is None,
        }),
{
    let t = txn.open_table(redb::TableDefinition::<String, String>::new(table))?;
    let v = t.get(key.to_string())?.map(|g| g.value());
    Ok(v)
}

/// Relies on redb's `WriteTransaction::open_table` and `Table::get`.
#[verifier::external_body]
fn staged_log(txn: &redb::WriteTransaction, table: &str, key: u32) -> (r: Result<
    Option<String>,
    redb::Error,
>)
    requires
        table@.len() > 0,
    ensures
        r is Ok ==> (match r->Ok_0 {
            Some(s) => lookup(staged_logs(*txn, table@), key) == Some(s@),
            None => lookup(staged_logs(*txn, table@), key) is None,
        }),
{
    let t = txn.open_table(redb::TableDefinition::<u32, String>::new(table))?;
    let v = t.get(key)?.map(|g| g.value());
    Ok(v)
}

/// Relies on redb's `WriteTransaction::open_table` and `Table::insert`: the
/// pair replaces any earlier value of `key` in that table only.
#[verifier::external_body]
fn stage_fingerprint(txn: &mut redb::WriteTransaction, table: &str, key: &str, value: u32) -> (r:
    Result<(), redb::Error>)
    requires
        table@.len() > 0,
    ensures
        same_database(*old(txn), *final(txn)),
        r is Ok ==> staged_fingerprints(*final(txn), table@) == staged_fingerprints(
            *old(txn),
            table@,
        ).insert(key@, value),
        r is Ok ==> others_kept_but_fingerprints(*old(txn), *final(txn), table@),
{
    let mut t = txn.open_table(redb::TableDefinition::<String, u32>::new(table))?;
    t.insert(key.to_string(), value)?;
    Ok(())
}

/// Relies on redb's `WriteTransaction::open_table` and `Table::insert`.
#[verifier::external_body]
fn stage_text(txn: &mut redb::WriteTransaction, table: &str, key: &str, value: &str) -> (r: Result<
    (),
    redb::Error,
>)
    requires
        table@.len() > 0,
    ensures
        same_database(*old(txn), *final(txn)),
        r is Ok ==> staged_texts(*final(txn), table@) == staged_texts(*old(txn), table@).insert(
            key@,
            value@,
        ),
        r is Ok ==> others_kept_but_texts(*old(txn), *final(txn), table@),
{
    let mut t = txn.open_table(redb::TableDefinition::<String, String>::new(table))?;
    t.insert(key.to_string(), value.to_string())?;
    Ok(())
}

/// Relies on redb's `WriteTransaction::open_table` and `Table::insert`.
#[verifier::external_body]
fn stage_log(txn: &mut redb::WriteTransaction, table: &str, key: u32, value: &str) -> (r: Result<
    (),
    redb::Error,
>)
    requires
        table@.len() > 0,
    ensures
        same_database(*old(txn), *final(txn)),
        r is Ok ==> staged_logs(*final(txn), table@) == staged_logs(*old(txn), table@).insert(
            key,
            value@,
        ),
        r is Ok ==> others_kept_but_logs(*old(txn), *final(txn), table@),
{
    let mut t = txn.open_table(redb::TableDefinition::<u32, String>::new(table))?;
    t.insert(key, value.to_string())?;
    Ok(())
}

/// The path-to-`u32` table named `table` in the snapshot that a read transaction sees.
pub uninterp spec fn snapshot_fingerprints(txn: redb::ReadTransaction, table: Seq<char>) -> Map<
    Seq<char>,
    u32,
>;

/// The path-to-text table named `table` in the snapshot of a read transaction.
pub uninterp spec fn snapshot_texts(txn: redb::ReadTransaction, table: Seq<char>) -> Map<
    Seq<char>,
    Seq<char>,
>;

/// The `u32`-to-text table named `table` in the snapshot of a read transaction.
pub uninterp spec fn snapshot_logs(txn: redb::ReadTransaction, table: Seq<char>) -> Map<
    u32,
    Seq<char>,
>;

/// Whether the snapshot of a read transaction holds a table named `table`.
pub uninterp spec fn snapshot_has_table(txn: redb::ReadTransaction, table: Seq<char>) -> bool;

/// Relies on redb's `ReadTransaction::open_table` (an error when the table does
/// not exist) and `ReadOnlyTable::get`: the value under `key` in the transaction's snapshot of the table.
#[verifier::external_body]
fn stored_fingerprint(txn: &redb::ReadTransaction, table: &str, key: &str) -> (r: Result<
    Option<u32>,
    redb::Error,
>)
    requires
        table@.len() > 0,
    ensures
        r is Ok ==> r->Ok_0 == lookup(snapshot_fingerprints(*txn, table@), key@),
        r is Ok ==> snapshot_has_table(*txn, table@),
{
    let t = txn.open_table(redb::TableDefinition::<String, u32>::new(table))?;
    let v = t.get(key.to_string())?.map(|g| g.value());
    Ok(v)
}

/// Relies on redb's `ReadTransaction::open_table` and `ReadOnlyTable::get`.
#[verifier::external_body]
fn stored_text(txn: &redb::ReadTransaction, table: &str, key: &str) -> (r: Result<
    Option<String>,
    redb::Error,
>)
    requires
        table@.len() > 0,
    ensures
        r is Ok ==> text_view(r->Ok_0) == lookup(snapshot_texts(*txn, table@), key@),
        r is Ok ==> snapshot_has_table(*txn, table@),
{
    let t = txn.open_table(redb::TableDefinition::<String, String>::new(table))?;
    let v = t.get(key.to_string())?.map(|g| g.value());
    Ok(v)
}

/// Relies on redb's `ReadTransaction::open_table` and `ReadOnlyTable::get`.
#[verifier::external_body]
fn stored_log(txn: &redb::ReadTransaction, table: &str, key: u32) -> (r: Result<
    Option<String>,
    redb::Error,
>)
    requires
        table@.len() > 0,
    ensures
        r is Ok ==> text_view(r->Ok_0) == lookup(snapshot_logs(*txn, table@), key),
        r is Ok ==> snapshot_has_table(*txn, table@),
{
    let t = txn.open_table(redb::TableDefinition::<u32, String>::new(table))?;
    let v = t.get(key)?.map(|g| g.value());
    Ok(v)
}

/// The three index tables as a write transaction sees them.
pub open spec fn tables_of(txn: redb::WriteTransaction) -> IndexTables {
    IndexTables {
        fingerprints: staged_fingerprints(txn, FINGERPRINT_TABLE@),
        logs: staged_logs(txn, LOG_TABLE@),
        times: staged_texts(txn, TIME_TABLE@),
    }
}

/// The three index tables in the snapshot of a read transaction.
pub open spec fn snapshot_of(txn: redb::ReadTransaction) -> IndexTables {
    IndexTables {
        fingerprints: snapshot_fingerprints(txn, FINGERPRINT_TABLE@),
        logs: snapshot_logs(txn, LOG_TABLE@),
        times: snapshot_texts(txn, TIME_TABLE@),
    }
}

/// A failure of the storage engine, by the step at which it came.
#[derive(Debug)]
pub enum StoreError {
    /// A transaction could not be begun.
    Begin(redb::Error),
    /// A table could not be opened or read.
    Read(redb::Error),
    /// A table could not be written.
    Write(redb::Error),
    /// The commit failed; nothing of the transaction is visible.
    Commit(redb::Error),
}

/// The index store: three tables of one transactional database.
pub struct NtfsDataBase {
    db: redb::Database,
}

/// Stages the update of one entry in `txn`: the path's fingerprint, the path
/// appended to the fingerprint's log, and the path's watermark. Nothing is
/// committed here; a caller that gets an error drops the transaction.
pub fn stage_entry(txn: &mut redb::WriteTransaction, path: &str, fp: u32, time: &str) -> (r: Result<
    (),
    StoreError,
>)
    ensures
        same_database(*old(txn), *final(txn)),
        r is Ok ==> tables_of(*final(txn)) == apply_put(tables_of(*old(txn)), path@, fp, time@),
{
    proof {
        reveal_strlit("PATH_CRC32");
        reveal_strlit("CRC32_PATH");
        reveal_strlit("PATH_DATE");
    }
    let old_log = match staged_log(txn, LOG_TABLE, fp) {
        Ok(l) => l,
        Err(e) => return Err(StoreError::Read(e)),
    };
    let log = append_log(old_log, path);
    match stage_fingerprint(txn, FINGERPRINT_TABLE, path, fp) {
        Ok(()) => {},
        Err(e) => return Err(StoreError::Write(e)),
    }
    match stage_log(txn, LOG_TABLE, fp, log.as_str()) {
        Ok(()) => {},
        Err(e) => return Err(StoreError::Write(e)),
    }
    match stage_text(txn, TIME_TABLE, path, time) {
        Ok(()) => {},
        Err(e) => return Err(StoreError::Write(e)),
    }
    Ok(())
}

/// Inside one write transaction: re-checks the record's status against what the
/// transaction sees and, unless the path is unchanged, stages its entry with
/// fingerprint `fp`. Returns whether an entry was staged.
pub fn decide_and_stage(txn: &mut redb::WriteTransaction, record: &FileRecord, fp: u32) -> (r:
    Result<bool, StoreError>)
    ensures
        same_database(*old(txn), *final(txn)),
        ({
            let time = timestamp_of(record.modified);
            let status = status_in(tables_of(*old(txn)), record.path@, time);
            match r {
                Ok(true) => status != ChangeStatus::Unchanged && tables_of(*final(txn))
                    == apply_put(tables_of(*old(txn)), record.path@, fp, time),
                Ok(false) => status == ChangeStatus::Unchanged && *final(txn) == *old(txn),
                Err(_) => true,
            }
        }),
        r is Ok ==> forall|f: CandidateFilter, content: spec_fn(Seq<char>) -> u32|
            is_candidate_spec(*record, f) && content(record.path@) == fp ==> #[trigger] process(
                tables_of(*old(txn)),
                *record,
                f,
                content,
            ) == tables_of(*final(txn)),
{
    proof {
        reveal_strlit("PATH_CRC32");
        reveal_strlit("PATH_DATE");
    }
    let time = record.timestamp();
    let stored_fp = match staged_fingerprint(txn, FINGERPRINT_TABLE, record.path.as_str()) {
        Ok(v) => v,
        Err(e) => return Err(StoreError::Read(e)),
    };
    let stored_time = match staged_text(txn, TIME_TABLE, record.path.as_str()) {
        Ok(v) => v,
        Err(e) => return Err(StoreError::Read(e)),
    };
    let status = classify(stored_fp, &stored_time, &time);
    if status == ChangeStatus::Unchanged {
        return Ok(false);
    }
    match stage_entry(txn, record.path.as_str(), fp, time.as_str()) {
        Ok(()) => Ok(true),
        Err(e) => Err(e),
    }
}

/// The status of a record against the snapshot of a read transaction.
pub fn check_in(txn: &redb::ReadTransaction, record: &FileRecord) -> (r: Result<
    ChangeStatus,
    StoreError,
>)
    ensures
        r is Ok ==> r->Ok_0 == status_in(
            snapshot_of(*txn),
            record.path@,
            timestamp_of(record.modified),
        ),
{
    proof {
        reveal_strlit("PATH_CRC32");
        reveal_strlit("PATH_DATE");
    }
    let stored_fp = match stored_fingerprint(txn, FINGERPRINT_TABLE, record.path.as_str()) {
        Ok(v) => v,
        Err(e) => return Err(StoreError::Read(e)),
    };
    let stored_time = match stored_text(txn, TIME_TABLE, record.path.as_str()) {
        Ok(v) => v,
        Err(e) => return Err(StoreError::Read(e)),
    };
    let time = record.timestamp();
    Ok(classify(stored_fp, &stored_time, &time))
}

impl NtfsDataBase {
    /// The database this store keeps its tables in.
    pub closed spec fn database(&self) -> redb::Database {
        self.db
    }

    /// Takes an opened database and makes sure that the three tables exist:
    /// created empty when absent, their contents kept otherwise. An error here
    /// means the store cannot be used.
    pub fn new(db: redb::Database) -> (r: Result<NtfsDataBase, StoreError>)
        ensures
            r is Ok ==> r->Ok_0.database() == db,
            r is Ok ==> exists|t0: redb::WriteTransaction, t1: redb::WriteTransaction|
                #[trigger] committed_change(db, t0, t1) && tables_of(t1) == tables_of(t0),
            r is Ok ==> exists|s: redb::ReadTransaction|
                #[trigger] read_belongs(s, db) && snapshot_has_table(s, FINGERPRINT_TABLE@)
                    && snapshot_has_table(s, LOG_TABLE@) && snapshot_has_table(s, TIME_TABLE@),
    {
        proof {
            reveal_strlit("PATH_CRC32");
            reveal_strlit("CRC32_PATH");
            reveal_strlit("PATH_DATE");
        }
        let mut txn = match begin_write(&db) {
            Ok(t) => t,
            Err(e) => return Err(StoreError::Begin(e)),
        };
        let ghost t0 = txn;
        match create_tables(&mut txn, FINGERPRINT_TABLE, LOG_TABLE, TIME_TABLE) {
            Ok(()) => {},
            Err(e) => return Err(StoreError::Write(e)),
        }
        let ghost t1 = txn;
        match commit(txn) {
            Ok(()) => {},
            Err(e) => return Err(StoreError::Commit(e)),
        }
        assert(committed_change(db, t0, t1) && tables_of(t1) == tables_of(t0));
        // Each table must now open in a fresh snapshot; the probe keys are arbitrary.
        let snapshot = match begin_read(&db) {
            Ok(t) => t,
            Err(e) => return Err(StoreError::Begin(e)),
        };
        if let Err(e) = stored_fingerprint(&snapshot, FINGERPRINT_TABLE, "") {
            return Err(StoreError::Read(e));
        }
        if let Err(e) = stored_log(&snapshot, LOG_TABLE, 0) {
            return Err(StoreError::Read(e));
        }
        if let Err(e) = stored_text(&snapshot, TIME_TABLE, "") {
            return Err(StoreError::Read(e));
        }
        assert(read_belongs(snapshot, db));
        Ok(NtfsDataBase { db })
    }

    fn begin_write_txn(&self) -> (r: Result<redb::WriteTransaction, StoreError>)
        ensures
            r is Ok ==> write_belongs(r->Ok_0, self.database()),
    {
        match begin_write(&self.db) {
            Ok(t) => Ok(t),
            Err(e) => Err(StoreError::Begin(e)),
        }
    }

    fn begin_read_txn(&self) -> (r: Result<redb::ReadTransaction, StoreError>)
        ensures
            r is Ok ==> read_belongs(r->Ok_0, self.database()),
    {
        match begin_read(&self.db) {
            Ok(t) => Ok(t),
            Err(e) => Err(StoreError::Begin(e)),
        }
    }

    fn commit_txn(txn: redb::WriteTransaction) -> (r: Result<(), StoreError>)
        ensures
            r is Ok ==> committed(txn),
    {
        match commit(txn) {
            Ok(()) => Ok(()),
            Err(e) => Err(StoreError::Commit(e)),
        }
    }

    /// Writes one path's entry atomically: fingerprint, log append and
    /// watermark are staged in one transaction on this store's database and
    /// committed together.
    pub fn put_entry(&self, path: &str, fp: u32, time: &str) -> (r: Result<(), StoreError>)
        ensures
            r is Ok ==> exists|t0: redb::WriteTransaction, t1: redb::WriteTransaction|
                #[trigger] committed_change(self.database(), t0, t1) && tables_of(t1)
                    == apply_put(tables_of(t0), path@, fp, time@),
    {
        let mut txn = self.begin_write_txn()?;
        let ghost t0 = txn;
        stage_entry(&mut txn, path, fp, time)?;
        let ghost t1 = txn;
        Self::commit_txn(txn)?;
        assert(committed_change(self.database(), t0, t1) && tables_of(t1) == apply_put(
            tables_of(t0),
            path@,
            fp,
            time@,
        ));
        Ok(())
    }

    /// Re-checks a record in a write transaction on this store's database and,
    /// unless it is unchanged there, commits its entry with fingerprint `fp`.
    /// Returns whether it wrote.
    pub fn commit_record(&self, record: &FileRecord, fp: u32) -> (r: Result<bool, StoreError>)
        ensures
            r == Ok::<bool, StoreError>(true) ==> exists|
                t0: redb::WriteTransaction,
                t1: redb::WriteTransaction,
            |
                #[trigger] committed_change(self.database(), t0, t1) && status_in(
                    tables_of(t0),
                    record.path@,
                    timestamp_of(record.modified),
                ) != ChangeStatus::Unchanged && tables_of(t1) == apply_put(
                    tables_of(t0),
                    record.path@,
                    fp,
                    timestamp_of(record.modified),
                ),
            r == Ok::<bool, StoreError>(false) ==> exists|t0: redb::WriteTransaction|
                #[trigger] write_belongs(t0, self.database()) && status_in(
                    tables_of(t0),
                    record.path@,
                    timestamp_of(record.modified),
                ) == ChangeStatus::Unchanged,
    {
        let mut txn = self.begin_write_txn()?;
        let ghost t0 = txn;
        let staged = decide_and_stage(&mut txn, record, fp)?;
        let ghost t1 = txn;
        if staged {
            Self::commit_txn(txn)?;
            assert(committed_change(self.database(), t0, t1));
        } else {
            assert(write_belongs(t0, self.database()));
        }
        Ok(staged)
    }

    /// The record's status against a snapshot of this store, read without
    /// taking the write lock. It is a hint for whether to fingerprint at all;
    /// `commit_record` decides again before writing.
    pub fn check(&self, record: &FileRecord) -> (r: Result<ChangeStatus, StoreError>)
        ensures
            r is Ok ==> exists|s: redb::ReadTransaction|
                #[trigger] read_belongs(s, self.database()) && r->Ok_0 == status_in(
                    snapshot_of(s),
                    record.path@,
                    timestamp_of(record.modified),
                ),
    {
        let txn = self.begin_read_txn()?;
        let r = check_in(&txn, record);
        assert(read_belongs(txn, self.database()));
        r
    }

    /// The first step for one record: whether its file is to be fingerprinted.
    /// Directories and records that the filter leaves out never are; a
    /// candidate is exactly when, in a snapshot of this store, it is not `Unchanged`.
    pub fn wants_fingerprint(&self, filter: &CandidateFilter, record: &FileRecord) -> (r: Result<
        bool,
        StoreError,
    >)
        ensures
            !is_candidate_spec(*record, *filter) ==> r == Ok::<bool, StoreError>(false),
            r is Ok && is_candidate_spec(*record, *filter) ==> exists|s: redb::ReadTransaction|
                #[trigger] read_belongs(s, self.database()) && r->Ok_0 == (status_in(
                    snapshot_of(s),
                    record.path@,
                    timestamp_of(record.modified),
                ) != ChangeStatus::Unchanged),
    {
        if !filter.is_candidate(record) {
            return Ok(false);
        }
        let status = self.check(record)?;
        let b = needs_fingerprint(status);
        proof {
            let s = choose|s: redb::ReadTransaction|
                #[trigger] read_belongs(s, self.database()) && status == status_in(
                    snapshot_of(s),
                    record.path@,
                    timestamp_of(record.modified),
                );
            assert(read_belongs(s, self.database()) && b == (status_in(
                snapshot_of(s),
                record.path@,
                timestamp_of(record.modified),
            ) != ChangeStatus::Unchanged));
        }
        Ok(b)
    }

    /// Stores the fingerprint of a path, in a committed transaction of its own;
    /// the other tables are kept.
    pub fn insert_crc32(&self, key: String, value: u32) -> (r: Result<(), StoreError>)
        ensures
            r is Ok ==> exists|t0: redb::WriteTransaction, t1: redb::WriteTransaction|
                #[trigger] committed_change(self.database(), t0, t1) && tables_of(t1) == (
                IndexTables {
                    fingerprints: tables_of(t0).fingerprints.insert(key@, value),
                    ..tables_of(t0)
                }),
    {
        proof {
            reveal_strlit("PATH_CRC32");
            reveal_strlit("CRC32_PATH");
            reveal_strlit("PATH_DATE");
        }
        let mut txn = self.begin_write_txn()?;
        let ghost t0 = txn;
        match stage_fingerprint(&mut txn, FINGERPRINT_TABLE, key.as_str(), value) {
            Ok(()) => {},
            Err(e) => return Err(StoreError::Write(e)),
        }
        let ghost t1 = txn;
        Self::commit_txn(txn)?;
        assert(committed_change(self.database(), t0, t1) && tables_of(t1) == (IndexTables {
            fingerprints: tables_of(t0).fingerprints.insert(key@, value),
            ..tables_of(t0)
        }));
        Ok(())
    }

    /// The fingerprint stored for a path, read from a snapshot of this store.
    pub fn get_crc32(&self, key: String) -> (r: Result<Option<u32>, StoreError>)
        ensures
            r is Ok ==> exists|s: redb::ReadTransaction|
                #[trigger] read_belongs(s, self.database()) && r->Ok_0 == lookup(
                    snapshot_of(s).fingerprints,
                    key@,
                ),
    {
        proof {
            reveal_strlit("PATH_CRC32");
        }
        let txn = self.begin_read_txn()?;
        match stored_fingerprint(&txn, FINGERPRINT_TABLE, key.as_str()) {
            Ok(v) => {
                assert(read_belongs(txn, self.database()) && v == lookup(
                    snapshot_of(txn).fingerprints,
                    key@,
                ));
                Ok(v)
            },
            Err(e) => Err(StoreError::Read(e)),
        }
    }

    /// Appends a path to the log of a fingerprint (read, append, write back),
    /// in a committed transaction of its own; the other tables are kept.
    pub fn insert_path(&self, key: u32, value: String) -> (r: Result<(), StoreError>)
        ensures
            r is Ok ==> exists|t0: redb::WriteTransaction, t1: redb::WriteTransaction|
                #[trigger] committed_change(self.database(), t0, t1) && tables_of(t1) == (
                IndexTables {
                    logs: tables_of(t0).logs.insert(
                        key,
                        appended_log(lookup(tables_of(t0).logs, key), value@),
                    ),
                    ..tables_of(t0)
                }),
    {
        proof {
            reveal_strlit("PATH_CRC32");
            reveal_strlit("CRC32_PATH");
            reveal_strlit("PATH_DATE");
        }
        let mut txn = self.begin_write_txn()?;
        let ghost t0 = txn;
        let old_log = match staged_log(&txn, LOG_TABLE, key) {
            Ok(l) => l,
            Err(e) => return Err(StoreError::Read(e)),
        };
        let log = append_log(old_log, value.as_str());
        match stage_log(&mut txn, LOG_TABLE, key, log.as_str()) {
            Ok(()) => {},
            Err(e) => return Err(StoreError::Write(e)),
        }
        let ghost t1 = txn;
        Self::commit_txn(txn)?;
        assert(committed_change(self.database(), t0, t1) && tables_of(t1) == (IndexTables {
            logs: tables_of(t0).logs.insert(
                key,
                appended_log(lookup(tables_of(t0).logs, key), value@),
            ),
            ..tables_of(t0)
        }));
        Ok(())
    }

    /// The newline-delimited log of the paths seen with a fingerprint, read
    /// from a snapshot of this store.
    pub fn get_path(&self, key: u32) -> (r: Result<Option<String>, StoreError>)
        ensures
            r is Ok ==> exists|s: redb::ReadTransaction|
                #[trigger] read_belongs(s, self.database()) && text_view(r->Ok_0) == lookup(
                    snapshot_of(s).logs,
                    key,
                ),
    {
        proof {
            reveal_strlit("CRC32_PATH");
        }
        let txn = self.begin_read_txn()?;
        match stored_log(&txn, LOG_TABLE, key) {
            Ok(v) => {
                assert(read_belongs(txn, self.database()) && text_view(v) == lookup(
                    snapshot_of(txn).logs,
                    key,
                ));
                Ok(v)
            },
            Err(e) => Err(StoreError::Read(e)),
        }
    }

    /// Stores the watermark of a path, in a committed transaction of its own;
    /// the other tables are kept.
    pub fn insert_date(&self, key: String, value: String) -> (r: Result<(), StoreError>)
        ensures
            r is Ok ==> exists|t0: redb::WriteTransaction, t1: redb::WriteTransaction|
                #[trigger] committed_change(self.database(), t0, t1) && tables_of(t1) == (
                IndexTables { times: tables_of(t0).times.insert(key@, value@), ..tables_of(t0) }),
    {
        proof {
            reveal_strlit("PATH_CRC32");
            reveal_strlit("CRC32_PATH");
            reveal_strlit("PATH_DATE");
        }
        let mut txn = self.begin_write_txn()?;
        let ghost t0 = txn;
        match stage_text(&mut txn, TIME_TABLE, key.as_str(), value.as_str()) {
            Ok(()) => {},
            Err(e) => return Err(StoreError::Write(e)),
        }
        let ghost t1 = txn;
        Self::commit_txn(txn)?;
        assert(committed_change(self.database(), t0, t1) && tables_of(t1) == (IndexTables {
            times: tables_of(t0).times.insert(key@, value@),
            ..tables_of(t0)
        }));
        Ok(())
    }

    /// The watermark stored for a path, read from a snapshot of this store.
    pub fn get_date(&self, key: String) -> (r: Result<Option<String>, StoreError>)
        ensures
            r is Ok ==> exists|s: redb::ReadTransaction|
                #[trigger] read_belongs(s, self.database()) && text_view(r->Ok_0) == lookup(
                    snapshot_of(s).times,
                    key@,
                ),
    {
        proof {
            reveal_strlit("PATH_DATE");
        }
        let txn = self.begin_read_txn()?;
        match stored_text(&txn, TIME_TABLE, key.as_str()) {
            Ok(v) => {
                assert(read_belongs(txn, self.database()) && text_view(v) == lookup(
                    snapshot_of(txn).times,
                    key@,
                ));
                Ok(v)
            },
            Err(e) => Err(StoreError::Read(e)),
        }
    }
}

} // verus!
