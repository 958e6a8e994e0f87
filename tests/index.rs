use verifile::fingerprint::{calculate_blake2b512, calculate_crc32, Blake2b512Stream, Crc32Stream};
use verifile::policy::{append_log, classify, needs_fingerprint, ChangeStatus};
use verifile::record::{str_ends_with, CandidateFilter, FileRecord};
use verifile::store::{stage_entry, NtfsDataBase, StoreError};

fn memory_db() -> redb::Database {
    redb::Database::builder()
        .create_with_backend(redb::backends::InMemoryBackend::new())
        .unwrap()
}

fn fresh_store() -> NtfsDataBase {
    NtfsDataBase::new(memory_db()).unwrap()
}

fn record(path: &str, time: Option<&str>) -> FileRecord {
    FileRecord {
        path: path.to_string(),
        size: 3,
        is_directory: false,
        modified: time.map(|t| t.to_string()),
    }
}

/// Runs one record through the pipeline: check, fingerprint when needed, commit.
/// Returns how often the fingerprint engine was asked.
fn submit(store: &NtfsDataBase, filter: &CandidateFilter, r: &FileRecord, fp: u32) -> u32 {
    let mut calls = 0;
    if store.wants_fingerprint(filter, r).unwrap() {
        calls += 1;
        store.commit_record(r, fp).unwrap();
    }
    calls
}

#[test]
fn test_index_file_hash() {
    let db = fresh_store();
    let path = String::from("\\\\.\\C:\\Users\\29115\\RustroverProjects\\Verifile\\test.txt");
    let hash = calculate_crc32(path.as_bytes());
    db.insert_crc32(path.clone(), hash).unwrap();
    db.insert_path(hash, path.clone()).unwrap();
    db.insert_date(path.clone(), String::from("0")).unwrap();
    let path = db.get_path(hash).unwrap().unwrap();
    assert_eq!(path, String::from("\\\\.\\C:\\Users\\29115\\RustroverProjects\\Verifile\\test.txt"));
}

#[test]
fn first_submission_is_indexed() {
    let store = fresh_store();
    let filter = CandidateFilter::any();
    let r = record("/a.txt", Some("100"));
    assert_eq!(submit(&store, &filter, &r, 0xDEADBEEF), 1);
    assert_eq!(store.get_crc32("/a.txt".to_string()).unwrap(), Some(0xDEADBEEF));
    let log = store.get_path(0xDEADBEEF).unwrap().unwrap();
    assert!(log.split('\n').any(|p| p == "/a.txt"));
    assert_eq!(store.get_date("/a.txt".to_string()).unwrap(), Some("100".to_string()));
}

#[test]
fn unchanged_resubmission_does_no_work() {
    let store = fresh_store();
    let filter = CandidateFilter::any();
    let r = record("/a.txt", Some("100"));
    submit(&store, &filter, &r, 0xDEADBEEF);
    assert_eq!(submit(&store, &filter, &r, 0x1234), 0);
    assert_eq!(store.check(&r).unwrap(), ChangeStatus::Unchanged);
    assert_eq!(store.get_crc32("/a.txt".to_string()).unwrap(), Some(0xDEADBEEF));
    assert_eq!(store.get_path(0xDEADBEEF).unwrap(), Some("/a.txt".to_string()));
    assert_eq!(store.get_path(0x1234).unwrap(), None);
    assert_eq!(store.get_date("/a.txt".to_string()).unwrap(), Some("100".to_string()));
}

#[test]
fn stale_resubmission_is_refingerprinted() {
    let store = fresh_store();
    let filter = CandidateFilter::any();
    submit(&store, &filter, &record("/a.txt", Some("100")), 0xDEADBEEF);
    let r2 = record("/a.txt", Some("200"));
    assert_eq!(store.check(&r2).unwrap(), ChangeStatus::Stale);
    assert_eq!(submit(&store, &filter, &r2, 0xC0FFEE), 1);
    assert_eq!(store.get_crc32("/a.txt".to_string()).unwrap(), Some(0xC0FFEE));
    assert_eq!(store.get_date("/a.txt".to_string()).unwrap(), Some("200".to_string()));
    assert_eq!(store.get_path(0xDEADBEEF).unwrap(), Some("/a.txt".to_string()));
    assert_eq!(store.get_path(0xC0FFEE).unwrap(), Some("/a.txt".to_string()));
}

#[test]
fn second_run_leaves_the_index_alone() {
    let store = fresh_store();
    let filter = CandidateFilter::any();
    let rs = vec![record("/a", Some("1")), record("/b", None), record("/c", Some("3"))];
    let fps = [11u32, 22, 11];
    let mut calls = 0;
    for (r, fp) in rs.iter().zip(fps.iter()) {
        calls += submit(&store, &filter, r, *fp);
    }
    assert_eq!(calls, 3);
    let snapshot = |s: &NtfsDataBase| {
        (
            s.get_crc32("/a".to_string()).unwrap(),
            s.get_crc32("/b".to_string()).unwrap(),
            s.get_crc32("/c".to_string()).unwrap(),
            s.get_path(11).unwrap(),
            s.get_path(22).unwrap(),
            s.get_date("/b".to_string()).unwrap(),
        )
    };
    let first = snapshot(&store);
    assert_eq!(first.3, Some("/a\n/c".to_string()));
    assert_eq!(first.5, Some("0".to_string()));
    let mut calls = 0;
    for (r, fp) in rs.iter().zip(fps.iter()) {
        calls += submit(&store, &filter, r, *fp);
    }
    assert_eq!(calls, 0);
    assert_eq!(snapshot(&store), first);
}

#[test]
fn two_submissions_of_one_path_leave_one_value() {
    let store = fresh_store();
    let r1 = record("/p", Some("1"));
    let r2 = record("/p", Some("2"));
    // Both saw the path as unseen before fingerprinting; the commits then come in turn.
    assert!(store.wants_fingerprint(&CandidateFilter::any(), &r1).unwrap());
    assert!(store.wants_fingerprint(&CandidateFilter::any(), &r2).unwrap());
    assert!(store.commit_record(&r2, 7).unwrap());
    assert!(store.commit_record(&r1, 9).unwrap());
    assert_eq!(store.get_crc32("/p".to_string()).unwrap(), Some(9));
    assert_eq!(store.get_date("/p".to_string()).unwrap(), Some("1".to_string()));
}

#[test]
fn same_watermark_commit_is_skipped_on_recheck() {
    let store = fresh_store();
    let r = record("/p", Some("5"));
    assert!(store.commit_record(&r, 1).unwrap());
    assert!(!store.commit_record(&r, 2).unwrap());
    assert_eq!(store.get_crc32("/p".to_string()).unwrap(), Some(1));
}

#[test]
fn put_entry_writes_all_three_tables() {
    let store = fresh_store();
    store.put_entry("/x", 5, "9").unwrap();
    store.put_entry("/y", 5, "9").unwrap();
    assert_eq!(store.get_crc32("/x".to_string()).unwrap(), Some(5));
    assert_eq!(store.get_path(5).unwrap(), Some("/x\n/y".to_string()));
    assert_eq!(store.get_date("/y".to_string()).unwrap(), Some("9".to_string()));
}

#[test]
fn reopening_keeps_contents() {
    let db = memory_db();
    let store = NtfsDataBase::new(db).unwrap();
    store.put_entry("/x", 5, "9").unwrap();
    assert_eq!(store.get_crc32("/missing".to_string()).unwrap(), None);
    assert_eq!(store.get_date("/missing".to_string()).unwrap(), None);
}

#[test]
fn mistyped_table_is_a_write_error() {
    let db = memory_db();
    let txn = db.begin_write().unwrap();
    txn.open_table(redb::TableDefinition::<u64, u64>::new("PATH_CRC32")).unwrap();
    txn.commit().unwrap();
    assert!(matches!(NtfsDataBase::new(db), Err(StoreError::Write(_))));
}

#[test]
fn classify_covers_all_statuses() {
    let now = "100".to_string();
    assert_eq!(classify(None, &Some(now.clone()), &now), ChangeStatus::Unseen);
    assert_eq!(classify(Some(1), &Some(now.clone()), &now), ChangeStatus::Unchanged);
    assert_eq!(classify(Some(1), &Some("99".to_string()), &now), ChangeStatus::Stale);
    assert_eq!(classify(Some(1), &None, &now), ChangeStatus::Stale);
    assert!(!needs_fingerprint(ChangeStatus::Unchanged));
    assert!(needs_fingerprint(ChangeStatus::Unseen));
    assert!(needs_fingerprint(ChangeStatus::Stale));
}

#[test]
fn older_watermark_is_stale_too() {
    assert_eq!(classify(Some(1), &Some("200".to_string()), &"100".to_string()), ChangeStatus::Stale);
}

#[test]
fn log_is_appended_with_newlines() {
    assert_eq!(append_log(None, "/a"), "/a");
    assert_eq!(append_log(Some("/a".to_string()), "/b"), "/a\n/b");
    assert_eq!(append_log(Some("/a\n/b".to_string()), "/a"), "/a\n/b\n/a");
}

#[test]
fn absent_time_is_zero() {
    assert_eq!(record("/a", None).timestamp(), "0");
    assert_eq!(record("/a", Some("17")).timestamp(), "17");
}

#[test]
fn filter_selects_candidates() {
    let f = CandidateFilter { max_size: Some(3), required_suffix: Some(".pdf".to_string()) };
    assert!(f.is_candidate(&record("/doc.pdf", None)));
    assert!(!f.is_candidate(&record("/doc.txt", None)));
    let mut big = record("/big.pdf", None);
    big.size = 4;
    assert!(!f.is_candidate(&big));
    let mut dir = record("/dir.pdf", None);
    dir.is_directory = true;
    assert!(!f.is_candidate(&dir));
    assert!(!CandidateFilter::any().is_candidate(&dir));
    assert!(str_ends_with("abc", ""));
    assert!(!str_ends_with("c", "abc"));
    assert!(str_ends_with("ünï.pdf", "ï.pdf"));
}

#[test]
fn filtered_record_is_never_fingerprinted() {
    let store = fresh_store();
    let f = CandidateFilter { max_size: None, required_suffix: Some(".pdf".to_string()) };
    assert_eq!(submit(&store, &f, &record("/a.txt", Some("1")), 3), 0);
    assert_eq!(store.get_crc32("/a.txt".to_string()).unwrap(), None);
}

#[test]
fn crc32_known_value() {
    assert_eq!(calculate_crc32(b"123456789"), 0xCBF43926);
    assert_eq!(calculate_crc32(b""), 0);
}

#[test]
fn crc32_stream_matches_whole() {
    let mut s = Crc32Stream::new();
    s.update(b"1234");
    s.update(b"");
    s.update(b"56789");
    assert_eq!(s.finalize(), 0xCBF43926);
}

#[test]
fn blake2b512_known_values() {
    assert_eq!(
        calculate_blake2b512(b""),
        "786a02f742015903c6c6fd852552d272912f4740e15847618a86e217f71f5419d25e1031afee585313896444934eb04b903a685b1448b755d56f701afe9be2ce"
    );
    assert_eq!(
        calculate_blake2b512(b"abc"),
        "ba80a53f981c4d0d6a2797b69f12f6e94c212f14685ac4b74b12bb6fdbffa2d17d87c5392aab792dc252d5de4533cc9518d38aa8dbf1925ab92386edd4009923"
    );
}

#[test]
fn aborted_entry_leaves_no_trace() {
    let db = memory_db();
    let mut txn = db.begin_write().unwrap();
    stage_entry(&mut txn, "/a", 1, "100").unwrap();
    // A failure before the commit: the transaction is abandoned.
    txn.abort().unwrap();
    let store = NtfsDataBase::new(db).unwrap();
    assert_eq!(store.get_crc32("/a".to_string()).unwrap(), None);
    assert_eq!(store.get_path(1).unwrap(), None);
    assert_eq!(store.get_date("/a".to_string()).unwrap(), None);
    assert_eq!(store.check(&record("/a", Some("100"))).unwrap(), ChangeStatus::Unseen);
}

#[test]
fn committed_entry_is_seen_whole() {
    let db = memory_db();
    let mut txn = db.begin_write().unwrap();
    stage_entry(&mut txn, "/a", 1, "100").unwrap();
    txn.commit().unwrap();
    let store = NtfsDataBase::new(db).unwrap();
    assert_eq!(store.get_crc32("/a".to_string()).unwrap(), Some(1));
    assert_eq!(store.get_path(1).unwrap(), Some("/a".to_string()));
    assert_eq!(store.get_date("/a".to_string()).unwrap(), Some("100".to_string()));
}

#[test]
fn path_log_keeps_repeated_history() {
    let store = fresh_store();
    store.insert_path(4, "/a".to_string()).unwrap();
    store.insert_path(4, "/b".to_string()).unwrap();
    store.insert_path(4, "/a".to_string()).unwrap();
    assert_eq!(store.get_path(4).unwrap(), Some("/a\n/b\n/a".to_string()));
    assert_eq!(store.get_crc32("/a".to_string()).unwrap(), None);
}

#[test]
fn single_table_writes_round_trip() {
    let store = fresh_store();
    store.insert_crc32("/k".to_string(), 8).unwrap();
    store.insert_date("/k".to_string(), "42".to_string()).unwrap();
    assert_eq!(store.get_crc32("/k".to_string()).unwrap(), Some(8));
    assert_eq!(store.get_date("/k".to_string()).unwrap(), Some("42".to_string()));
    assert_eq!(store.get_path(8).unwrap(), None);
    store.insert_crc32("/k".to_string(), 9).unwrap();
    assert_eq!(store.get_crc32("/k".to_string()).unwrap(), Some(9));
}

#[test]
fn reopened_store_keeps_its_contents() {
    let db = memory_db();
    let txn = db.begin_write().unwrap();
    {
        let mut t = txn.open_table(redb::TableDefinition::<String, u32>::new("PATH_CRC32")).unwrap();
        t.insert("/old".to_string(), 3).unwrap();
    }
    txn.commit().unwrap();
    let store = NtfsDataBase::new(db).unwrap();
    assert_eq!(store.get_crc32("/old".to_string()).unwrap(), Some(3));
    assert_eq!(store.get_path(3).unwrap(), None);
}

#[test]
fn stream_of_many_chunks_matches_whole() {
    let content: Vec<u8> = (0..5000u32).map(|i| (i * 7 % 251) as u8).collect();
    let mut s = Crc32Stream::new();
    for chunk in content.chunks(1024) {
        s.update(chunk);
    }
    assert_eq!(s.finalize(), calculate_crc32(&content));
}

#[test]
fn blake2b512_stream_matches_whole() {
    let mut s = Blake2b512Stream::new();
    s.update(b"a");
    s.update(b"");
    s.update(b"bc");
    assert_eq!(s.finalize(), calculate_blake2b512(b"abc"));
}
