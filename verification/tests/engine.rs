use ariadne::connector::cache_data::{sync, CacheData, FlushOutcome};
use ariadne::connector::memory::MemoryConnector;
use ariadne::models::download::Download;
use ariadne::models::visit::Visit;

fn make_visit(n: u128) -> Visit {
    Visit {
        visit_id: n,
        time: 1_700_000_000 + n as i64,
        path: format!("/mod/{}", n),
        domain: "example.org".to_string(),
        user_agent: "integration-test".to_string(),
        ip: 0xffff_0a00_0001 + n,
        country_code: Some("FR".to_string()),
        latitude: None,
        longitude: None,
        session_id: None,
        consent: false,
        time_on_page: None,
    }
}

fn make_download(n: u128) -> Download {
    Download {
        download_id: n,
        time: 1_700_000_000 + n as i64,
        mod_id: format!("mod-{}", n),
        version_id: "1.0.0".to_string(),
        file_name: "pack.jar".to_string(),
        ip: 0xffff_0a00_0002 + n,
        user_agent: "integration-test".to_string(),
        country_code: None,
        latitude: None,
        longitude: None,
    }
}

#[test]
fn push_is_fire_and_forget() {
    let mut db = CacheData::new(MemoryConnector::new());
    assert!(db.insert_visit(make_visit(1)).is_ok());
    assert!(db.insert_visit(make_visit(2)).is_ok());
    assert!(db.insert_download(make_download(1)).is_ok());
    assert_eq!(db.pending_visit_count(), 2);
    assert_eq!(db.pending_download_count(), 1);
    // Nothing reaches the sink before a tick runs.
    assert_eq!(db.sink_ref().visit_batch_count(), 0);
    assert_eq!(db.sink_ref().download_batch_count(), 0);
}

#[test]
fn three_visits_flush_as_one_batch() {
    let mut db = CacheData::new(MemoryConnector::new());
    for n in 0..3 {
        assert!(db.insert_visit(make_visit(n)).is_ok());
    }
    let report = sync(&mut db).expect("initialization succeeds");
    assert_eq!(report.visits, FlushOutcome::Flushed(3));
    assert_eq!(report.downloads, FlushOutcome::Skipped);
    // The sink received exactly one call, with all 3 records.
    assert_eq!(db.sink_ref().visit_batch_count(), 1);
    assert_eq!(db.sink_ref().visit_batches[0].len(), 3);
    assert_eq!(db.sink_ref().stored_visit_count(), 3);
    // The buffer is empty afterward.
    assert_eq!(db.pending_visit_count(), 0);
}

#[test]
fn failed_download_flush_rolls_back_then_retries() {
    let mut sink = MemoryConnector::new();
    sink.download_failures = 1;
    let mut db = CacheData::new(sink);
    assert!(db.insert_download(make_download(1)).is_ok());
    assert!(db.insert_download(make_download(2)).is_ok());

    let first = sync(&mut db).expect("initialization succeeds");
    assert_eq!(first.downloads, FlushOutcome::RolledBack(2));
    // After the failed tick the buffer again holds the same 2 records.
    assert_eq!(db.pending_download_count(), 2);
    assert_eq!(db.sink_ref().stored_download_count(), 0);

    let second = sync(&mut db).expect("initialization stays done");
    assert_eq!(second.downloads, FlushOutcome::Flushed(2));
    // One failed and one successful call were made, with those 2 records.
    assert_eq!(db.sink_ref().download_batch_count(), 2);
    let mut stored: Vec<u128> = db.sink_ref().downloads.iter().map(|d| d.download_id).collect();
    stored.sort();
    assert_eq!(stored, vec![1, 2]);
    assert_eq!(db.pending_download_count(), 0);
}

#[test]
fn duplicates_are_tolerated_not_absent() {
    // A sink that partially commits a batch it reports as failed: after the
    // rollback and a successful retry the record is stored twice. Delivery
    // is at-least-once, so the duplicate must be accepted, not asserted
    // away.
    let mut sink = MemoryConnector::new();
    sink.visit_failures = 1;
    sink.commit_on_failure = true;
    let mut db = CacheData::new(sink);
    assert!(db.insert_visit(make_visit(7)).is_ok());

    let first = sync(&mut db).expect("initialization succeeds");
    assert_eq!(first.visits, FlushOutcome::RolledBack(1));
    let second = sync(&mut db).expect("initialization stays done");
    assert_eq!(second.visits, FlushOutcome::Flushed(1));

    let copies = db.sink_ref().visits.iter().filter(|v| v.visit_id == 7).count();
    assert_eq!(copies, 2);
    assert_eq!(db.pending_visit_count(), 0);
}

#[test]
fn initialization_runs_once_after_it_succeeds() {
    let mut sink = MemoryConnector::new();
    sink.init_failures = 1;
    let mut db = CacheData::new(sink);
    assert!(db.insert_visit(make_visit(1)).is_ok());

    // The first tick's setup fails: the tick aborts, nothing is drained.
    let first = sync(&mut db);
    assert_eq!(first, Err(ariadne::error::AriadneErrors::Database));
    assert_eq!(db.sink_ref().initialize_count(), 1);
    assert_eq!(db.pending_visit_count(), 1);
    assert_eq!(db.sink_ref().visit_batch_count(), 0);

    // The second tick retries the setup, succeeds, and flushes.
    let second = sync(&mut db).expect("retried initialization succeeds");
    assert_eq!(second.visits, FlushOutcome::Flushed(1));
    assert_eq!(db.sink_ref().initialize_count(), 2);

    // Later ticks never invoke the setup again.
    for _ in 0..5 {
        sync(&mut db).expect("stays initialized");
    }
    assert_eq!(db.sink_ref().initialize_count(), 2);
}

#[test]
fn download_failure_does_not_block_visit_flush() {
    let mut sink = MemoryConnector::new();
    sink.download_failures = 1;
    let mut db = CacheData::new(sink);
    assert!(db.insert_visit(make_visit(1)).is_ok());
    assert!(db.insert_download(make_download(1)).is_ok());

    let report = sync(&mut db).expect("initialization succeeds");
    assert_eq!(report.visits, FlushOutcome::Flushed(1));
    assert_eq!(report.downloads, FlushOutcome::RolledBack(1));
    assert_eq!(db.sink_ref().stored_visit_count(), 1);
    assert_eq!(db.pending_download_count(), 1);
}

#[test]
fn visit_failure_does_not_block_download_flush() {
    let mut sink = MemoryConnector::new();
    sink.visit_failures = 1;
    let mut db = CacheData::new(sink);
    assert!(db.insert_visit(make_visit(1)).is_ok());
    assert!(db.insert_download(make_download(1)).is_ok());

    let report = sync(&mut db).expect("initialization succeeds");
    assert_eq!(report.visits, FlushOutcome::RolledBack(1));
    assert_eq!(report.downloads, FlushOutcome::Flushed(1));
    assert_eq!(db.sink_ref().stored_download_count(), 1);
    assert_eq!(db.pending_visit_count(), 1);
}

#[test]
fn empty_kind_never_calls_insert_batch() {
    let mut db = CacheData::new(MemoryConnector::new());
    assert!(db.insert_visit(make_visit(1)).is_ok());

    let report = sync(&mut db).expect("initialization succeeds");
    assert_eq!(report.visits, FlushOutcome::Flushed(1));
    assert_eq!(report.downloads, FlushOutcome::Skipped);
    assert_eq!(db.sink_ref().download_batch_count(), 0);

    // A tick over two empty buffers calls the sink for neither kind.
    let report = sync(&mut db).expect("stays initialized");
    assert_eq!(report.visits, FlushOutcome::Skipped);
    assert_eq!(report.downloads, FlushOutcome::Skipped);
    assert_eq!(db.sink_ref().visit_batch_count(), 1);
    assert_eq!(db.sink_ref().download_batch_count(), 0);
}

#[test]
fn thousand_visits_reach_the_sink_across_two_ticks() {
    // Pushes that land while a tick is mid-flush are picked up by the next
    // tick: here the second half arrives between two ticks, and everything
    // reaches the sink in at most two batches.
    let mut db = CacheData::new(MemoryConnector::new());
    for n in 0..500 {
        assert!(db.insert_visit(make_visit(n)).is_ok());
    }
    let first = sync(&mut db).expect("initialization succeeds");
    assert_eq!(first.visits, FlushOutcome::Flushed(500));
    for n in 500..1000 {
        assert!(db.insert_visit(make_visit(n)).is_ok());
    }
    let second = sync(&mut db).expect("stays initialized");
    assert_eq!(second.visits, FlushOutcome::Flushed(500));

    assert_eq!(db.sink_ref().stored_visit_count(), 1000);
    assert!(db.sink_ref().visit_batch_count() <= 2);
    let mut stored: Vec<u128> = db.sink_ref().visits.iter().map(|v| v.visit_id).collect();
    stored.sort();
    let expected: Vec<u128> = (0..1000).collect();
    assert_eq!(stored, expected);
    assert_eq!(db.pending_visit_count(), 0);
}

#[test]
fn nothing_is_lost_across_failures() {
    // No-loss: with flush failures injected everywhere, every pushed record
    // stays accounted for, pending or stored.
    let mut sink = MemoryConnector::new();
    sink.visit_failures = 2;
    sink.download_failures = 1;
    let mut db = CacheData::new(sink);
    for n in 0..10 {
        assert!(db.insert_visit(make_visit(n)).is_ok());
        assert!(db.insert_download(make_download(n)).is_ok());
    }
    for _ in 0..4 {
        sync(&mut db).expect("initialization succeeds");
        let visits = db.pending_visit_count() + db.sink_ref().stored_visit_count();
        let downloads = db.pending_download_count() + db.sink_ref().stored_download_count();
        assert_eq!(visits, 10);
        assert_eq!(downloads, 10);
    }
    assert_eq!(db.sink_ref().stored_visit_count(), 10);
    assert_eq!(db.sink_ref().stored_download_count(), 10);
}
