use block_stream::error::{ErrorClass, StreamError};
use block_stream::ledger::{BlockSummary, Ledger, ReorgHandler};
use block_stream::model::{
    BlockRef, BlockResponse, BlockScopedData, BlockUndoSignal, Clock, Cursor, Endpoint,
    ModuleGraph, Output, PackageSource, package_source,
};
use block_stream::sink::{
    load_persisted_cursor, persist_cursor, process_block_scoped_data, process_block_undo_signal,
    record_undo, require_handler, summarize, summarize_with, Checkpoint,
};

fn token(text: &str) -> Cursor {
    Cursor::new(text.to_string())
}

fn data(number: u64, cur: &str, type_tag: &str, payload: Vec<u8>) -> BlockScopedData {
    BlockScopedData {
        clock: Clock { block: BlockRef { number, hash: vec![9] }, timestamp: 42 },
        cursor: token(cur),
        output: Output { type_tag: type_tag.to_string(), payload },
    }
}

fn plain(number: u64, cur: &str) -> BlockScopedData {
    data(number, cur, "type.googleapis.com/eth.Transfers", vec![0; 8])
}

fn undo(number: u64, cur: &str) -> BlockUndoSignal {
    BlockUndoSignal { last_valid_cursor: token(cur), last_valid_block: BlockRef { number, hash: vec![7] } }
}

fn apply_and_persist(ledger: &mut Ledger, checkpoint: &mut Checkpoint, d: &BlockScopedData) {
    process_block_scoped_data(ledger, checkpoint, d).unwrap();
    persist_cursor(checkpoint, d.cursor.duplicate(), Ok(())).unwrap();
}

#[test]
fn summary_strips_the_type_url_prefix() {
    let d = data(12, "c12", "type.googleapis.com/sf.ethereum.Block", vec![1, 2, 3, 4, 5]);
    let s = summarize(&d);
    assert_eq!(
        s,
        BlockSummary { block_number: 12, payload_type: "sf.ethereum.Block".to_string(), payload_len: 5 }
    );
    let bare = summarize(&data(1, "c", "my.Type", vec![]));
    assert_eq!(bare.payload_type, "my.Type");
    assert_eq!(bare.payload_len, 0);
    let inner = summarize(&data(1, "c", "a/type.googleapis.com/b/type.googleapis.com/", vec![]));
    assert_eq!(inner.payload_type, "a/b/");
    let short = summarize(&data(1, "c", "type.googleapis.com", vec![]));
    assert_eq!(short.payload_type, "type.googleapis.com");
}

#[test]
fn summarize_with_takes_the_type_as_given() {
    let d = data(3, "c3", "type.googleapis.com/a.B", vec![1, 2]);
    let s = summarize_with(&d, "anything".to_string());
    assert_eq!(s, BlockSummary { block_number: 3, payload_type: "anything".to_string(), payload_len: 2 });
}

#[test]
fn new_block_is_recorded_and_its_cursor_pending() {
    let mut ledger = Ledger::new();
    let mut checkpoint = Checkpoint::new(None);
    let summary = process_block_scoped_data(&mut ledger, &mut checkpoint, &plain(5, "c5")).unwrap();
    assert_eq!(summary.block_number, 5);
    assert_eq!(summary.payload_type, "eth.Transfers");
    assert_eq!(summary.payload_len, 8);
    assert!(ledger.contains(5));
    assert_eq!(ledger.effect_of(5), Some(summary));
    assert_eq!(ledger.effect_of(6), None);
    assert!(checkpoint.has_pending());
    assert_eq!(checkpoint, Checkpoint { persisted: None, pending: Some(token("c5")) });
}

#[test]
fn next_block_is_refused_until_the_cursor_is_persisted() {
    let mut ledger = Ledger::new();
    let mut checkpoint = Checkpoint::new(None);
    process_block_scoped_data(&mut ledger, &mut checkpoint, &plain(5, "c5")).unwrap();
    let refused = process_block_scoped_data(&mut ledger, &mut checkpoint, &plain(6, "c6"));
    assert_eq!(refused, Err(StreamError::Persist("c5".to_string())));
    assert!(!ledger.contains(6));
    assert_eq!(checkpoint.pending, Some(token("c5")));
    assert_eq!(persist_cursor(&mut checkpoint, token("c5"), Ok(())), Ok(()));
    assert_eq!(checkpoint, Checkpoint { persisted: Some(token("c5")), pending: None });
    assert!(process_block_scoped_data(&mut ledger, &mut checkpoint, &plain(6, "c6")).is_ok());
    assert!(ledger.contains(6));
}

#[test]
fn failed_write_blocks_advancement() {
    let mut ledger = Ledger::new();
    let mut checkpoint = Checkpoint::new(Some(token("c4")));
    process_block_scoped_data(&mut ledger, &mut checkpoint, &plain(5, "c5")).unwrap();
    let r = persist_cursor(&mut checkpoint, token("c5"), Err("disk full".to_string()));
    assert_eq!(r, Err(StreamError::Persist("disk full".to_string())));
    assert_eq!(checkpoint, Checkpoint { persisted: Some(token("c4")), pending: Some(token("c5")) });
    assert!(process_block_scoped_data(&mut ledger, &mut checkpoint, &plain(6, "c6")).is_err());
    assert_eq!(persist_cursor(&mut checkpoint, token("c5"), Ok(())), Ok(()));
    assert_eq!(checkpoint.persisted, Some(token("c5")));
}

#[test]
fn out_of_order_write_is_refused() {
    let mut ledger = Ledger::new();
    let mut checkpoint = Checkpoint::new(None);
    process_block_scoped_data(&mut ledger, &mut checkpoint, &plain(5, "c5")).unwrap();
    let r = persist_cursor(&mut checkpoint, token("c9"), Ok(()));
    assert_eq!(r, Err(StreamError::Persist("c9".to_string())));
    assert_eq!(checkpoint, Checkpoint { persisted: None, pending: Some(token("c5")) });
}

#[test]
fn write_with_nothing_pending_is_recorded() {
    let mut checkpoint = Checkpoint::new(None);
    assert_eq!(persist_cursor(&mut checkpoint, token("seed"), Ok(())), Ok(()));
    assert_eq!(checkpoint, Checkpoint { persisted: Some(token("seed")), pending: None });
}

#[test]
fn replaying_a_block_leaves_the_same_ledger() {
    let mut once = Ledger::new();
    let mut cp_once = Checkpoint::new(None);
    apply_and_persist(&mut once, &mut cp_once, &plain(1, "c1"));
    apply_and_persist(&mut once, &mut cp_once, &plain(2, "c2"));

    let mut twice = Ledger::new();
    let mut cp_twice = Checkpoint::new(None);
    apply_and_persist(&mut twice, &mut cp_twice, &plain(1, "c1"));
    apply_and_persist(&mut twice, &mut cp_twice, &plain(2, "c2"));
    apply_and_persist(&mut twice, &mut cp_twice, &plain(2, "c2"));

    assert_eq!(once, twice);
    assert_eq!(cp_once, cp_twice);
    assert_eq!(twice.effect_of(2).unwrap().payload_len, 8);
}

#[test]
fn later_effect_replaces_the_earlier_one_for_a_block() {
    let mut ledger = Ledger::new();
    ledger.apply(BlockSummary { block_number: 3, payload_type: "a".to_string(), payload_len: 1 });
    ledger.apply(BlockSummary { block_number: 4, payload_type: "b".to_string(), payload_len: 2 });
    ledger.apply(BlockSummary { block_number: 3, payload_type: "c".to_string(), payload_len: 3 });
    assert_eq!(
        ledger.effect_of(3),
        Some(BlockSummary { block_number: 3, payload_type: "c".to_string(), payload_len: 3 })
    );
    assert_eq!(ledger.effect_of(4).unwrap().payload_type, "b");
}

#[test]
fn undo_discards_blocks_above_the_last_valid_one() {
    let mut ledger = Ledger::new();
    let mut checkpoint = Checkpoint::new(None);
    for (n, c) in [(1u64, "c1"), (2, "c2"), (3, "c3"), (4, "c4")] {
        apply_and_persist(&mut ledger, &mut checkpoint, &plain(n, c));
    }
    assert_eq!(process_block_undo_signal(&mut ledger, &mut checkpoint, &undo(2, "c2")), Ok(()));
    assert!(ledger.contains(1));
    assert!(ledger.contains(2));
    assert!(!ledger.contains(3));
    assert!(!ledger.contains(4));
    assert_eq!(checkpoint, Checkpoint { persisted: Some(token("c4")), pending: Some(token("c2")) });

    let early = process_block_scoped_data(&mut ledger, &mut checkpoint, &plain(3, "c3b"));
    assert_eq!(early, Err(StreamError::Persist("c2".to_string())));
    assert!(!ledger.contains(3));

    assert_eq!(persist_cursor(&mut checkpoint, token("c2"), Ok(())), Ok(()));
    assert_eq!(checkpoint, Checkpoint { persisted: Some(token("c2")), pending: None });

    let fork = data(3, "c3b", "type.googleapis.com/eth.Transfers", vec![5; 2]);
    let summary = process_block_scoped_data(&mut ledger, &mut checkpoint, &fork).unwrap();
    assert_eq!(summary.payload_len, 2);
    assert_eq!(ledger.effect_of(3).unwrap().payload_len, 2);
    assert!(!ledger.contains(4));
}

#[test]
fn undo_delivered_twice_equals_undo_delivered_once() {
    let mut ledger = Ledger::new();
    let mut checkpoint = Checkpoint::new(None);
    for (n, c) in [(1u64, "c1"), (2, "c2"), (3, "c3")] {
        apply_and_persist(&mut ledger, &mut checkpoint, &plain(n, c));
    }
    assert_eq!(process_block_undo_signal(&mut ledger, &mut checkpoint, &undo(1, "c1")), Ok(()));
    persist_cursor(&mut checkpoint, token("c1"), Ok(())).unwrap();
    let after_one = ledger.clone();
    assert_eq!(process_block_undo_signal(&mut ledger, &mut checkpoint, &undo(1, "c1")), Ok(()));
    persist_cursor(&mut checkpoint, token("c1"), Ok(())).unwrap();
    assert_eq!(ledger, after_one);
    assert!(ledger.contains(1));
    assert!(!ledger.contains(2));
}

#[test]
fn undo_redelivered_before_its_cursor_is_persisted_is_accepted() {
    let mut ledger = Ledger::new();
    let mut checkpoint = Checkpoint::new(None);
    for (n, c) in [(1u64, "c1"), (2, "c2"), (3, "c3"), (4, "c4")] {
        apply_and_persist(&mut ledger, &mut checkpoint, &plain(n, c));
    }
    assert_eq!(process_block_undo_signal(&mut ledger, &mut checkpoint, &undo(2, "c2")), Ok(()));
    let ledger_after = ledger.clone();
    let checkpoint_after = checkpoint.clone();
    assert_eq!(checkpoint.pending, Some(token("c2")));
    assert_eq!(process_block_undo_signal(&mut ledger, &mut checkpoint, &undo(2, "c2")), Ok(()));
    assert_eq!(ledger, ledger_after);
    assert_eq!(checkpoint, checkpoint_after);
    assert!(ledger.contains(2) && !ledger.contains(3) && !ledger.contains(4));
    assert_eq!(persist_cursor(&mut checkpoint, token("c2"), Ok(())), Ok(()));
    assert_eq!(checkpoint, Checkpoint { persisted: Some(token("c2")), pending: None });
}

#[test]
fn in_flight_block_may_be_applied_again_before_its_cursor_is_persisted() {
    let mut ledger = Ledger::new();
    let mut checkpoint = Checkpoint::new(Some(token("c4")));
    let first = process_block_scoped_data(&mut ledger, &mut checkpoint, &plain(5, "c5")).unwrap();
    let r = persist_cursor(&mut checkpoint, token("c5"), Err("disk full".to_string()));
    assert_eq!(r, Err(StreamError::Persist("disk full".to_string())));
    let ledger_after = ledger.clone();
    let again = process_block_scoped_data(&mut ledger, &mut checkpoint, &plain(5, "c5")).unwrap();
    assert_eq!(again, first);
    assert_eq!(ledger, ledger_after);
    assert_eq!(checkpoint, Checkpoint { persisted: Some(token("c4")), pending: Some(token("c5")) });
    assert_eq!(persist_cursor(&mut checkpoint, token("c5"), Ok(())), Ok(()));
    assert_eq!(checkpoint.persisted, Some(token("c5")));
}

#[test]
fn undo_is_refused_while_another_cursor_is_pending() {
    let mut ledger = Ledger::new();
    let mut checkpoint = Checkpoint::new(None);
    process_block_scoped_data(&mut ledger, &mut checkpoint, &plain(8, "c8")).unwrap();
    let r = process_block_undo_signal(&mut ledger, &mut checkpoint, &undo(2, "c2"));
    assert_eq!(r, Err(StreamError::Persist("c8".to_string())));
    assert!(ledger.contains(8));
    assert_eq!(checkpoint, Checkpoint { persisted: None, pending: Some(token("c8")) });
    assert_eq!(checkpoint.blocking(&token("c2")), Some(token("c8")));
    assert_eq!(checkpoint.blocking(&token("c8")), None);
    assert_eq!(Checkpoint::new(Some(token("c1"))).blocking(&token("c2")), None);
}

#[test]
fn undo_with_nothing_above_discards_nothing() {
    let mut ledger = Ledger::new();
    let mut checkpoint = Checkpoint::new(None);
    assert_eq!(process_block_undo_signal(&mut ledger, &mut checkpoint, &undo(7, "c7")), Ok(()));
    assert_eq!(ledger, Ledger::new());
    persist_cursor(&mut checkpoint, token("c7"), Ok(())).unwrap();
    for (n, c) in [(1u64, "c1"), (2, "c2")] {
        apply_and_persist(&mut ledger, &mut checkpoint, &plain(n, c));
    }
    let before = ledger.clone();
    assert_eq!(process_block_undo_signal(&mut ledger, &mut checkpoint, &undo(2, "c2")), Ok(()));
    assert_eq!(ledger, before);
}

#[test]
fn handler_outcome_settles_the_rollback() {
    let mut checkpoint = Checkpoint::new(Some(token("c4")));
    let failure = StreamError::Connection("store unreachable".to_string());
    let r = record_undo(&mut checkpoint, &undo(2, "c2"), Err(failure.clone()));
    assert_eq!(r, Err(failure));
    assert_eq!(checkpoint, Checkpoint { persisted: Some(token("c4")), pending: None });
    assert_eq!(record_undo(&mut checkpoint, &undo(2, "c2"), Ok(())), Ok(()));
    assert_eq!(checkpoint, Checkpoint { persisted: Some(token("c4")), pending: Some(token("c2")) });
}

#[test]
fn ledger_handler_rolls_back_at_the_boundaries() {
    let mut ledger = Ledger::new();
    for n in [0u64, 5, u64::MAX] {
        ledger.apply(BlockSummary { block_number: n, payload_type: "t".to_string(), payload_len: 0 });
    }
    assert_eq!(ledger.apply_undo(&BlockRef { number: u64::MAX, hash: vec![] }), Ok(()));
    assert!(ledger.contains(u64::MAX));
    ledger.rollback(5);
    assert!(ledger.contains(5) && ledger.contains(0) && !ledger.contains(u64::MAX));
    ledger.rollback(0);
    assert!(ledger.contains(0) && !ledger.contains(5));
}

#[test]
fn persisted_cursor_is_read_back_whatever_it_holds() {
    for text in ["", "c9", " spaced ", "type.googleapis.com/"] {
        let mut checkpoint = Checkpoint::new(None);
        assert_eq!(persist_cursor(&mut checkpoint, token(text), Ok(())), Ok(()));
        let stored = checkpoint.persisted.as_ref().map(|c| c.as_str().to_string());
        assert_eq!(load_persisted_cursor(stored), Ok(Some(token(text))));
    }
}

#[test]
fn stored_token_is_read_as_cursor() {
    assert_eq!(load_persisted_cursor(None), Ok(None));
    assert_eq!(load_persisted_cursor(Some(String::new())), Ok(Some(token(""))));
    assert_eq!(load_persisted_cursor(Some("abc".to_string())), Ok(Some(token("abc"))));
    assert_eq!(token("abc").as_str(), "abc");
}

#[test]
fn missing_handler_is_reported_at_wiring_time() {
    let none: Option<Ledger> = None;
    assert_eq!(require_handler(none), Err(StreamError::UnimplementedPolicy));
    assert_eq!(require_handler(Some(Ledger::new())), Ok(Ledger::new()));
}

#[test]
fn every_error_has_its_class() {
    let detail = "d".to_string();
    assert_eq!(StreamError::Connection(detail.clone()).class(), ErrorClass::Transient);
    assert_eq!(StreamError::Auth(detail.clone()).class(), ErrorClass::Fatal);
    assert_eq!(StreamError::InvalidRequest(detail.clone()).class(), ErrorClass::Fatal);
    assert_eq!(StreamError::Decode(detail.clone()).class(), ErrorClass::Fatal);
    assert_eq!(StreamError::Persist(detail.clone()).class(), ErrorClass::CallerDomain);
    assert_eq!(StreamError::UnimplementedPolicy.class(), ErrorClass::Fatal);
    assert!(StreamError::Connection(detail.clone()).is_transient());
    assert!(!StreamError::Connection(detail.clone()).is_fatal());
    assert!(!StreamError::Auth(detail.clone()).is_transient());
    assert!(StreamError::Auth(detail.clone()).is_fatal());
    assert!(!StreamError::Persist(detail.clone()).is_transient());
    assert!(!StreamError::Persist(detail.clone()).is_fatal());
    assert!(StreamError::UnimplementedPolicy.is_fatal());
    assert_eq!(StreamError::Auth(detail).exit_code(), 1);
}

#[test]
fn package_source_goes_by_the_url_scheme() {
    assert_eq!(package_source("https://example.org/pkg.spkg"), PackageSource::Url);
    assert_eq!(package_source("http://example.org/pkg.spkg"), PackageSource::Url);
    assert_eq!(package_source("http://"), PackageSource::Url);
    assert_eq!(package_source("https://"), PackageSource::Url);
    assert_eq!(package_source("http"), PackageSource::File);
    assert_eq!(package_source("httpd.spkg"), PackageSource::File);
    assert_eq!(package_source("httpd/pkg.spkg"), PackageSource::File);
    assert_eq!(package_source("https"), PackageSource::File);
    assert_eq!(package_source("https:/x"), PackageSource::File);
    assert_eq!(package_source("http:/x/y"), PackageSource::File);
    assert_eq!(package_source("https:/"), PackageSource::File);
    assert_eq!(package_source("httpx://a"), PackageSource::File);
    assert_eq!(package_source("htt"), PackageSource::File);
    assert_eq!(package_source(""), PackageSource::File);
    assert_eq!(package_source("./local.spkg"), PackageSource::File);
    assert_eq!(package_source("HTTP://x"), PackageSource::File);
}

#[test]
fn empty_token_means_no_credential() {
    let open = Endpoint::new("https://host:443".to_string(), String::new());
    assert_eq!(open, Endpoint { address: "https://host:443".to_string(), credential: None });
    let keyed = Endpoint::new("https://host:443".to_string(), "tok".to_string());
    assert_eq!(keyed.credential, Some("tok".to_string()));
}

#[test]
fn module_graph_needs_its_output_module() {
    let names = vec!["map_block".to_string(), "store_totals".to_string()];
    let graph = ModuleGraph::new(names.clone(), "map_block".to_string()).unwrap();
    assert_eq!(graph.module_count(), 2);
    assert!(graph.has_module(&"store_totals".to_string()));
    assert!(!graph.has_module(&"map".to_string()));
    assert_eq!(
        ModuleGraph::new(names, "missing".to_string()),
        Err(StreamError::InvalidRequest("missing".to_string()))
    );
    assert_eq!(
        ModuleGraph::new(Vec::new(), "map_block".to_string()),
        Err(StreamError::InvalidRequest("map_block".to_string()))
    );
}

#[test]
fn response_cursor_is_the_one_to_persist() {
    let n = BlockResponse::New(plain(1, "c1"));
    let u = BlockResponse::Undo(undo(0, "c0"));
    assert_eq!(n.cursor(), &token("c1"));
    assert_eq!(u.cursor(), &token("c0"));
}

#[test]
fn report_line_of_a_block() {
    let s = summarize(&data(12, "c12", "type.googleapis.com/eth.Transfers", vec![0; 8]));
    assert_eq!(s.line(), "Block #12 - Payload eth.Transfers (8 bytes)");
    let zero = BlockSummary { block_number: 0, payload_type: String::new(), payload_len: 0 };
    assert_eq!(zero.line(), "Block #0 - Payload  (0 bytes)");
    let big = BlockSummary { block_number: u64::MAX, payload_type: "t".to_string(), payload_len: 1_000_000 };
    assert_eq!(big.line(), "Block #18446744073709551615 - Payload t (1000000 bytes)");
}

#[test]
fn status_of_a_response_names_the_failure() {
    let d = || "detail".to_string();
    assert_eq!(StreamError::from_status(200, d()), None);
    assert_eq!(StreamError::from_status(299, d()), None);
    assert_eq!(StreamError::from_status(401, d()), Some(StreamError::Auth(d())));
    assert_eq!(StreamError::from_status(403, d()), Some(StreamError::Auth(d())));
    assert_eq!(StreamError::from_status(400, d()), Some(StreamError::InvalidRequest(d())));
    assert_eq!(StreamError::from_status(404, d()), Some(StreamError::InvalidRequest(d())));
    assert_eq!(StreamError::from_status(422, d()), Some(StreamError::InvalidRequest(d())));
    assert_eq!(StreamError::from_status(503, d()), Some(StreamError::Connection(d())));
    assert_eq!(StreamError::from_status(199, d()), Some(StreamError::Connection(d())));
    assert_eq!(StreamError::from_status(300, d()), Some(StreamError::Connection(d())));
}
