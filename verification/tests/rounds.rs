use pendrake::clock::{Duration, Instant};
use pendrake::hex::TxId;
use pendrake::ipc::{BatchPhase, Real, SyncEvent, SyncPhase, SyncState};
use pendrake::transport::Platform;
use pendrake::paths::Paths;
use pendrake::price::PriceCache;
use pendrake::round::{
    range_id, to_batch_timing, CommitTiming, Effect, HeightRange, RoundView, ScanEvent,
    ScanTiming, TIMING_WINDOW,
};
use pendrake::service::WalletService;

fn at(millis: u64) -> Instant {
    Instant {
        nanos: millis * 1_000_000,
    }
}

fn range(start: u32, end: u32) -> HeightRange {
    HeightRange { start, end }
}

fn timing(total_millis: u64) -> ScanTiming {
    let d = Duration::from_millis;
    ScanTiming {
        fetch: d(1),
        decryption: d(2),
        tree: d(3),
        commit: CommitTiming {
            checkpoints: d(4),
            frontiers: d(5),
            insert_tree: d(6),
            spend_fetch: d(7),
            spend_cpu: d(8),
            cleanup: d(9),
            other: d(10),
            total: d(49),
        },
        total: d(total_millis),
    }
}

fn started(r: HeightRange) -> ScanEvent {
    ScanEvent::BatchScanStarted {
        range: r,
        priority: "Historic".to_string(),
        sapling_outputs: 1,
        orchard_outputs: 2,
        ironwood_outputs: 3,
    }
}

fn scanned(r: HeightRange) -> ScanEvent {
    ScanEvent::RangeScanned {
        range: r,
        priority: "Historic".to_string(),
        sapling_outputs: 10,
        orchard_outputs: 20,
        ironwood_outputs: 30,
        timing: timing(55),
    }
}

fn session() -> RoundView {
    let mut view = RoundView::new();
    let effect = view.on_event(
        ScanEvent::SessionStarted {
            sync_start_height: 100,
            tip: 200,
            total_sapling_outputs: 1000,
            total_orchard_outputs: 200,
            total_ironwood_outputs: 34,
            already_scanned_sapling_outputs: 1,
            already_scanned_orchard_outputs: 2,
            already_scanned_ironwood_outputs: 3,
        },
        at(0),
        0,
    );
    assert!(matches!(effect, Effect::SeedLive { start: 100 }));
    view
}

#[test]
fn a_session_starts_the_tally() {
    let view = session();
    assert_eq!(view.total_outputs, 1234);
    assert_eq!(view.scanned_outputs, 6);
    assert_eq!(view.synced_height, 100);
    assert_eq!(view.chain_tip, 200);
    assert_eq!(view.remaining_outputs(), Some(1228));
    assert_eq!(view.phase(), None);
    assert_eq!(view.aggregate_gain(), None);
}

#[test]
fn a_batch_walks_through_its_phases() {
    let mut view = session();
    let r = range(100, 150);
    assert!(matches!(
        view.on_event(started(r), at(10), 10),
        Effect::Nothing
    ));
    assert_eq!(view.phase(), Some(SyncPhase::Scanning));
    assert_eq!(view.in_flight[0].outputs, 6);
    view.on_event(ScanEvent::BatchScanCompleted { range: r }, at(30), 30);
    assert_eq!(view.in_flight[0].phase, BatchPhase::Waiting);
    assert_eq!(view.phase(), Some(SyncPhase::Scanning));
    view.on_event(ScanEvent::BatchCommitStarted { range: r }, at(70), 70);
    assert_eq!(view.phase(), Some(SyncPhase::Committing));
    assert_eq!(view.in_flight[0].waited, Duration::from_millis(40));
    assert_eq!(view.in_flight[0].phase_started_ms, 70);
    match view.on_event(scanned(r), at(100), 100) {
        Effect::BatchDone { batch } => {
            assert_eq!(batch.id, "100-150");
            assert_eq!(batch.outputs, 60);
            assert_eq!(batch.timing.wait_secs, Duration::from_millis(40));
            assert_eq!(batch.timing.total_secs, Duration::from_millis(95));
            assert_eq!(batch.timing.commit_secs, Duration::from_millis(49));
            assert_eq!(batch.timing.commit.other, Duration::from_millis(10));
        }
        _ => panic!("expected a batch to be done"),
    }
    assert!(view.in_flight.is_empty());
    assert_eq!(view.scanned_outputs, 66);
    assert_eq!(view.synced_height, 150);
    assert_eq!(
        view.aggregate_gain(),
        Some((60, Duration::from_millis(100)))
    );
}

#[test]
fn a_batch_that_skips_its_commit_has_waited_since_its_scan() {
    let mut view = session();
    let r = range(100, 150);
    view.on_event(started(r), at(10), 10);
    view.on_event(ScanEvent::BatchScanCompleted { range: r }, at(30), 30);
    match view.on_event(scanned(r), at(100), 100) {
        Effect::BatchDone { batch } => {
            assert_eq!(batch.timing.wait_secs, Duration::from_millis(70))
        }
        _ => panic!("expected a batch to be done"),
    }
    // One that never started has not waited.
    match view.on_event(scanned(range(150, 160)), at(200), 200) {
        Effect::BatchDone { batch } => {
            assert_eq!(batch.timing.wait_secs, Duration::from_millis(0))
        }
        _ => panic!("expected a batch to be done"),
    }
}

#[test]
fn a_restarted_range_is_in_flight_once() {
    let mut view = session();
    view.on_event(started(range(100, 150)), at(10), 10);
    view.on_event(started(range(150, 170)), at(11), 11);
    view.on_event(started(range(100, 150)), at(12), 12);
    assert_eq!(view.in_flight.len(), 2);
    assert_eq!(view.in_flight[1].range, range(100, 150));
    assert_eq!(view.live_batch(&range(150, 170)), Some(0));
    assert_eq!(view.live_batch(&range(1, 2)), None);
}

#[test]
fn the_windows_stay_short() {
    let mut view = session();
    for i in 0..30u32 {
        view.on_event(scanned(range(i, i + 1)), at(u64::from(i)), 0);
    }
    assert_eq!(view.timing_log.len(), TIMING_WINDOW);
    assert_eq!(view.aggregate_log.len(), TIMING_WINDOW);
    assert_eq!(view.scanned_outputs, 6 + 30 * 60);
    assert_eq!(view.aggregate_log[11].1, 6 + 30 * 60);
    // The synced height does not fall behind what was reached.
    assert_eq!(view.synced_height, 100);
    assert_eq!(view.remaining_outputs(), None);
}

#[test]
fn a_reorg_drops_the_batches_and_reverts() {
    let mut view = session();
    view.on_event(started(range(100, 150)), at(10), 10);
    view.on_event(ScanEvent::Reorg { reverted_to: 90 }, at(11), 11);
    assert!(view.in_flight.is_empty());
    assert_eq!(view.synced_height, 90);
    view.on_event(ScanEvent::Reorg { reverted_to: 95 }, at(12), 12);
    assert_eq!(view.synced_height, 90);
    view.on_event(ScanEvent::TipMoved { to: 150 }, at(13), 13);
    assert_eq!(view.chain_tip, 200);
    view.on_event(ScanEvent::TipMoved { to: 250 }, at(14), 14);
    assert_eq!(view.chain_tip, 250);
}

#[test]
fn a_discovered_transaction_is_passed_on() {
    let mut view = session();
    let txid = TxId::from_bytes([9; 32]);
    match view.on_event(ScanEvent::TxDiscovered { txid }, at(1), 1) {
        Effect::TxDiscovered { txid: found } => assert_eq!(found, txid),
        _ => panic!("expected a transaction"),
    }
}

#[test]
fn counts_that_do_not_fit_are_told() {
    let view = session();
    let event = |ironwood_outputs: u32| ScanEvent::BatchScanStarted {
        range: range(1, 2),
        priority: String::new(),
        sapling_outputs: u32::MAX - 1,
        orchard_outputs: 1,
        ironwood_outputs,
    };
    assert!(view.can_take(&event(0), at(0)));
    assert!(!view.can_take(&event(1), at(0)));
}

#[test]
fn a_status_shows_the_round() {
    let mut view = session();
    view.on_event(scanned(range(100, 300)), at(1), 1);
    let status = view.status(SyncState::Syncing, 42, Some(7));
    assert_eq!(status.synced_height, 300);
    // The tip is never behind what was synced.
    assert_eq!(status.chain_tip, 300);
    assert_eq!(status.percent, 42);
    assert_eq!(status.scanned_outputs, Some(66));
    assert_eq!(status.eta_seconds, Some(7));
}

#[test]
fn progress_is_published_with_the_active_batches() {
    let mut view = session();
    view.on_event(started(range(100, 150)), at(10), 1010);
    let (mut service, _) = WalletService::load(
        Paths::with_root(Platform::Unix, b"/data".to_vec()),
        vec![],
        PriceCache::new(),
        Ok(None),
    )
    .unwrap();
    service.sync.last_synced_at = Some(5);
    let event = service.publish_progress(&view, 12, Some(3), &vec![Some(Real { bits: 1 })]);
    match event {
        SyncEvent::Progress { status, batches } => {
            assert_eq!(status.state, SyncState::Syncing);
            assert_eq!(status.percent, 12);
            assert_eq!(status.last_synced_at, Some(5));
            assert_eq!(batches.len(), 1);
            assert_eq!(batches[0].id, "100-150");
            assert_eq!(batches[0].priority, "Historic");
            assert_eq!(batches[0].phase_started_at_ms, 1010);
            assert_eq!(batches[0].expected_secs, Some(Real { bits: 1 }));
        }
        _ => panic!("expected progress"),
    }
    assert_eq!(service.sync.eta_seconds, Some(3));
}

#[test]
fn lagging_takes_the_count_from_the_wallet() {
    let mut view = session();
    view.on_event(scanned(range(100, 120)), at(1), 1);
    view.reconcile(100, 200, 300, at(50));
    assert_eq!(view.scanned_outputs, 600);
    assert!(view.timing_log.is_empty());
    assert_eq!(view.aggregate_log.len(), 1);
}

#[test]
fn ranges_are_told_apart_by_their_text() {
    assert_eq!(range_id(&range(0, 4_000_000_000)), "0-4000000000");
    assert_ne!(range_id(&range(1, 11)), range_id(&range(11, 1)));
}

#[test]
fn a_batch_timing_adds_the_wait() {
    let t = to_batch_timing(&timing(100), Duration::from_millis(5));
    assert_eq!(t.total_secs, Duration::from_millis(105));
    assert_eq!(t.fetch_secs, Duration::from_millis(1));
    assert_eq!(t.decryption_secs, Duration::from_millis(2));
    assert_eq!(t.tree_secs, Duration::from_millis(3));
}
