use pendrake::chain::ChainObservation;
use pendrake::gate::{allowed_while_locked, Demand, Method};
use pendrake::hex::TxId;
use pendrake::import::{creation_failed, IndexerChange, Prepared, Probe};
use pendrake::ipc::{
    Balance, BirthdayInput, ImportType, ImportUfvkArgs, Network, NoteStatus, ParseUfvkResult,
    Pool, RemoveArgs, SyncEvent, SyncState, SyncStatus, TxKind, UfvkIdentity, UfvkNetwork,
    ViewMode, WalletNote,
};
use pendrake::notes::{AccountBalance, OutputSummary, WalletOutputs};
use pendrake::notify::Toast;
use pendrake::paths::{FileRead, Meta, Paths};
use pendrake::price::PriceCache;
use pendrake::service::{
    ct_eq, no_wallet_state, open_failed, parse_ufvk_result, remove_args, Found, NotesRead, Setting, Snapshot, SyncPlan,
    unlock_failed, UfvkError, Unlock, WalletConfig, WalletService,
};
use pendrake::sync::{
    is_unreachable, judge_round, PollReport, RoundError, RoundInput, RoundRun, RoundStage,
    RoundStep, ScannedOutputs, ServerError, StageEnd, SyncError, SyncLoop,
};
use pendrake::clock::{Duration, Instant};
use pendrake::transport::Platform;
use pendrake::tx::{
    BasicNoteSummary, ConfirmationStatus, SendType, SpendStatus, TransactionKind,
    TransactionSummary,
};
use serde_json::Value;

fn test_paths() -> Paths {
    Paths::with_root(Platform::Unix, b"/data".to_vec())
}

// A fresh service: nothing on disk.
fn service() -> WalletService {
    let (service, to_open) =
        WalletService::load(test_paths(), vec![], PriceCache::new(), Ok(None)).unwrap();
    assert!(to_open.is_none());
    service
}

fn meta_with_target(target: u32) -> Meta {
    Meta {
        network: Network::Mainnet,
        indexer_uri: String::new(),
        import_type: ImportType::Ufvk,
        view_mode: ViewMode::Full,
        birthday_height: 0,
        scan_target_height: target,
        encrypted: false,
        fingerprint: None,
        label: None,
        notifications_enabled: true,
        fiat_enabled: false,
        discreet: false,
        anchor_height: 0,
        anchor_hash: None,
    }
}

// A service with a wallet meta pinning the Initial-scan boundary at `target`.
fn service_with_target(target: u32) -> WalletService {
    let mut service = service();
    service.meta = Some(meta_with_target(target));
    service
}

// Decide a transaction's toast and deliver it, as the daemon does.
fn notify_tx(
    service: &mut WalletService,
    calls: &mut Vec<Toast>,
    txid: &str,
    received: bool,
    value: u64,
    confirmed: bool,
    height: u32,
) {
    if let Some(toast) = service.notify_tx(txid, received, value, confirmed, height) {
        calls.push(toast);
        service.toast_delivered(txid);
    }
}

#[test]
fn a_live_transaction_raises_a_movement_toast() {
    let mut service = service_with_target(100);
    let mut calls = vec![];
    // Confirmed at or past the import tip N=100: post-import activity, so it notifies.
    notify_tx(&mut service, &mut calls, "txlive", true, 42_000_000, true, 120);
    assert_eq!(calls.len(), 1);
    assert_eq!(calls[0].title, "Funds received");
    assert_eq!(calls[0].body, "0.42 ZEC arrived in your wallet.");
    assert_eq!(calls[0].deep_link, "pendrake://tx?txid=txlive");
}

#[test]
fn a_historical_transaction_stays_silent() {
    let mut service = service_with_target(100);
    let mut calls = vec![];
    // Confirmed below N: Initial-scan history, recorded silently with no toast.
    notify_tx(&mut service, &mut calls, "txold", true, 42_000_000, true, 50);
    assert!(calls.is_empty());
    assert!(service.notify.has_seen("txold"));
}

#[test]
fn an_unconfirmed_transaction_is_live() {
    let mut service = service_with_target(100);
    let mut calls = vec![];
    // Mempool is live regardless of height, so a send notifies right away.
    notify_tx(&mut service, &mut calls, "txmempool", false, 10_000_000, false, 0);
    assert_eq!(calls.len(), 1);
    assert_eq!(calls[0].title, "Funds sent");
}

#[test]
fn the_same_live_transaction_notifies_once() {
    let mut service = service_with_target(100);
    let mut calls = vec![];
    notify_tx(&mut service, &mut calls, "txdup", true, 42_000_000, true, 120);
    notify_tx(&mut service, &mut calls, "txdup", true, 42_000_000, true, 120);
    assert_eq!(calls.len(), 1);
}

#[test]
fn notifications_off_silences_a_live_transaction() {
    let mut service = service_with_target(100);
    let mut calls = vec![];
    service.notifications_enabled = false;
    notify_tx(&mut service, &mut calls, "txoff", true, 42_000_000, true, 120);
    assert!(calls.is_empty());
    // Turned on again, it is not made up for.
    service.notifications_enabled = true;
    notify_tx(&mut service, &mut calls, "txoff", true, 42_000_000, true, 120);
    assert!(calls.is_empty());
}

#[test]
fn a_toast_that_was_not_delivered_is_due_again() {
    let mut service = service_with_target(100);
    assert!(service.notify_tx("tx", true, 1, true, 120).is_some());
    assert!(service.notify_tx("tx", true, 1, true, 120).is_some());
    service.toast_delivered("tx");
    assert!(service.notify_tx("tx", true, 1, true, 120).is_none());
}

#[test]
fn discreet_redacts_the_live_transaction_notification() {
    let mut service = service_with_target(100);
    let mut calls = vec![];
    service.discreet = true;
    notify_tx(&mut service, &mut calls, "txhush", true, 42_000_000, true, 120);
    assert_eq!(calls.len(), 1);
    // Neither amount nor direction leaks; the deep link still opens the tx.
    assert_eq!(calls[0].title, "New transaction detected");
    assert!(!calls[0].body.contains("ZEC"));
    assert!(!calls[0].body.contains("arrived"));
    assert!(!calls[0].body.contains("sent"));
    assert_eq!(calls[0].deep_link, "pendrake://tx?txid=txhush");
}

#[test]
fn set_discreet_persists_to_meta() {
    let mut service = service_with_target(100);
    let active = FileRead::Text("ab".to_string());
    let save = service.set_discreet(&active, true).unwrap();
    assert!(save.meta.discreet);
    assert_eq!(save.file, b"/data/wallets/ab/meta.json");
    // The metadata to be saved holds the choice; it is in force once it was saved.
    assert!(service.meta.as_ref().unwrap().discreet);
    assert!(!service.discreet);
    assert!(!service.setting_saved(Setting::Discreet, true));
    assert!(service.discreet);
    assert!(service.wallet_state(&FileRead::Missing).discreet);
}

#[test]
fn settings_need_a_wallet() {
    let mut service = service();
    assert_eq!(
        service.set_notifications(&FileRead::Missing, false).unwrap_err(),
        "no wallet to set notifications for"
    );
    assert_eq!(
        service.set_fiat_enabled(&FileRead::Missing, true).unwrap_err(),
        "no wallet to set fiat display for"
    );
    assert_eq!(
        service.set_discreet(&FileRead::Missing, true).unwrap_err(),
        "no wallet to set discreet mode for"
    );
}

#[test]
fn enabling_fiat_wakes_the_price_loop() {
    let mut service = service_with_target(0);
    // No wallet is active: the metadata is at the root.
    let save = service.set_fiat_enabled(&FileRead::Missing, true).unwrap();
    assert!(save.meta.fiat_enabled);
    assert_eq!(save.file, b"/data/meta.json");
    assert!(!service.may_fetch_prices());
    assert!(service.setting_saved(Setting::Fiat, true));
    assert!(service.may_fetch_prices());
    service.lock_session();
    assert!(!service.may_fetch_prices());
    assert!(!service.setting_saved(Setting::Fiat, false));
    let save = service
        .set_notifications(&FileRead::Text("cd\n".to_string()), false)
        .unwrap();
    assert_eq!(save.file, b"/data/wallets/cd/meta.json");
    assert!(!service.meta.as_ref().unwrap().notifications_enabled);
    assert!(!service.setting_saved(Setting::Notifications, false));
    assert!(!service.notifications_enabled);
}

fn txid(byte: u8) -> TxId {
    TxId::from_bytes([byte; 32])
}

fn summary_at(txid_byte: u8, kind: TransactionKind, value: u64, height: u32) -> TransactionSummary {
    TransactionSummary {
        txid: txid(txid_byte),
        datetime: 0,
        status: ConfirmationStatus::Confirmed(height),
        blockheight: height,
        kind,
        value,
        balance_delta: None,
        ironwood_notes: vec![],
        orchard_notes: vec![],
        sapling_notes: vec![],
        transparent_coins: vec![],
        outgoing_ironwood_notes: vec![],
        outgoing_orchard_notes: vec![],
        outgoing_sapling_notes: vec![],
        outgoing_transparent_coins: vec![],
    }
}

#[test]
fn a_received_summary_feeds_toast_cache_and_event() {
    let mut service = service_with_target(100);
    let id = txid(0x11);

    let news = service.on_tx_summary(
        id,
        &summary_at(0x11, TransactionKind::Received, 42_000_000, 120),
    );

    // The summary's kind, value and height flow to the movement toast.
    let toast = news.toast.unwrap();
    assert_eq!(toast.title, "Funds received");
    assert_eq!(
        toast.deep_link,
        format!("pendrake://tx?txid={}", id.to_string())
    );
    // ...and to the cache the GUI reads.
    assert!(service.txs.iter().any(|t| t.txid == id.to_string()));
    // ...and to the event the GUI folds in.
    match news.event {
        SyncEvent::Transaction {
            txid,
            kind,
            value_zat,
            received,
        } => {
            assert_eq!(txid, id.to_string());
            assert_eq!(kind, TxKind::Received);
            assert_eq!(value_zat, "42000000");
            assert!(received);
        }
        other => panic!("expected a Transaction event, got {other:?}"),
    }
}

#[test]
fn a_sent_summary_reads_as_sent() {
    let mut service = service_with_target(100);
    let news = service.on_tx_summary(
        txid(0x22),
        &summary_at(0x22, TransactionKind::Sent(SendType::Send), 7_000_000, 120),
    );
    assert_eq!(news.toast.unwrap().title, "Funds sent");
    match news.event {
        SyncEvent::Transaction { kind, received, .. } => {
            assert_eq!(kind, TxKind::Sent);
            assert!(!received);
        }
        other => panic!("expected a Transaction event, got {other:?}"),
    }
}

#[test]
fn a_historical_summary_updates_cache_but_stays_silent() {
    let mut service = service_with_target(100);
    let id = txid(0x33);

    // Confirmed below the target: the extracted height drives the policy's silent path,
    // yet the cache and event still update so the GUI stays consistent.
    let news = service.on_tx_summary(
        id,
        &summary_at(0x33, TransactionKind::Received, 42_000_000, 50),
    );

    assert!(news.toast.is_none());
    assert!(service.txs.iter().any(|t| t.txid == id.to_string()));
    assert!(matches!(news.event, SyncEvent::Transaction { .. }));
}

#[test]
fn a_found_transaction_takes_its_place_in_the_cache() {
    let mut service = service_with_target(100);
    service.on_tx_summary(txid(1), &summary_at(1, TransactionKind::Received, 1, 120));
    service.on_tx_summary(txid(2), &summary_at(2, TransactionKind::Received, 2, 120));
    // The newest stands first.
    assert_eq!(service.txs[0].txid, txid(2).to_string());
    assert_eq!(service.txs[1].net_zat, "0");
    let mut again = summary_at(1, TransactionKind::Sent(SendType::Send), 5, 121);
    again.balance_delta = Some(-7);
    service.on_tx_summary(txid(1), &again);
    assert_eq!(service.txs.len(), 2);
    assert_eq!(service.txs[1].net_zat, "-7");
    assert_eq!(service.txs[1].value_zat, "5");
    assert_eq!(
        service
            .get_transaction(&txid(1).to_string())
            .unwrap()
            .value_zat,
        "5"
    );
    assert!(service.get_transaction("none").is_none());
}

#[test]
fn request_failed_is_unreachable() {
    let unavailable = SyncError::ServerError(ServerError::RequestFailed("down".to_string()));
    assert!(is_unreachable(&unavailable));

    let timeout = SyncError::ServerError(ServerError::RequestFailed("timeout".to_string()));
    assert!(is_unreachable(&timeout));
}

#[test]
fn non_connectivity_errors_are_not_unreachable() {
    // Bad data from a reachable server: the connection worked, so changing it wouldn't
    // help.
    let bad_data = SyncError::ServerError(ServerError::InvalidSubtreeRoot);
    assert!(!is_unreachable(&bad_data));

    // An internal channel drop, not a transport failure to the Indexer.
    let dropped = SyncError::ServerError(ServerError::FetcherDropped);
    assert!(!is_unreachable(&dropped));

    // A consensus/state error has nothing to do with reachability.
    let chain = SyncError::ChainError(100, 50, 50);
    assert!(!is_unreachable(&chain));
}

#[test]
fn a_wrong_chain_round_notifies_once_and_marks_the_status() {
    let mut service = service_with_target(100);
    let failure = || RoundError {
        message: "chain mismatch".to_string(),
        unreachable: false,
        wrong_chain: true,
    };

    let first = service.note_round_failure(failure());
    // The backoff loop re-reports the same episode; the user hears it once.
    let second = service.note_round_failure(failure());

    let toast = first.wrong_chain.unwrap();
    assert!(first.unreachable.is_none());
    assert_eq!(toast.title, "Wrong chain detected");
    assert_eq!(toast.deep_link, "pendrake://settings/indexer");
    assert!(second.wrong_chain.is_none());
    assert!(second.unreachable.is_none());
    assert!(matches!(
        second.event,
        SyncEvent::Error {
            wrong_chain: true,
            unreachable: false,
            ..
        }
    ));

    assert_eq!(service.sync.state, SyncState::Error);
    assert_eq!(service.sync.error.as_deref(), Some("chain mismatch"));
    assert!(service.sync.wrong_chain);
    assert!(!service.sync.unreachable);
}

#[test]
fn an_unreachable_round_never_raises_the_wrong_chain_alert() {
    let mut service = service_with_target(100);

    let failure = service.note_round_failure(RoundError {
        message: "connection refused".to_string(),
        unreachable: true,
        wrong_chain: false,
    });

    assert!(failure.wrong_chain.is_none());
    assert_eq!(failure.unreachable.unwrap().title, "Can't reach your Indexer");
    assert!(service.sync.unreachable);
    assert!(!service.sync.wrong_chain);
}

#[test]
fn an_outage_names_the_server_and_a_new_episode_notifies_again() {
    let mut service = service_with_target(100);
    service.client_open = true;
    service.sync_wallet().unwrap();
    let outage = || RoundError {
        message: "down".to_string(),
        unreachable: true,
        wrong_chain: false,
    };
    // No address: the Indexer has no name.
    assert_eq!(
        service.note_round_failure(outage()).unreachable.unwrap().body,
        "Pendrake can't reach your Indexer. Open to choose another server."
    );
    service.round_succeeded();
    service.meta.as_mut().unwrap().indexer_uri = "https://zec.rocks:443".to_string();
    assert_eq!(
        service.note_round_failure(outage()).unreachable.unwrap().body,
        "Pendrake can't reach zec.rocks. Open to choose another server."
    );
    assert!(service.note_round_failure(outage()).unreachable.is_none());
    // A change of Indexer starts a new episode.
    assert!(service.indexer_saved());
    assert_eq!(service.sync.state, SyncState::Syncing);
    assert_eq!(service.sync.error, None);
    assert_eq!(
        service
            .fail_round(outage(), "example.org")
            .unreachable
            .unwrap()
            .body,
        "Pendrake can't reach example.org. Open to choose another server."
    );
}

#[test]
fn ct_eq_matches_only_identical_bytes() {
    assert!(ct_eq(b"correct horse", b"correct horse"));
    assert!(ct_eq(b"", b""));
    assert!(!ct_eq(b"correct horse", b"correct mouse"));
    // Differing lengths are unequal, never a panic or a prefix match.
    assert!(!ct_eq(b"horse", b"horses"));
}

#[test]
fn verify_passphrase_checks_the_held_session_passphrase() {
    let mut service = service();
    // Nothing held (cold daemon): every guess is rejected.
    assert!(!service.verify_passphrase("anything"));

    service.session_passphrase = Some("correct horse".into());
    assert!(service.verify_passphrase("correct horse"));
    assert!(!service.verify_passphrase("wrong"));
}

fn cached_note() -> WalletNote {
    WalletNote {
        idx: 0,
        pool: Pool::Orchard,
        value_zat: "5000".into(),
        status: NoteStatus::Unspent,
        height: Some(10),
        txid: "aa".into(),
        change: false,
        spent_height: None,
    }
}

#[test]
fn notes_without_a_wallet_are_empty_not_stale() {
    let mut service = service();
    // A leftover cached row must not leak through the no-wallet path.
    service.notes.push(cached_note());
    assert!(service.collect_notes(NotesRead::Busy).is_empty());
}

#[test]
fn a_busy_wallet_serves_the_cached_notes() {
    let mut service = service();
    service.client_open = true;
    service.notes.push(cached_note());
    assert_eq!(service.collect_notes(NotesRead::Busy), vec![cached_note()]);
    let outputs = WalletOutputs {
        transactions: vec![],
        ironwood: vec![OutputSummary {
            value: 9,
            status: ConfirmationStatus::Confirmed(3),
            block_height: 3,
            spend_status: SpendStatus::Unspent,
            txid: txid(1),
            change: true,
        }],
        orchard: vec![],
        sapling: vec![],
        transparent: vec![],
    };
    let rows = service.collect_notes(NotesRead::Outputs(outputs));
    assert_eq!(rows.len(), 1);
    assert_eq!(rows[0].pool, Pool::Ironwood);
    assert_eq!(service.notes, rows);
}

#[test]
fn remove_clears_the_notes_cache() {
    let mut service = service();
    service.notes.push(cached_note());
    service.remove(false);
    assert!(service.notes.is_empty());
}

#[test]
fn get_notes_answers_an_empty_array_on_a_fresh_service() {
    let mut service = service();
    assert_eq!(
        service.handle("getNotes", &Value::Null),
        Ok(Demand::GetNotes)
    );
    assert!(service.collect_notes(NotesRead::Busy).is_empty());
}

#[test]
fn remove_keeps_the_session_passphrase_only_for_replace() {
    let mut service = service();

    // Replace (keep_session) retains it, so onboarding can skip Set Password.
    service.session_passphrase = Some("pw".into());
    service.remove(true);
    assert_eq!(service.session_passphrase.as_deref(), Some("pw"));
    assert!(service.verify_passphrase("pw"));

    // Start over drops it, so onboarding asks for a new passphrase.
    service.remove(false);
    assert!(service.session_passphrase.is_none());
}

#[test]
fn remove_forgets_the_wallet() {
    let mut service = service_with_target(100);
    service.client_open = true;
    service.encrypted = true;
    service.session_locked = true;
    service.fiat_enabled = true;
    service.discreet = true;
    service.balance = Some(Balance::default());
    service.on_tx_summary(txid(1), &summary_at(1, TransactionKind::Received, 1, 10));
    let generation = service.generation;
    service.remove(false);
    assert!(service.meta.is_none());
    assert!(!service.client_open);
    assert!(service.txs.is_empty());
    assert!(service.balance.is_none());
    assert!(!service.session_locked());
    assert!(!service.fiat_enabled);
    assert!(!service.discreet);
    assert!(!service.notify.has_seen(&txid(1).to_string()));
    assert_eq!(service.generation, generation + 1);
    assert_eq!(service.get_balance(), Balance::default());
}

#[test]
fn the_files_of_the_active_wallet_go_with_it() {
    let service = service();
    let removal = service.removal(&FileRead::Text("ab\n".to_string()));
    assert_eq!(removal.meta_file, b"/data/wallets/ab/meta.json");
    assert_eq!(removal.wallet_dir, b"/data/wallets/ab/wallet");
    let own = removal.active.unwrap();
    assert_eq!(own.dir, b"/data/wallets/ab");
    assert_eq!(own.id_file, b"/data/active_wallet_id");
    let removal = service.removal(&FileRead::Failed);
    assert_eq!(removal.meta_file, b"/data/meta.json");
    assert!(removal.active.is_none());
    assert!(remove_args(Some(RemoveArgs { keep_session: true })).keep_session);
    assert!(!remove_args(None).keep_session);
}

#[test]
fn allowlist_permits_lifecycle_and_denies_wallet_reads() {
    for m in [
        "getWalletState",
        "getSyncStatus",
        "parseUfvk",
        "importUfvk",
        "unlock",
        "lock",
        "verifyPassphrase",
        "removeWallet",
        "subscribeEvents",
        "listWallets",
        "shutdown",
    ] {
        assert!(
            allowed_while_locked(m),
            "{m} should be allowed while locked"
        );
    }
    for m in [
        "getBalance",
        "getTransactions",
        "getAddresses",
        "getTransaction",
        "setIndexer",
    ] {
        assert!(!allowed_while_locked(m), "{m} should be gated while locked");
    }
}

#[test]
fn lock_session_arms_gate_but_keeps_the_session_key() {
    let mut service = service();
    service.session_passphrase = Some("pw".into());
    service.session_locked = false;

    service.lock_session();

    assert!(service.session_locked());
    // The key is retained so background sync survives the lock.
    assert!(service.session_passphrase.is_some());
}

#[test]
fn handle_gates_wallet_reads_while_locked() {
    let mut service = service();
    service.session_locked = true;

    // Lifecycle and auth stay available so the GUI can route and re-authenticate.
    assert!(service.handle("getWalletState", &Value::Null).is_ok());
    assert!(service.handle("lock", &Value::Null).is_ok());

    // Wallet reads are refused while the session is locked.
    assert!(service.handle("getBalance", &Value::Null).is_err());
    assert!(service.handle("getTransactions", &Value::Null).is_err());
    assert!(service.handle("getAddresses", &Value::Null).is_err());
    assert_eq!(
        service.handle("noSuchMethod", &Value::Null),
        Err("wallet is locked".to_string())
    );
}

#[test]
fn a_request_is_told_what_it_asks_for() {
    let service = service();
    assert_eq!(
        service.handle("noSuchMethod", &Value::Null),
        Err("unknown method: noSuchMethod".to_string())
    );
    assert_eq!(
        service.handle("getTransaction", &Value::Null),
        Err("getTransaction needs a txid".to_string())
    );
    assert_eq!(
        service.handle("parseUfvk", &serde_json::from_str("{\"ufvk\":7}").unwrap()),
        Err("parseUfvk needs a ufvk".to_string())
    );
    assert_eq!(
        service.handle(
            "getTransaction",
            &serde_json::from_str("{\"txid\":\"ab\",\"x\":1}").unwrap()
        ),
        Ok(Demand::GetTransaction {
            txid: "ab".to_string()
        })
    );
    assert_eq!(
        service.handle(
            "parseUfvk",
            &serde_json::from_str("{\"ufvk\":\"uview1\"}").unwrap()
        ),
        Ok(Demand::ParseUfvk {
            ufvk: "uview1".to_string()
        })
    );
    assert_eq!(
        service.handle("shutdown", &Value::Null),
        Ok(Demand::Shutdown)
    );
}

#[test]
fn every_method_is_known_by_its_name() {
    for m in [
        Method::GetWalletState,
        Method::SetWalletLabel,
        Method::SetFiatEnabled,
        Method::GetPriceHistory,
        Method::SubscribeEvents,
    ] {
        assert_eq!(Method::named(m.name_text()), Some(m));
    }
    assert_eq!(Method::named("getwalletstate"), None);
}

#[test]
fn last_subscriber_relocks_an_encrypted_session_only() {
    let mut service = service();
    service.encrypted = true;
    service.session_locked = false;

    // Two feeds: the first to leave is not the last, so it must not relock.
    service.subscriber_joined();
    service.subscriber_joined();
    service.subscriber_left();
    assert!(!service.session_locked());
    // The last one out relocks, so the next GUI session re-authenticates.
    service.subscriber_left();
    assert!(service.session_locked());
}

#[test]
fn last_subscriber_does_not_relock_a_plaintext_session() {
    let mut service = service();
    service.encrypted = false;
    service.session_locked = false;

    service.subscriber_joined();
    service.subscriber_left();
    // A plaintext wallet has no passphrase to demand, so it stays open.
    assert!(!service.session_locked());
}

#[test]
fn an_encrypted_wallet_starts_locked_and_a_plaintext_one_is_opened() {
    let mut meta = meta_with_target(5);
    meta.encrypted = true;
    meta.discreet = true;
    let (service, to_open) =
        WalletService::load(test_paths(), vec![], PriceCache::new(), Ok(Some(meta))).unwrap();
    assert!(to_open.is_none());
    assert!(service.session_locked());
    assert!(service.discreet);
    assert!(service.wallet_state(&FileRead::Missing).locked);

    let plain = meta_with_target(5);
    let (mut service, to_open) =
        WalletService::load(test_paths(), vec![], PriceCache::new(), Ok(Some(plain))).unwrap();
    let meta = to_open.unwrap();
    assert!(!service.session_locked());
    assert!(service.meta.is_none());
    service.loaded(meta, true);
    assert!(service.client_open);
    assert_eq!(service.scan_target(), 5);

    assert_eq!(
        WalletService::load(
            test_paths(),
            vec![],
            PriceCache::new(),
            Err("parsing meta.json".to_string())
        )
        .err(),
        Some("parsing meta.json".to_string())
    );
}

#[test]
fn a_wallet_that_does_not_open_is_not_shown() {
    let plain = meta_with_target(5);
    let (mut service, to_open) =
        WalletService::load(test_paths(), vec![], PriceCache::new(), Ok(Some(plain))).unwrap();
    service.loaded(to_open.unwrap(), false);
    assert!(!service.client_open);
    assert!(!service.wallet_state(&FileRead::Missing).exists);
}

#[test]
fn unlocking_takes_the_passphrase_that_opened_the_wallet() {
    let mut service = service();
    assert_eq!(
        service.unlock("pw"),
        Err("no wallet to unlock".to_string())
    );
    let mut meta = meta_with_target(0);
    meta.encrypted = true;
    service.meta = Some(meta);
    service.session_locked = true;
    // Cold: the file is to be opened with the passphrase.
    assert_eq!(service.unlock("pw"), Ok(Unlock::Open));
    assert!(service.session_locked());
    let generation = service.generation;
    assert_eq!(unlock_failed("bad mac"), "unlock failed: bad mac");
    service.unlocked("pw".to_string());
    assert!(!service.session_locked());
    assert!(service.client_open);
    assert_ne!(service.generation, generation);
    // Warm: verified against the held passphrase.
    service.lock_session();
    assert_eq!(
        service.unlock("nope"),
        Err("incorrect passphrase".to_string())
    );
    assert!(service.session_locked());
    assert_eq!(service.unlock("pw"), Ok(Unlock::Done));
    assert!(!service.session_locked());
    // A plaintext wallet has none to check.
    service.meta.as_mut().unwrap().encrypted = false;
    service.lock_session();
    assert_eq!(service.unlock("anything"), Ok(Unlock::Done));
}

#[test]
fn selecting_a_wallet_clears_the_one_before() {
    let mut service = service_with_target(1);
    service.client_open = true;
    service.notes.push(cached_note());
    service.unreachable_notified = true;
    assert_eq!(
        service.select_wallet("zz", Ok(None)).unwrap_err(),
        "no wallet with id zz"
    );
    assert!(service.client_open);
    let mut next = meta_with_target(9);
    next.encrypted = true;
    let meta = service.select_wallet("ab", Ok(Some(next))).unwrap();
    assert!(!service.client_open);
    assert!(service.notes.is_empty());
    service.notify.live = true;
    assert!(service.wallet_selected(meta, vec!["aa".to_string()]).is_none());
    // It brings its own seen-set, and its own Initial scan.
    assert_eq!(service.notify.seen, vec!["aa".to_string()]);
    assert!(!service.notify.live);
    assert!(service.session_locked());
    assert!(!service.unreachable_notified);
    assert_eq!(service.scan_target(), 9);
    assert_eq!(service.sync, SyncStatus::default());

    let plain = meta_with_target(3);
    let meta = service.select_wallet("cd", Ok(Some(plain))).unwrap();
    let meta = service.wallet_selected(meta, vec![]).unwrap();
    assert!(!service.notify.has_seen("aa"));
    assert!(!service.session_locked());
    // The metadata follows once the wallet is open.
    assert_eq!(service.scan_target(), 9);
    assert_eq!(
        open_failed("cd", "corrupt"),
        "failed to open wallet cd: corrupt"
    );
    service.wallet_opened(meta);
    assert_eq!(service.scan_target(), 3);
    assert!(service.client_open);
}

#[test]
fn sync_starts_only_for_an_open_wallet() {
    let mut service = service();
    assert_eq!(
        service.sync_wallet(),
        Err("wallet is locked or not loaded".to_string())
    );
    assert_eq!(service.generation, 0);
    service.client_open = true;
    service.wrong_chain_notified = true;
    let status = service.sync_wallet().unwrap();
    assert_eq!(status.state, SyncState::Syncing);
    assert_eq!(service.generation, 1);
    assert!(!service.wrong_chain_notified);
}

#[test]
fn a_change_of_server_starts_no_sync() {
    let mut service = service_with_target(1);
    service.client_open = true;
    service.sync.error = Some("old".to_string());
    service.sync.unreachable = true;
    // Nobody asked this wallet to sync.
    assert!(!service.indexer_saved());
    assert_eq!(service.sync, SyncStatus::default());
    assert_eq!(service.sync.state, SyncState::Idle);
    // One that follows the tip goes on doing so.
    service.sync_wallet().unwrap();
    assert!(service.indexer_saved());
    assert_eq!(service.sync.state, SyncState::Syncing);
    // Another wallet is not to be synced on its account.
    let meta = service
        .select_wallet("cd", Ok(Some(meta_with_target(3))))
        .unwrap();
    let meta = service.wallet_selected(meta, vec![]).unwrap();
    service.wallet_opened(meta);
    assert!(!service.indexer_saved());
    assert_eq!(service.sync.state, SyncState::Idle);
    // Neither is one that was unlocked, nor what is left of one that was removed.
    service.sync_wallet().unwrap();
    service.unlocked("pw".to_string());
    assert!(!service.following);
    service.sync_wallet().unwrap();
    service.remove(false);
    assert!(!service.following);
}

#[test]
fn a_sync_request_is_for_the_wallet_it_names() {
    let service = service();
    let asked = |params: &str| {
        service.handle("syncWallet", &serde_json::from_str(params).unwrap())
    };
    assert_eq!(asked("null"), Ok(Demand::SyncWallet { id: None }));
    assert_eq!(asked("{}"), Ok(Demand::SyncWallet { id: None }));
    assert_eq!(asked("{\"id\":null}"), Ok(Demand::SyncWallet { id: None }));
    assert_eq!(
        asked("{\"id\":\"cd\"}"),
        Ok(Demand::SyncWallet {
            id: Some("cd".to_string())
        })
    );
    let active = FileRead::Text("ab\n".to_string());
    assert_eq!(service.sync_plan(&active, None), SyncPlan::Active);
    assert_eq!(
        service.sync_plan(&active, Some("ab".to_string())),
        SyncPlan::Active
    );
    for (now, id) in [(&active, "cd"), (&FileRead::Missing, "ab")] {
        assert_eq!(
            service.sync_plan(now, Some(id.to_string())),
            SyncPlan::Select { id: id.to_string() }
        );
    }
    assert_eq!(service.sync_plan(&FileRead::Missing, None), SyncPlan::Active);
}

#[test]
fn wallets_are_listed_by_name_fingerprint_or_id() {
    let service = service();
    let mut named = meta_with_target(0);
    named.label = Some("  Savings ".to_string());
    let mut blank = meta_with_target(0);
    blank.label = Some(" \t".to_string());
    blank.fingerprint = Some("0123456789abcdef".to_string());
    let mut found = vec![
        Found {
            id: "aaaaaaaaaaaa".to_string(),
            meta: Ok(Some(named)),
        },
        Found {
            id: "bbbbbbbbbbbb".to_string(),
            meta: Ok(Some(blank)),
        },
        Found {
            id: "gone".to_string(),
            meta: Ok(None),
        },
        Found {
            id: "cccccccccccc".to_string(),
            meta: Ok(Some(meta_with_target(0))),
        },
    ];
    let list = |found: Vec<Found>, active: FileRead| service.list_wallets(&active, &Ok(found));
    found.push(Found {
        id: "dd".to_string(),
        meta: Err("reading meta.json".to_string()),
    });
    assert_eq!(
        list(found, FileRead::Missing).unwrap_err(),
        "reading meta.json"
    );
    let rows = list(
        vec![
            Found {
                id: "aaaaaaaaaaaa".to_string(),
                meta: Ok(Some({
                    let mut m = meta_with_target(0);
                    m.label = Some("  Savings ".to_string());
                    m
                })),
            },
            Found {
                id: "gone".to_string(),
                meta: Ok(None),
            },
            Found {
                id: "bbbbbbbbbbbb".to_string(),
                meta: Ok(Some({
                    let mut m = meta_with_target(0);
                    m.label = Some(" \t".to_string());
                    m.fingerprint = Some("0123456789abcdef".to_string());
                    m
                })),
            },
            Found {
                id: "cccccccccccc".to_string(),
                meta: Ok(Some(meta_with_target(0))),
            },
        ],
        FileRead::Text("bbbbbbbbbbbb\n".to_string()),
    )
    .unwrap();
    assert_eq!(
        rows.iter().map(|r| r.label.as_str()).collect::<Vec<_>>(),
        vec!["Savings", "01234567", "cccccccc"]
    );
    assert_eq!(
        rows.iter().map(|r| r.active).collect::<Vec<_>>(),
        vec![false, true, false]
    );
    assert_eq!(
        service
            .list_wallets(&FileRead::Failed, &Ok(vec![]))
            .unwrap_err(),
        "reading active_wallet_id"
    );
    assert_eq!(
        service
            .list_wallets(&FileRead::Missing, &Err("reading wallets dir".to_string()))
            .unwrap_err(),
        "reading wallets dir"
    );
}

#[test]
fn a_label_is_trimmed_and_cut() {
    let mut service = service();
    let label = |service: &WalletService, text: &str| {
        service
            .set_wallet_label("ab", text, Ok(Some(meta_with_target(0))))
            .unwrap()
            .meta
            .label
    };
    assert_eq!(label(&service, "  "), None);
    assert_eq!(label(&service, " My wallet\n"), Some("My wallet".to_string()));
    let long = "\u{e9}".repeat(70);
    assert_eq!(label(&service, &long), Some("\u{e9}".repeat(64)));
    // It goes to the named wallet's own file, active or not.
    assert_eq!(
        service
            .set_wallet_label("ab", "x", Ok(Some(meta_with_target(0))))
            .unwrap()
            .file,
        b"/data/wallets/ab/meta.json"
    );
    assert_eq!(
        service.set_wallet_label("ab", "x", Ok(None)).unwrap_err(),
        "no wallet with id ab"
    );
    // The metadata at hand follows only for the active wallet.
    let mut named = meta_with_target(0);
    named.label = Some("x".to_string());
    service
        .label_saved("ab", &FileRead::Text("cd".to_string()), named)
        .unwrap();
    assert!(service.meta.is_none());
    let mut named = meta_with_target(0);
    named.label = Some("x".to_string());
    service
        .label_saved("ab", &FileRead::Text("ab".to_string()), named)
        .unwrap();
    assert_eq!(
        service
            .wallet_state(&FileRead::Text("ab".to_string()))
            .label
            .as_deref(),
        Some("x")
    );
    assert!(service
        .label_saved("ab", &FileRead::Failed, meta_with_target(0))
        .is_err());
}

#[test]
fn the_wallet_state_shows_the_active_wallet() {
    let mut service = service_with_target(0);
    service.meta.as_mut().unwrap().indexer_uri = "https://zec.rocks:443".to_string();
    service.session_passphrase = Some("pw".to_string());
    let state = service.wallet_state(&FileRead::Text(" ab \n".to_string()));
    assert!(state.exists);
    assert!(state.session_held);
    assert_eq!(state.wallet_id.as_deref(), Some("ab"));
    assert_eq!(state.indexer_uri, "https://zec.rocks:443");
    assert_eq!(service.wallet_state(&FileRead::Failed).wallet_id, None);
    let none = no_wallet_state(false);
    assert!(!none.exists);
    assert!(none.notifications_enabled);
    assert_eq!(none.indexer_uri, "");
}

#[test]
fn a_client_falls_back_to_the_default_indexer() {
    let service = service();
    let config = |uri: &str| {
        service.client_config(
            &FileRead::Text("ab".to_string()),
            Network::Regtest,
            uri,
            "https://default.example:443",
            WalletConfig::Read,
        )
    };
    assert_eq!(
        config("https://zec.rocks:443").indexer_uri,
        "https://zec.rocks:443"
    );
    assert_eq!(
        config("not a uri").indexer_uri,
        "https://default.example:443"
    );
    assert_eq!(config("").wallet_dir, b"/data/wallets/ab/wallet");
    assert_eq!(config("").network, Network::Regtest);
}

#[test]
fn shutdown_wakes_the_host_once() {
    let mut service = service();
    assert!(!service.shutdown());
    service.arm_shutdown();
    assert!(service.shutdown());
    assert!(!service.shutdown());
}

#[test]
fn a_snapshot_fills_the_caches() {
    let snapshot = || Snapshot {
        summaries: Some(vec![
            TransactionSummary {
                orchard_notes: vec![BasicNoteSummary {
                    value: 100,
                    spend_status: SpendStatus::Spent(txid(2)),
                    output_index: 0,
                    memo: None,
                }],
                ..summary_at(1, TransactionKind::Received, 100, 5)
            },
            summary_at(2, TransactionKind::Sent(SendType::Send), 90, 6),
        ]),
        balance: Some(AccountBalance {
            confirmed_orchard_balance: Some(1),
            total_orchard_balance: Some(1),
            confirmed_sapling_balance: None,
            total_sapling_balance: None,
            confirmed_transparent_balance: None,
            total_transparent_balance: None,
            confirmed_ironwood_balance: None,
            total_ironwood_balance: None,
        }),
        unified: vec![Some("u1".to_string()), None, Some("u2".to_string())],
        transparent: Some("t1".to_string()),
    };
    let mut service = service();
    service.refresh_snapshot(snapshot());
    assert!(service.txs.is_empty());
    service.client_open = true;
    service.refresh_snapshot(snapshot());
    assert_eq!(service.txs[0].net_zat, "100");
    assert_eq!(service.txs[1].net_zat, "-100");
    assert_eq!(service.get_balance().orchard.unwrap().total, "1");
    assert_eq!(service.addresses.len(), 2);
    assert_eq!(service.addresses[0].transparent.as_deref(), Some("t1"));
    assert_eq!(service.addresses[1].ua, "u2");
    assert_eq!(service.addresses[1].transparent, None);
    // What could not be read stays as it was.
    service.refresh_snapshot(Snapshot {
        summaries: None,
        balance: None,
        unified: vec![None, Some("u3".to_string())],
        transparent: Some("t1".to_string()),
    });
    assert_eq!(service.txs.len(), 2);
    assert!(service.balance.is_some());
    assert_eq!(service.addresses[0].ua, "u3");
    assert_eq!(service.addresses[0].transparent, None);
}

fn import_args(network: Network, uri: &str, passphrase: Option<&str>) -> ImportUfvkArgs {
    ImportUfvkArgs {
        ufvk: "uview1".to_string(),
        birthday: BirthdayInput::Height(7),
        indexer_uri: uri.to_string(),
        network,
        passphrase: passphrase.map(str::to_string),
    }
}

fn identity(network: UfvkNetwork) -> Result<UfvkIdentity, String> {
    Ok(UfvkIdentity {
        network,
        fingerprint: "f00d".to_string(),
        pools: vec![Pool::Orchard],
    })
}

#[test]
fn an_import_is_judged_before_the_indexer_is_asked() {
    let mut service = service();
    let uri = "https://zec.rocks:443";
    let import = |service: &WalletService, args: ImportUfvkArgs, id: Result<UfvkIdentity, String>| {
        service
            .import_ufvk(args, id)
            .map(|i| (i.id, i.passphrase))
    };
    assert_eq!(
        import(
            &service,
            import_args(Network::Mainnet, uri, Some("pw")),
            Err("bad key".to_string())
        ),
        Err("bad key".to_string())
    );
    assert_eq!(
        import(
            &service,
            import_args(Network::Regtest, uri, Some("pw")),
            identity(UfvkNetwork::Mainnet)
        ),
        Err("the key is Mainnet but the import requested Regtest".to_string())
    );
    assert_eq!(
        import(
            &service,
            import_args(Network::Mainnet, uri, None),
            identity(UfvkNetwork::Mainnet)
        ),
        Err("no session passphrase held for this import".to_string())
    );
    assert_eq!(
        import(
            &service,
            import_args(Network::Mainnet, "not a uri", Some("pw")),
            identity(UfvkNetwork::Mainnet)
        ),
        Err("invalid indexer uri".to_string())
    );
    assert_eq!(
        import(
            &service,
            import_args(Network::Mainnet, uri, Some("pw")),
            identity(UfvkNetwork::Mainnet)
        ),
        Ok(("f00d".to_string(), "pw".to_string()))
    );
    // A post-Replace import reuses the passphrase that was held.
    service.session_passphrase = Some("held".to_string());
    assert_eq!(
        import(
            &service,
            import_args(Network::Mainnet, uri, None),
            identity(UfvkNetwork::Mainnet)
        ),
        Ok(("f00d".to_string(), "held".to_string()))
    );
}

// An import of a key on mainnet, with the Indexer's answers.
fn prepare(
    tip: Result<u32, String>,
    block: Result<Option<String>, String>,
) -> Result<Prepared, String> {
    let import = service()
        .import_ufvk(
            import_args(Network::Mainnet, "https://zec.rocks:443", Some("pw")),
            identity(UfvkNetwork::Mainnet),
        )
        .unwrap();
    let anchoring = import.with_tip(700, tip)?;
    assert_eq!(anchoring.asks_for(), 500);
    anchoring.with_block(block)
}

#[test]
fn an_import_pins_the_tip_and_the_anchor() {
    assert_eq!(prepare(Err("down".to_string()), Ok(None)).err().unwrap(), "down");
    assert_eq!(
        prepare(Ok(500), Ok(None)).err().unwrap(),
        "that server has no block at height 500"
    );
    assert_eq!(
        prepare(Ok(500), Err("gone".to_string())).err().unwrap(),
        "gone"
    );
    let prepared = prepare(Ok(500), Ok(Some("cafe".to_string()))).ok().unwrap();
    let meta = &prepared.meta;
    assert_eq!(meta.scan_target_height, 500);
    assert_eq!(meta.anchor_height, 500);
    assert_eq!(meta.anchor_hash.as_deref(), Some("cafe"));
    assert_eq!(meta.birthday_height, 700);
    assert!(meta.encrypted);
    assert_eq!(meta.fingerprint.as_deref(), Some("f00d"));
    assert_eq!(meta.indexer_uri, "https://zec.rocks:443");

    // Only the wallet's own directory is touched.
    let plan = prepared.on_disk(&test_paths());
    assert_eq!(plan.wipe, b"/data/wallets/f00d/wallet");
    assert_eq!(plan.dirs.len(), 2);
    assert_eq!(plan.dirs[0].path, b"/data/wallets");
    assert_eq!(plan.dirs[0].failure, "creating wallets dir /data/wallets");
    assert_eq!(plan.dirs[1].path, b"/data/wallets/f00d/wallet");
    assert_eq!(
        plan.dirs[1].failure,
        "creating wallet dir /data/wallets/f00d/wallet"
    );
    assert_eq!(plan.active_file, b"/data/active_wallet_id");
    assert_eq!(plan.active_id, b"f00d");
    assert!(matches!(
        prepared.wallet_config(),
        WalletConfig::Ufvk { birthday: 700, .. }
    ));
    assert_eq!(creation_failed("x"), "client creation failed: x");
    let save = prepared.to_save(&test_paths(), &FileRead::Text("f00d".to_string()));
    assert_eq!(save.file, b"/data/wallets/f00d/meta.json");
    assert_eq!(save.meta.birthday_height, 700);

    let mut service = service();
    service.fiat_enabled = true;
    service.discreet = true;
    service.session_locked = true;
    service.imported(prepared);
    assert!(service.client_open);
    assert!(!service.fiat_enabled);
    assert!(!service.discreet);
    assert!(!service.session_locked());
    assert!(service.verify_passphrase("pw"));
    assert_eq!(service.generation, 1);
}

#[test]
fn a_key_is_told_good_testnet_or_malformed() {
    assert!(matches!(
        parse_ufvk_result(Ok(identity(UfvkNetwork::Regtest).unwrap())),
        ParseUfvkResult::Valid(_)
    ));
    assert_eq!(
        parse_ufvk_result(Err(UfvkError::Testnet)),
        ParseUfvkResult::Testnet
    );
    assert_eq!(
        parse_ufvk_result(Err(UfvkError::Malformed("short".to_string()))),
        ParseUfvkResult::Malformed {
            reason: "short".to_string()
        }
    );
}

#[test]
fn a_server_is_changed_only_for_one_on_the_same_chain() {
    let mut service = service();
    let change = |service: &WalletService, uri: &str| service.set_indexer(uri.to_string());
    assert_eq!(
        change(&service, "https://a.b").err(),
        Some("no wallet to set the indexer for".to_string())
    );
    service.meta = Some(Meta {
        anchor_height: 10,
        anchor_hash: Some("aa".to_string()),
        ..meta_with_target(50)
    });
    service.session_locked = true;
    assert_eq!(
        change(&service, "https://a.b").err(),
        Some("wallet is locked; unlock before changing the indexer".to_string())
    );
    service.session_locked = false;
    assert_eq!(
        change(&service, "no uri").err(),
        Some("invalid indexer uri".to_string())
    );
    let obs = |hash: &str| {
        Ok(ChainObservation {
            tip: 60,
            anchor_block_hash: Some(hash.to_string()),
        })
    };
    let wanted = || -> IndexerChange { change(&service, "https://a.b").ok().unwrap() };
    assert_eq!(wanted().probe.asks_for(), Some(10));
    assert_eq!(
        wanted().observed(Err("down".to_string())).err(),
        Some("down".to_string())
    );
    assert_eq!(
        wanted().observed(obs("bb")).err(),
        Some("that server is serving a different chain than this Wallet synced: block 10 doesn't match the one this Wallet synced.".to_string())
    );
    let accepted = wanted().observed(obs("aa")).ok().unwrap();
    assert_eq!(
        service.can_retarget(),
        Err("no wallet to set the indexer for".to_string())
    );
    service.client_open = true;
    assert_eq!(service.can_retarget(), Ok(()));
    assert_eq!(service.meta.as_ref().unwrap().indexer_uri, "");
    let active = FileRead::Text("ab".to_string());
    let save = service.retargeted(&active, accepted).unwrap();
    assert_eq!(save.file, b"/data/wallets/ab/meta.json");
    assert_eq!(save.meta.indexer_uri, "https://a.b");
    assert_eq!(service.meta.as_ref().unwrap().indexer_uri, "https://a.b");
}

#[test]
fn a_round_is_refused_on_another_chain_and_an_outage_is_no_verdict() {
    let mut service = service();
    let refused = service.verify_chain_identity().err().unwrap();
    assert_eq!(refused.message, "no wallet");
    service.meta = Some(Meta {
        indexer_uri: "no uri".to_string(),
        ..meta_with_target(1000)
    });
    let refused = service.verify_chain_identity().err().unwrap();
    assert_eq!(refused.message, "invalid indexer uri");
    assert!(!refused.unreachable);
    service.meta.as_mut().unwrap().indexer_uri = "https://zec.rocks:443".to_string();
    let check = service.verify_chain_identity().unwrap();
    assert_eq!(check.indexer_uri, "https://zec.rocks:443");
    assert_eq!(check.probe.asks_for(), None);

    let outage = judge_round(&check.probe, Err("down".to_string())).unwrap_err();
    assert_eq!(outage.message, "down");
    assert!(outage.unreachable);
    assert!(!outage.wrong_chain);

    let wrong = judge_round(
        &check.probe,
        Ok(ChainObservation {
            tip: 10,
            anchor_block_hash: None,
        }),
    )
    .unwrap_err();
    assert_eq!(
        wrong.message,
        "your Indexer is serving a different chain than this Wallet synced: the server's chain ends at block 10, far below the 1000 this Wallet synced"
    );
    assert!(wrong.wrong_chain);
    assert!(!wrong.unreachable);
    assert!(judge_round(
        &Probe {
            anchor_height: 0,
            anchor_hash: None,
            scan_target_height: 1000,
        },
        Ok(ChainObservation {
            tip: 950,
            anchor_block_hash: None,
        }),
    )
    .is_ok());
    assert_eq!(
        RoundError::start_failed("busy").message,
        "sync start failed: busy"
    );
}

#[test]
fn a_round_goes_through_its_stages_in_order() {
    let mut stage = RoundStage::Begin;
    let mut seen = vec![stage];
    while stage != RoundStage::Over {
        stage = stage.advance(StageEnd::Done).unwrap();
        seen.push(stage);
    }
    assert_eq!(
        seen,
        vec![
            RoundStage::Begin,
            RoundStage::Verify,
            RoundStage::Start,
            RoundStage::Run,
            RoundStage::Finalize,
            RoundStage::Rebuild,
            RoundStage::Announce,
            RoundStage::Over,
        ]
    );
    // A chain that is not the wallet's ends the round before the wallet is touched.
    let refused = RoundStage::Verify
        .advance(StageEnd::Failed(RoundError::local("no".to_string())))
        .unwrap_err();
    assert_eq!(refused.message, "no");
    // A round that is retired ends without a word.
    assert_eq!(
        RoundStage::Run.advance(StageEnd::Stopped).unwrap(),
        RoundStage::Over
    );
}

#[test]
fn an_anchor_is_adopted_once() {
    let mut service = service();
    assert!(service.adopt_anchor_if_missing().is_none());
    service.meta = Some(Meta {
        indexer_uri: "https://zec.rocks:443".to_string(),
        birthday_height: 20,
        ..meta_with_target(0)
    });
    let search = service.adopt_anchor_if_missing().unwrap();
    assert_eq!(search.birthday, 20);
    let active = FileRead::Text("ab".to_string());
    assert!(service
        .adopt_anchor(&active, 20, Err("down".to_string()), Ok(None))
        .is_none());
    assert!(service.adopt_anchor(&active, 20, Ok(100), Ok(None)).is_none());
    let save = service
        .adopt_anchor(&active, 20, Ok(100), Ok(Some("aa".to_string())))
        .unwrap();
    assert_eq!(save.file, b"/data/wallets/ab/meta.json");
    assert_eq!(save.meta.anchor_hash.as_deref(), Some("aa"));
    assert_eq!(service.meta.as_ref().unwrap().anchor_height, 20);
    // Another one is not taken.
    assert!(service.adopt_anchor_if_missing().is_none());
    assert!(service
        .adopt_anchor(&active, 20, Ok(100), Ok(Some("bb".to_string())))
        .is_none());
    assert_eq!(
        service.meta.as_ref().unwrap().anchor_hash.as_deref(),
        Some("aa")
    );
}

#[test]
fn the_end_of_the_initial_scan_is_announced_once() {
    let mut service = service_with_target(100);
    service.seed_live(10);
    let (status, toast) = service.finalize(90, 5);
    assert!(toast.is_none());
    assert_eq!(status.synced_height, 90);
    assert_eq!(status.percent, 100);
    assert_eq!(status.last_synced_at, Some(5));
    service.seed_live(90);
    let (_, toast) = service.finalize(100, 6);
    assert_eq!(toast.unwrap().title, "Wallet ready");
    let (_, toast) = service.finalize(101, 7);
    assert!(toast.is_none());

    // A wallet that began at or past the target never announces.
    let mut live = service_with_target(100);
    live.seed_live(100);
    assert!(live.finalize(120, 1).1.is_none());

    // With notifications off the crossing passes silently.
    let mut off = service_with_target(100);
    off.notifications_enabled = false;
    assert!(off.finalize(120, 1).1.is_none());
    off.notifications_enabled = true;
    assert!(off.finalize(121, 2).1.is_none());
}

#[test]
fn a_discovered_transaction_refreshes_the_balance() {
    let bal = AccountBalance {
        confirmed_orchard_balance: None,
        total_orchard_balance: None,
        confirmed_sapling_balance: Some(3),
        total_sapling_balance: Some(4),
        confirmed_transparent_balance: None,
        total_transparent_balance: None,
        confirmed_ironwood_balance: None,
        total_ironwood_balance: None,
    };
    let mut service = service();
    service.on_tx_discovered(Some(bal));
    assert!(service.balance.is_none());
    service.client_open = true;
    service.on_tx_discovered(None);
    assert!(service.balance.is_none());
    service.on_tx_discovered(Some(bal));
    assert_eq!(service.get_balance().sapling.unwrap().confirmed, "3");
}

#[test]
fn a_running_round_publishes_polls_and_ends() {
    let now = Instant { nanos: 0 };
    let mut run = RoundRun::new();
    assert!(!RoundRun::retired(3, 3));
    assert!(RoundRun::retired(3, 4));
    assert!(matches!(
        run.step(true, RoundInput::FlushTick, now, 0),
        RoundStep::Continue
    ));
    let lagged = RoundInput::Lagged(Some(ScannedOutputs {
        sapling: 1,
        orchard: 2,
        ironwood: 3,
    }));
    assert!(run.can_take(&lagged, now));
    assert!(matches!(run.step(true, lagged, now, 0), RoundStep::Continue));
    assert_eq!(run.view.scanned_outputs, 6);
    assert!(matches!(
        run.step(true, RoundInput::FlushTick, now, 0),
        RoundStep::Publish
    ));
    assert!(!run.dirty);
    run.step(true, RoundInput::Closed, now, 0);
    assert!(!run.stream_open);
    let poll = |run: &mut RoundRun, open: bool, report: PollReport| {
        run.step(open, RoundInput::Poll(report), now, 0)
    };
    assert!(matches!(
        poll(&mut run, true, PollReport::NotReady),
        RoundStep::Continue
    ));
    assert!(matches!(
        poll(&mut run, false, PollReport::NotReady),
        RoundStep::Stop
    ));
    match poll(&mut run, true, PollReport::NoHandle) {
        RoundStep::Fail(e) => assert_eq!(e.message, "sync task missing"),
        _ => panic!("expected a failure"),
    }
    match poll(
        &mut run,
        true,
        PollReport::Ready(Err((
            SyncError::ServerError(ServerError::RequestFailed("x".to_string())),
            "server error".to_string(),
        ))),
    ) {
        RoundStep::Fail(e) => {
            assert_eq!(e.message, "sync error: server error");
            assert!(e.unreachable);
            assert!(!e.wrong_chain);
        }
        _ => panic!("expected a failure"),
    }
    assert!(matches!(
        poll(&mut run, true, PollReport::Ready(Ok(77))),
        RoundStep::Finish(77)
    ));
    let too_many = RoundInput::Lagged(Some(ScannedOutputs {
        sapling: u32::MAX,
        orchard: 1,
        ironwood: 0,
    }));
    assert!(!run.can_take(&too_many, now));
}

#[test]
fn the_loop_backs_off_and_recovers() {
    let mut sync_loop = SyncLoop::new(7);
    assert!(!sync_loop.retires(7));
    assert!(sync_loop.retires(8));
    let mut waits = vec![];
    for _ in 0..8 {
        waits.push(sync_loop.round_ended(false));
        sync_loop.backed_off(false);
    }
    let secs: Vec<u64> = [3, 6, 12, 24, 48, 96, 120, 120].to_vec();
    assert_eq!(
        waits,
        secs.into_iter().map(Duration::from_secs).collect::<Vec<_>>()
    );
    // A restart cuts the backoff short and resets it.
    sync_loop.backed_off(true);
    assert_eq!(sync_loop.round_ended(false), Duration::from_secs(3));
    sync_loop.backed_off(false);
    assert_eq!(sync_loop.round_ended(true), Duration::from_secs(2));
    assert_eq!(sync_loop.round_ended(false), Duration::from_secs(3));
}

#[test]
fn beginning_a_round_clears_the_error() {
    let mut service = service_with_target(0);
    service.note_round_failure(RoundError::local("no wallet".to_string()));
    assert_eq!(service.sync.state, SyncState::Error);
    service.begin_round();
    assert_eq!(service.sync.state, SyncState::Syncing);
    assert_eq!(service.sync.error, None);
}
