use pendrake::hex::TxId;
use pendrake::ipc::{
    NoteDirection, NoteStatus, Pool, PoolBalance, TxKind, TxStatus,
};
use pendrake::notes::{
    confirmed_heights, map_balance, map_wallet_note, note_rows, pool_balance, spending_txid,
    AccountBalance, Heights, OutputSummary, WalletOutputs, WalletTransaction,
};
use pendrake::tx::{
    clean_memo, gained_value, history_fits, map_notes, map_tx, spent_value_by_tx,
    BasicCoinSummary, BasicNoteSummary, ConfirmationStatus, OutgoingCoinSummary,
    OutgoingNoteSummary, SendType, SpendStatus, SpentBy, TransactionKind, TransactionSummary,
};

fn txid(byte: u8) -> TxId {
    TxId::from_bytes([byte; 32])
}

// A confirmed transaction carrying `received` orchard notes, each (value, spend-status).
// `display` is the display amount, which the net delta deliberately ignores in favour of
// the note flows.
fn summary(
    txid_byte: u8,
    kind: TransactionKind,
    display: u64,
    received: Vec<(u64, SpendStatus)>,
) -> TransactionSummary {
    TransactionSummary {
        txid: txid(txid_byte),
        datetime: 0,
        status: ConfirmationStatus::Confirmed(1),
        blockheight: 1,
        kind,
        value: display,
        balance_delta: None,
        ironwood_notes: vec![],
        orchard_notes: received
            .into_iter()
            .enumerate()
            .map(|(i, (value, spend_status))| BasicNoteSummary {
                value,
                spend_status,
                output_index: i as u32,
                memo: None,
            })
            .collect(),
        sapling_notes: vec![],
        transparent_coins: vec![],
        outgoing_ironwood_notes: vec![],
        outgoing_orchard_notes: vec![],
        outgoing_sapling_notes: vec![],
        outgoing_transparent_coins: vec![],
    }
}

fn net_of(s: &TransactionSummary, spent_by: &SpentBy) -> i64 {
    map_tx(s, spent_by).net_zat.parse().unwrap()
}

// The invariant the balance chart leans on: summed over the whole history, each
// transaction's net delta equals the confirmed balance (the value of every unspent
// received note). When it holds, the reconstructed curve ends on the headline and walks
// back to zero.
#[test]
fn net_deltas_sum_to_the_unspent_balance() {
    // A receives 100, later spent by B; B keeps 30 as change and sends the rest out. The
    // only unspent note left is B's 30.
    let a = summary(
        0xAA,
        TransactionKind::Received,
        100,
        vec![(100, SpendStatus::Spent(txid(0xBB)))],
    );
    let b = summary(
        0xBB,
        TransactionKind::Sent(SendType::Send),
        70,
        vec![(30, SpendStatus::Unspent)],
    );
    let history = vec![a, b];

    let spent_by = spent_value_by_tx(&history);
    let total: i64 = history.iter().map(|s| net_of(s, &spent_by)).sum();
    assert_eq!(total, 30);
}

// A plain external receive credits the full received value: nothing of the wallet's is
// spent, so the delta is exactly what arrived.
#[test]
fn external_receive_credits_the_full_value() {
    let s = summary(
        0x01,
        TransactionKind::Received,
        500,
        vec![(500, SpendStatus::Unspent)],
    );
    assert_eq!(net_of(&s, &SpentBy::new()), 500);
}

// A send debits the spent inputs and credits only the change that returns, so its delta
// is the negative of what left the wallet (the external payment plus fee), regardless of
// the larger display amount.
#[test]
fn send_nets_change_minus_spent_inputs() {
    let funding = summary(
        0x02,
        TransactionKind::Received,
        100,
        vec![(100, SpendStatus::Spent(txid(0x03)))],
    );
    let send = summary(
        0x03,
        TransactionKind::Sent(SendType::Send),
        70,
        vec![(30, SpendStatus::Unspent)],
    );
    let history = vec![funding, send];
    let spent_by = spent_value_by_tx(&history);
    assert_eq!(net_of(&history[1], &spent_by), 30 - 100);
}

// Income that first enters through a wallet-authored output. A shield from an unscanned
// transparent input (or a coinbase paid to the wallet's own shielded address) creates a
// received note with no matching spent note. The note-flow delta credits the full value
// instead of zeroing it out.
#[test]
fn self_authored_inflow_is_credited_not_zeroed() {
    let shield = summary(
        0x04,
        TransactionKind::Sent(SendType::Shield),
        0,
        vec![(500, SpendStatus::Unspent)],
    );
    assert_eq!(net_of(&shield, &SpentBy::new()), 500);
}

#[test]
fn only_a_confirmed_spend_is_attributed() {
    let s = summary(
        0x05,
        TransactionKind::Received,
        10,
        vec![
            (1, SpendStatus::CalculatedSpent(txid(9))),
            (2, SpendStatus::TransmittedSpent(txid(9))),
            (4, SpendStatus::MempoolSpent(txid(9))),
            (8, SpendStatus::Spent(txid(9))),
            (16, SpendStatus::Spent(txid(9))),
            (32, SpendStatus::Spent(txid(8))),
        ],
    );
    let spent_by = spent_value_by_tx(&vec![s]);
    assert_eq!(spent_by.get(&txid(9).to_string()), 24);
    assert_eq!(spent_by.get(&txid(8).to_string()), 32);
    assert_eq!(spent_by.get(&txid(7).to_string()), 0);
}

#[test]
fn a_transaction_shows_what_the_wallet_knows() {
    let mut s = summary(
        0x06,
        TransactionKind::Received,
        150_000_000,
        vec![(7, SpendStatus::Unspent)],
    );
    s.datetime = 1_700_000_000;
    s.status = ConfirmationStatus::Confirmed(42);
    s.blockheight = 42;
    let shown = map_tx(&s, &SpentBy::new());
    assert_eq!(shown.txid, txid(0x06).to_string());
    assert_eq!(shown.datetime, 1_700_000_000);
    assert_eq!(shown.block_height, Some(42));
    assert_eq!(shown.kind, TxKind::Received);
    assert_eq!(shown.value_zat, "150000000");
    assert_eq!(shown.net_zat, "7");
    assert_eq!(shown.status, TxStatus::Confirmed);
    assert_eq!(shown.notes.len(), 1);

    s.status = ConfirmationStatus::Unconfirmed;
    s.kind = TransactionKind::Sent(SendType::SendToSelf);
    let shown = map_tx(&s, &SpentBy::new());
    assert_eq!(shown.block_height, None);
    assert_eq!(shown.kind, TxKind::Sent);
    assert_eq!(shown.status, TxStatus::Pending);
}

#[test]
fn outputs_are_listed_by_direction_and_pool() {
    let note = |value: u64, memo: &str| BasicNoteSummary {
        value,
        spend_status: SpendStatus::Unspent,
        output_index: 3,
        memo: Some(memo.to_string()),
    };
    let sent = |value: u64, unified: Option<&str>| OutgoingNoteSummary {
        value,
        memo: Some("hi".to_string()),
        recipient: "receiver".to_string(),
        recipient_unified_address: unified.map(str::to_string),
        output_index: 4,
    };
    let mut s = summary(0x07, TransactionKind::Received, 0, vec![]);
    s.ironwood_notes = vec![note(1, "  memo ")];
    s.orchard_notes = vec![note(2, " \u{3000}\t")];
    s.sapling_notes = vec![note(3, "x")];
    s.transparent_coins = vec![BasicCoinSummary {
        value: 4,
        spend_summary: SpendStatus::Unspent,
        output_index: 5,
    }];
    s.outgoing_ironwood_notes = vec![sent(5, Some("u1"))];
    s.outgoing_orchard_notes = vec![sent(6, None)];
    s.outgoing_sapling_notes = vec![sent(7, None)];
    s.outgoing_transparent_coins = vec![OutgoingCoinSummary {
        value: 8,
        recipient: "t1".to_string(),
        output_index: 6,
    }];
    let notes = map_notes(&s);
    let values: Vec<&str> = notes.iter().map(|n| n.value_zat.as_str()).collect();
    assert_eq!(values, vec!["1", "2", "3", "4", "5", "6", "7", "8"]);
    let pools: Vec<Pool> = notes.iter().map(|n| n.pool).collect();
    assert_eq!(
        pools,
        vec![
            Pool::Ironwood,
            Pool::Orchard,
            Pool::Sapling,
            Pool::Transparent,
            Pool::Ironwood,
            Pool::Orchard,
            Pool::Sapling,
            Pool::Transparent,
        ]
    );
    assert!(notes[..4]
        .iter()
        .all(|n| n.direction == NoteDirection::Received && n.recipient.is_none()));
    assert!(notes[4..].iter().all(|n| n.direction == NoteDirection::Sent));
    // The original text is kept when there is any.
    assert_eq!(notes[0].memo.as_deref(), Some("  memo "));
    assert_eq!(notes[1].memo, None);
    assert_eq!(notes[3].memo, None);
    // The unified address is preferred over the per-pool receiver.
    assert_eq!(notes[4].recipient.as_deref(), Some("u1"));
    assert_eq!(notes[5].recipient.as_deref(), Some("receiver"));
    assert_eq!(notes[7].recipient.as_deref(), Some("t1"));
    assert_eq!(notes[7].output_index, 6);
}

#[test]
fn a_blank_memo_is_no_memo() {
    assert_eq!(clean_memo(&None), None);
    assert_eq!(clean_memo(&Some(String::new())), None);
    assert_eq!(clean_memo(&Some("\n \u{a0}\u{2003}".to_string())), None);
    assert_eq!(
        clean_memo(&Some(" a ".to_string())),
        Some(" a ".to_string())
    );
    // A zero-width space is no white space.
    assert_eq!(
        clean_memo(&Some("\u{200b}".to_string())),
        Some("\u{200b}".to_string())
    );
}

#[test]
fn sums_past_the_largest_balance_are_told() {
    let max = i64::MAX as u64;
    let s = summary(
        1,
        TransactionKind::Received,
        0,
        vec![(max, SpendStatus::Unspent)],
    );
    assert_eq!(gained_value(&s, 0), Some(max));
    assert_eq!(gained_value(&s, 1), None);
    let other = summary(2, TransactionKind::Received, 0, vec![(1, SpendStatus::Unspent)]);
    // What counts is each transaction by itself, not the history's turnover.
    assert!(history_fits(&vec![s, other]));
    assert!(history_fits(&vec![]));
    let spent = |id: u8, value: u64| {
        summary(
            id,
            TransactionKind::Received,
            0,
            vec![(value, SpendStatus::Spent(txid(9)))],
        )
    };
    assert!(history_fits(&vec![spent(1, max - 1), spent(2, 1)]));
    assert!(!history_fits(&vec![spent(1, max), spent(2, 1)]));
    assert!(!history_fits(&vec![spent(1, max + 1)]));
    let unspent = summary(3, TransactionKind::Received, 0, vec![(max + 1, SpendStatus::Unspent)]);
    assert!(!history_fits(&vec![unspent]));
}

// The notes debug view's status rule: an unconfirmed note reads pending whatever its
// spend state, a confirmed one is spent or spendable.
#[test]
fn unconfirmed_note_is_pending_with_no_height() {
    let note = map_wallet_note(
        0,
        Pool::Orchard,
        100,
        false,
        0,
        SpendStatus::Unspent,
        &txid(0x01),
        false,
        &Heights::new(),
    );
    assert_eq!(note.status, NoteStatus::Pending);
    assert_eq!(note.height, None);
}

#[test]
fn confirmed_unspent_note_is_spendable_at_its_height() {
    let note = map_wallet_note(
        0,
        Pool::Sapling,
        100,
        true,
        42,
        SpendStatus::Unspent,
        &txid(0x01),
        false,
        &Heights::new(),
    );
    assert_eq!(note.status, NoteStatus::Unspent);
    assert_eq!(note.height, Some(42));
    assert_eq!(note.spent_height, None);
}

#[test]
fn a_confirmed_spend_resolves_the_spending_block() {
    let mut heights = Heights::new();
    heights.insert(txid(0x02).to_string(), 99u32);
    let note = map_wallet_note(
        0,
        Pool::Orchard,
        100,
        true,
        42,
        SpendStatus::Spent(txid(0x02)),
        &txid(0x01),
        false,
        &heights,
    );
    assert_eq!(note.status, NoteStatus::Spent);
    assert_eq!(note.spent_height, Some(99));
}

// An in-flight spend (transmitted, mempool, or just calculated) marks the note spent, but
// its spending transaction isn't confirmed, so no height is known.
#[test]
fn an_in_flight_spend_has_no_confirmed_height() {
    let note = map_wallet_note(
        0,
        Pool::Orchard,
        100,
        true,
        42,
        SpendStatus::MempoolSpent(txid(0x02)),
        &txid(0x01),
        false,
        &Heights::new(),
    );
    assert_eq!(note.status, NoteStatus::Spent);
    assert_eq!(note.spent_height, None);
}

#[test]
fn carries_idx_value_txid_and_change_through() {
    let note = map_wallet_note(
        7,
        Pool::Orchard,
        100,
        true,
        42,
        SpendStatus::Unspent,
        &txid(0x01),
        true,
        &Heights::new(),
    );
    assert_eq!(note.idx, 7);
    assert_eq!(note.value_zat, "100");
    assert_eq!(note.txid, txid(0x01).to_string());
    assert!(note.change);
}

#[test]
fn spending_txid_covers_every_spend_stage() {
    let spender = txid(0x05);
    assert_eq!(spending_txid(SpendStatus::Unspent), None);
    assert_eq!(
        spending_txid(SpendStatus::CalculatedSpent(spender)),
        Some(spender)
    );
    assert_eq!(
        spending_txid(SpendStatus::TransmittedSpent(spender)),
        Some(spender)
    );
    assert_eq!(
        spending_txid(SpendStatus::MempoolSpent(spender)),
        Some(spender)
    );
    assert_eq!(spending_txid(SpendStatus::Spent(spender)), Some(spender));
}

#[test]
fn note_rows_run_through_the_pools() {
    let output = |value: u64, spend_status: SpendStatus| OutputSummary {
        value,
        status: ConfirmationStatus::Confirmed(10),
        block_height: 10,
        spend_status,
        txid: txid(1),
        change: false,
    };
    let wallet = WalletOutputs {
        transactions: vec![
            WalletTransaction {
                txid: txid(2),
                status: ConfirmationStatus::Confirmed(77),
            },
            WalletTransaction {
                txid: txid(3),
                status: ConfirmationStatus::Unconfirmed,
            },
        ],
        ironwood: vec![output(1, SpendStatus::Unspent)],
        orchard: vec![
            output(2, SpendStatus::Spent(txid(2))),
            output(3, SpendStatus::MempoolSpent(txid(3))),
        ],
        sapling: vec![],
        transparent: vec![output(4, SpendStatus::Unspent)],
    };
    let rows = note_rows(&wallet);
    assert_eq!(
        rows.iter().map(|r| r.idx).collect::<Vec<_>>(),
        vec![0, 1, 2, 3]
    );
    assert_eq!(
        rows.iter().map(|r| r.pool).collect::<Vec<_>>(),
        vec![Pool::Ironwood, Pool::Orchard, Pool::Orchard, Pool::Transparent]
    );
    assert_eq!(rows[1].spent_height, Some(77));
    assert_eq!(rows[2].spent_height, None);
    assert_eq!(rows[2].status, NoteStatus::Spent);
    let heights = confirmed_heights(&wallet.transactions);
    assert_eq!(heights.get(&txid(2).to_string()), Some(77));
    assert_eq!(heights.get(&txid(3).to_string()), None);
}

#[test]
fn a_pool_shows_what_is_known_of_it() {
    assert_eq!(pool_balance(None, None), None);
    assert_eq!(
        pool_balance(Some(5), None),
        Some(PoolBalance {
            confirmed: "5".to_string(),
            total: "0".to_string(),
        })
    );
    let bal = map_balance(&AccountBalance {
        confirmed_orchard_balance: Some(1),
        total_orchard_balance: Some(2),
        confirmed_sapling_balance: None,
        total_sapling_balance: None,
        confirmed_transparent_balance: Some(3),
        total_transparent_balance: Some(4),
        confirmed_ironwood_balance: Some(5),
        total_ironwood_balance: Some(6),
    });
    assert_eq!(bal.orchard.unwrap().total, "2");
    assert_eq!(bal.sapling, None);
    assert_eq!(bal.transparent.unwrap().confirmed, "3");
    assert_eq!(bal.ironwood.unwrap().total, "6");
}
