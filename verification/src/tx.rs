//! Transactions: from what the wallet holds to what the GUI reads.

use vstd::prelude::*;

use crate::hex::TxId;
use crate::ipc;
use crate::ipc::{Note, NoteDirection, Pool, Tx, TxKind, TxStatus};
use crate::text;

verus! {

broadcast use vstd::string::group_string_axioms;

// ---------------------------------------------------------------------------
// What the wallet reports of a transaction
// ---------------------------------------------------------------------------

/// How far the spend of an output has come, and the transaction that spends it.
#[derive(Debug, Clone, Copy, PartialEq, Eq)]
pub enum SpendStatus {
    Unspent,
    CalculatedSpent(TxId),
    TransmittedSpent(TxId),
    MempoolSpent(TxId),
    Spent(TxId),
}

/// Whether a transaction is in a block, and in which.
#[derive(Debug, Clone, Copy, PartialEq, Eq, Structural)]
pub enum ConfirmationStatus {
    Unconfirmed,
    Confirmed(u32),
}

impl ConfirmationStatus {
    pub open spec fn height(self) -> Option<u32> {
        match self {
            ConfirmationStatus::Unconfirmed => None,
            ConfirmationStatus::Confirmed(h) => Some(h),
        }
    }

    pub fn is_confirmed(&self) -> (r: bool)
        ensures
            r == (self.height() is Some),
    {
        match self {
            ConfirmationStatus::Unconfirmed => false,
            ConfirmationStatus::Confirmed(_) => true,
        }
    }

    pub fn get_confirmed_height(&self) -> (r: Option<u32>)
        ensures
            r == self.height(),
    {
        match self {
            ConfirmationStatus::Unconfirmed => None,
            ConfirmationStatus::Confirmed(h) => Some(*h),
        }
    }
}

/// What a wallet-authored transaction was for.
#[derive(Debug, Clone, Copy, PartialEq, Eq, Structural)]
pub enum SendType {
    Send,
    Shield,
    SendToSelf,
}

#[derive(Debug, Clone, Copy, PartialEq, Eq, Structural)]
pub enum TransactionKind {
    Received,
    Sent(SendType),
}

/// A shielded note that a transaction created for the wallet.
#[derive(Debug)]
pub struct BasicNoteSummary {
    pub value: u64,
    pub spend_status: SpendStatus,
    pub output_index: u32,
    pub memo: Option<String>,
}

/// A transparent coin that a transaction created for the wallet.
#[derive(Debug)]
pub struct BasicCoinSummary {
    pub value: u64,
    pub spend_summary: SpendStatus,
    pub output_index: u32,
}

/// A shielded note that a transaction created for someone else.
#[derive(Debug)]
pub struct OutgoingNoteSummary {
    pub value: u64,
    pub memo: Option<String>,
    pub recipient: String,
    pub recipient_unified_address: Option<String>,
    pub output_index: u32,
}

/// A transparent coin that a transaction created for someone else.
#[derive(Debug)]
pub struct OutgoingCoinSummary {
    pub value: u64,
    pub recipient: String,
    pub output_index: u32,
}

/// A transaction as the wallet reports it.
#[derive(Debug)]
pub struct TransactionSummary {
    pub txid: TxId,
    /// Unix seconds.
    pub datetime: u32,
    pub status: ConfirmationStatus,
    pub blockheight: u32,
    pub kind: TransactionKind,
    /// The display amount, which nets a self-transfer to about its fee.
    pub value: u64,
    /// The wallet's own estimate of the balance change; `None` when the fee is unknown.
    pub balance_delta: Option<i64>,
    pub ironwood_notes: Vec<BasicNoteSummary>,
    pub orchard_notes: Vec<BasicNoteSummary>,
    pub sapling_notes: Vec<BasicNoteSummary>,
    pub transparent_coins: Vec<BasicCoinSummary>,
    pub outgoing_ironwood_notes: Vec<OutgoingNoteSummary>,
    pub outgoing_orchard_notes: Vec<OutgoingNoteSummary>,
    pub outgoing_sapling_notes: Vec<OutgoingNoteSummary>,
    pub outgoing_transparent_coins: Vec<OutgoingCoinSummary>,
}

// ---------------------------------------------------------------------------
// Value flows
// ---------------------------------------------------------------------------

/// The spend state and the value of a received output.
pub struct Flow {
    pub spend: SpendStatus,
    pub value: u64,
}

/// The flows of a list of notes.
pub open spec fn note_flows(notes: Seq<BasicNoteSummary>) -> Seq<Flow> {
    notes.map_values(|n: BasicNoteSummary| Flow { spend: n.spend_status, value: n.value })
}

/// The flows of a list of coins.
pub open spec fn coin_flows(coins: Seq<BasicCoinSummary>) -> Seq<Flow> {
    coins.map_values(|c: BasicCoinSummary| Flow { spend: c.spend_summary, value: c.value })
}

impl TransactionSummary {
    /// Every output that the transaction created for the wallet, across the pools.
    pub open spec fn received(self) -> Seq<Flow> {
        note_flows(self.ironwood_notes@) + note_flows(self.orchard_notes@) + note_flows(
            self.sapling_notes@,
        ) + coin_flows(self.transparent_coins@)
    }

    /// The value of the outputs that the transaction created for the wallet.
    pub open spec fn gained(self) -> nat {
        total(self.received())
    }
}

/// Every output that a history created for the wallet.
pub open spec fn all_received(history: Seq<TransactionSummary>) -> Seq<Flow>
    decreases history.len(),
{
    if history.len() == 0 {
        seq![]
    } else {
        all_received(history.drop_last()) + history.last().received()
    }
}

/// The value of a list of outputs.
pub open spec fn total(flows: Seq<Flow>) -> nat
    decreases flows.len(),
{
    if flows.len() == 0 {
        0
    } else {
        total(flows.drop_last()) + flows.last().value as nat
    }
}

impl Flow {
    /// Whether the output is spent in a block by the transaction with this text.
    pub open spec fn spent_by(self, txid: Seq<char>) -> bool {
        self.spend matches SpendStatus::Spent(t) && t.text() == txid
    }
}

/// The value of the outputs that one transaction spends.
pub open spec fn spent_total(flows: Seq<Flow>, txid: Seq<char>) -> nat
    decreases flows.len(),
{
    if flows.len() == 0 {
        0
    } else {
        spent_total(flows.drop_last(), txid) + if flows.last().spent_by(txid) {
            flows.last().value as nat
        } else {
            0
        }
    }
}

/// The value of the outputs that no block spends: the balance.
pub open spec fn unspent_total(flows: Seq<Flow>) -> nat
    decreases flows.len(),
{
    if flows.len() == 0 {
        0
    } else {
        unspent_total(flows.drop_last()) + if flows.last().spend is Spent {
            0
        } else {
            flows.last().value as nat
        }
    }
}

/// The value of the wallet's outputs that a transaction spends.
pub open spec fn lost(history: Seq<TransactionSummary>, txid: Seq<char>) -> nat {
    spent_total(all_received(history), txid)
}

proof fn total_concat(a: Seq<Flow>, b: Seq<Flow>)
    ensures
        total(a + b) == total(a) + total(b),
    decreases b.len(),
{
    if b.len() == 0 {
        assert(a + b =~= a);
    } else {
        total_concat(a, b.drop_last());
        assert((a + b).drop_last() =~= a + b.drop_last());
    }
}

proof fn spent_total_concat(a: Seq<Flow>, b: Seq<Flow>, txid: Seq<char>)
    ensures
        spent_total(a + b, txid) == spent_total(a, txid) + spent_total(b, txid),
    decreases b.len(),
{
    if b.len() == 0 {
        assert(a + b =~= a);
    } else {
        spent_total_concat(a, b.drop_last(), txid);
        assert((a + b).drop_last() =~= a + b.drop_last());
    }
}

/// A history ends on the balance: the sum of what each transaction gained less what
/// it spent.
pub open spec fn net_sum(history: Seq<TransactionSummary>, whole: Seq<TransactionSummary>) -> int
    decreases history.len(),
{
    if history.len() == 0 {
        0
    } else {
        net_sum(history.drop_last(), whole) + net_of(history.last(), whole)
    }
}

/// The net change of the balance that a transaction of a history brings.
pub open spec fn net_of(s: TransactionSummary, whole: Seq<TransactionSummary>) -> int {
    s.gained() - lost(whole, s.txid.text())
}

/// No transaction occurs twice in a history.
pub open spec fn distinct_txids(history: Seq<TransactionSummary>) -> bool {
    forall|i: int, j: int|
        0 <= i < j < history.len() ==> history[i].txid.text() != history[j].txid.text()
}

/// The transaction with this text is in the history.
pub open spec fn has_txid(history: Seq<TransactionSummary>, txid: Seq<char>) -> bool {
    exists|i: int| 0 <= i < history.len() && history[i].txid.text() == txid
}

/// Every transaction that spends an output of the history is in the history.
pub open spec fn spenders_known(history: Seq<TransactionSummary>) -> bool {
    forall|k: int|
        0 <= k < all_received(history).len() ==> (
        #[trigger] all_received(history)[k].spend matches SpendStatus::Spent(t) ==> has_txid(
            history,
            t.text(),
        ))
}

/// What the transactions of `part` spend of `flows`, each transaction counted once.
spec fn spent_over(part: Seq<TransactionSummary>, flows: Seq<Flow>) -> nat
    decreases part.len(),
{
    if part.len() == 0 {
        0
    } else {
        spent_over(part.drop_last(), flows) + spent_total(flows, part.last().txid.text())
    }
}

proof fn gained_is_total(history: Seq<TransactionSummary>, whole: Seq<TransactionSummary>)
    ensures
        net_sum(history, whole) == total(all_received(history)) - spent_over(
            history,
            all_received(whole),
        ),
    decreases history.len(),
{
    if history.len() > 0 {
        gained_is_total(history.drop_last(), whole);
        total_concat(all_received(history.drop_last()), history.last().received());
    }
}

proof fn spent_over_push(part: Seq<TransactionSummary>, flows: Seq<Flow>)
    requires
        flows.len() > 0,
        distinct_txids(part),
    ensures
        spent_over(part, flows) == spent_over(part, flows.drop_last()) + if flows.last().spend matches SpendStatus::Spent(
            t,
        ) && has_txid(part, t.text()) {
            flows.last().value as nat
        } else {
            0nat
        },
    decreases part.len(),
{
    if part.len() > 0 {
        let p = part.drop_last();
        assert(distinct_txids(p));
        spent_over_push(p, flows);
        if let SpendStatus::Spent(t) = flows.last().spend {
            let k = t.text();
            let last = part.len() - 1;
            if has_txid(p, k) {
                let i = choose|i: int| 0 <= i < p.len() && p[i].txid.text() == k;
                assert(part[i] == p[i]);
                assert(part[i].txid.text() != part[last].txid.text());
                assert(has_txid(part, k));
            } else if has_txid(part, k) {
                let i = choose|i: int| 0 <= i < part.len() && part[i].txid.text() == k;
                if i < last {
                    assert(p[i] == part[i]);
                }
            } else {
                assert(part[last].txid.text() != k);
            }
        }
    }
}

proof fn spent_over_is_spent(history: Seq<TransactionSummary>, flows: Seq<Flow>)
    requires
        distinct_txids(history),
        forall|k: int|
            0 <= k < flows.len() ==> (#[trigger] flows[k].spend matches SpendStatus::Spent(t)
                ==> has_txid(history, t.text())),
    ensures
        spent_over(history, flows) + unspent_total(flows) == total(flows),
    decreases flows.len(),
{
    if flows.len() == 0 {
        spent_over_nothing(history, flows);
    } else {
        let f = flows.drop_last();
        assert forall|k: int| 0 <= k < f.len() implies (
        #[trigger] f[k].spend matches SpendStatus::Spent(t) ==> has_txid(history, t.text())) by {
            assert(f[k] == flows[k]);
        }
        spent_over_is_spent(history, f);
        spent_over_push(history, flows);
        assert(flows[flows.len() - 1] == flows.last());
    }
}

proof fn spent_over_nothing(part: Seq<TransactionSummary>, flows: Seq<Flow>)
    requires
        flows.len() == 0,
    ensures
        spent_over(part, flows) == 0,
    decreases part.len(),
{
    if part.len() > 0 {
        spent_over_nothing(part.drop_last(), flows);
    }
}

/// The invariant the balance chart leans on: summed over the whole history, the net
/// deltas of the transactions are the balance, the value of every output that no block
/// spends. When it holds, the reconstructed curve ends on the headline and walks back
/// to zero.
pub proof fn net_deltas_sum_to_the_balance(history: Seq<TransactionSummary>)
    requires
        distinct_txids(history),
        spenders_known(history),
    ensures
        net_sum(history, history) == unspent_total(all_received(history)),
{
    gained_is_total(history, history);
    spent_over_is_spent(history, all_received(history));
}

// ---------------------------------------------------------------------------
// The sums over a history's own notes and coins
// ---------------------------------------------------------------------------

/// The value of the notes whose spend state is one of those that count.
pub open spec fn notes_sum(
    notes: Seq<BasicNoteSummary>,
    counts: spec_fn(SpendStatus) -> bool,
) -> nat
    decreases notes.len(),
{
    if notes.len() == 0 {
        0
    } else {
        notes_sum(notes.drop_last(), counts) + if counts(notes.last().spend_status) {
            notes.last().value as nat
        } else {
            0
        }
    }
}

/// The value of the coins whose spend state is one of those that count.
pub open spec fn coins_sum(
    coins: Seq<BasicCoinSummary>,
    counts: spec_fn(SpendStatus) -> bool,
) -> nat
    decreases coins.len(),
{
    if coins.len() == 0 {
        0
    } else {
        coins_sum(coins.drop_last(), counts) + if counts(coins.last().spend_summary) {
            coins.last().value as nat
        } else {
            0
        }
    }
}

/// The value of a transaction's notes in all shielded pools, and of its coins, whose spend
/// state is one of those that count.
pub open spec fn outputs_sum(
    s: TransactionSummary,
    counts: spec_fn(SpendStatus) -> bool,
) -> nat {
    notes_sum(s.ironwood_notes@, counts) + notes_sum(s.orchard_notes@, counts) + notes_sum(
        s.sapling_notes@,
        counts,
    ) + coins_sum(s.transparent_coins@, counts)
}

/// The value of the notes and coins of a whole history whose spend state is one of those
/// that count.
pub open spec fn history_sum(
    history: Seq<TransactionSummary>,
    counts: spec_fn(SpendStatus) -> bool,
) -> nat
    decreases history.len(),
{
    if history.len() == 0 {
        0
    } else {
        history_sum(history.drop_last(), counts) + outputs_sum(history.last(), counts)
    }
}

/// Spent in a block, by the transaction of this text.
pub open spec fn by_tx(txid: Seq<char>) -> spec_fn(SpendStatus) -> bool {
    |spend: SpendStatus| spend matches SpendStatus::Spent(t) && t.text() == txid
}

/// Spent in no block.
pub open spec fn in_no_block() -> spec_fn(SpendStatus) -> bool {
    |spend: SpendStatus| !(spend is Spent)
}

/// In any spend state.
pub open spec fn in_any_state() -> spec_fn(SpendStatus) -> bool {
    |spend: SpendStatus| true
}

spec fn flows_sum(flows: Seq<Flow>, counts: spec_fn(SpendStatus) -> bool) -> nat
    decreases flows.len(),
{
    if flows.len() == 0 {
        0
    } else {
        flows_sum(flows.drop_last(), counts) + if counts(flows.last().spend) {
            flows.last().value as nat
        } else {
            0
        }
    }
}

proof fn flows_sum_concat(a: Seq<Flow>, b: Seq<Flow>, counts: spec_fn(SpendStatus) -> bool)
    ensures
        flows_sum(a + b, counts) == flows_sum(a, counts) + flows_sum(b, counts),
    decreases b.len(),
{
    if b.len() == 0 {
        assert(a + b =~= a);
    } else {
        flows_sum_concat(a, b.drop_last(), counts);
        assert((a + b).drop_last() =~= a + b.drop_last());
    }
}

proof fn note_flows_sum(notes: Seq<BasicNoteSummary>, counts: spec_fn(SpendStatus) -> bool)
    ensures
        flows_sum(note_flows(notes), counts) == notes_sum(notes, counts),
    decreases notes.len(),
{
    if notes.len() > 0 {
        note_flows_sum(notes.drop_last(), counts);
        assert(note_flows(notes).drop_last() =~= note_flows(notes.drop_last()));
    }
}

proof fn coin_flows_sum(coins: Seq<BasicCoinSummary>, counts: spec_fn(SpendStatus) -> bool)
    ensures
        flows_sum(coin_flows(coins), counts) == coins_sum(coins, counts),
    decreases coins.len(),
{
    if coins.len() > 0 {
        coin_flows_sum(coins.drop_last(), counts);
        assert(coin_flows(coins).drop_last() =~= coin_flows(coins.drop_last()));
    }
}

proof fn received_sum(s: TransactionSummary, counts: spec_fn(SpendStatus) -> bool)
    ensures
        flows_sum(s.received(), counts) == outputs_sum(s, counts),
{
    let a = note_flows(s.ironwood_notes@);
    let b = note_flows(s.orchard_notes@);
    let c = note_flows(s.sapling_notes@);
    let d = coin_flows(s.transparent_coins@);
    flows_sum_concat(a, b, counts);
    flows_sum_concat(a + b, c, counts);
    flows_sum_concat(a + b + c, d, counts);
    note_flows_sum(s.ironwood_notes@, counts);
    note_flows_sum(s.orchard_notes@, counts);
    note_flows_sum(s.sapling_notes@, counts);
    coin_flows_sum(s.transparent_coins@, counts);
}

proof fn all_received_sum(history: Seq<TransactionSummary>, counts: spec_fn(SpendStatus) -> bool)
    ensures
        flows_sum(all_received(history), counts) == history_sum(history, counts),
    decreases history.len(),
{
    if history.len() > 0 {
        all_received_sum(history.drop_last(), counts);
        received_sum(history.last(), counts);
        flows_sum_concat(
            all_received(history.drop_last()),
            history.last().received(),
            counts,
        );
    }
}

proof fn spent_total_sum(flows: Seq<Flow>, txid: Seq<char>)
    ensures
        spent_total(flows, txid) == flows_sum(flows, by_tx(txid)),
    decreases flows.len(),
{
    if flows.len() > 0 {
        spent_total_sum(flows.drop_last(), txid);
    }
}

proof fn unspent_total_sum(flows: Seq<Flow>)
    ensures
        unspent_total(flows) == flows_sum(flows, in_no_block()),
    decreases flows.len(),
{
    if flows.len() > 0 {
        unspent_total_sum(flows.drop_last());
    }
}

proof fn total_sum(flows: Seq<Flow>)
    ensures
        total(flows) == flows_sum(flows, in_any_state()),
    decreases flows.len(),
{
    if flows.len() > 0 {
        total_sum(flows.drop_last());
    }
}

/// What a transaction spends is the value of exactly those notes and coins of the history,
/// in every pool, whose own spend state names it as the transaction that spent them in a
/// block.
pub proof fn what_is_lost_was_spent(history: Seq<TransactionSummary>, txid: Seq<char>)
    ensures
        lost(history, txid) == history_sum(history, by_tx(txid)),
{
    all_received_sum(history, by_tx(txid));
    spent_total_sum(all_received(history), txid);
}

/// What a transaction gains is the value of all the notes and coins it created for the
/// wallet, in every pool and whatever became of them.
pub proof fn what_is_gained_was_received(s: TransactionSummary)
    ensures
        s.gained() == outputs_sum(s, in_any_state()),
{
    received_sum(s, in_any_state());
    total_sum(s.received());
}

proof fn notes_sum_has(
    notes: Seq<BasicNoteSummary>,
    counts: spec_fn(SpendStatus) -> bool,
    j: int,
)
    requires
        0 <= j < notes.len(),
        counts(notes[j].spend_status),
    ensures
        notes_sum(notes, counts) >= notes[j].value,
    decreases notes.len(),
{
    if j < notes.len() - 1 {
        notes_sum_has(notes.drop_last(), counts, j);
    }
}

proof fn coins_sum_has(
    coins: Seq<BasicCoinSummary>,
    counts: spec_fn(SpendStatus) -> bool,
    j: int,
)
    requires
        0 <= j < coins.len(),
        counts(coins[j].spend_summary),
    ensures
        coins_sum(coins, counts) >= coins[j].value,
    decreases coins.len(),
{
    if j < coins.len() - 1 {
        coins_sum_has(coins.drop_last(), counts, j);
    }
}

proof fn history_sum_has(
    history: Seq<TransactionSummary>,
    counts: spec_fn(SpendStatus) -> bool,
    i: int,
)
    requires
        0 <= i < history.len(),
    ensures
        history_sum(history, counts) >= outputs_sum(history[i], counts),
    decreases history.len(),
{
    if i < history.len() - 1 {
        history_sum_has(history.drop_last(), counts, i);
    }
}

/// No spent output is left out: every note and every coin of the history that a
/// transaction spent in a block counts with its own value in what that transaction spends.
pub proof fn every_spent_output_counts(history: Seq<TransactionSummary>, t: TxId, i: int, j: int)
    requires
        0 <= i < history.len(),
    ensures
        0 <= j < history[i].transparent_coins@.len()
            && history[i].transparent_coins@[j].spend_summary == SpendStatus::Spent(t) ==> lost(
            history,
            t.text(),
        ) >= history[i].transparent_coins@[j].value,
        0 <= j < history[i].ironwood_notes@.len() && history[i].ironwood_notes@[j].spend_status
            == SpendStatus::Spent(t) ==> lost(history, t.text())
            >= history[i].ironwood_notes@[j].value,
        0 <= j < history[i].orchard_notes@.len() && history[i].orchard_notes@[j].spend_status
            == SpendStatus::Spent(t) ==> lost(history, t.text())
            >= history[i].orchard_notes@[j].value,
        0 <= j < history[i].sapling_notes@.len() && history[i].sapling_notes@[j].spend_status
            == SpendStatus::Spent(t) ==> lost(history, t.text())
            >= history[i].sapling_notes@[j].value,
{
    let counts = by_tx(t.text());
    what_is_lost_was_spent(history, t.text());
    history_sum_has(history, counts, i);
    let s = history[i];
    if 0 <= j < s.transparent_coins@.len() && s.transparent_coins@[j].spend_summary
        == SpendStatus::Spent(t) {
        coins_sum_has(s.transparent_coins@, counts, j);
    }
    if 0 <= j < s.ironwood_notes@.len() && s.ironwood_notes@[j].spend_status
        == SpendStatus::Spent(t) {
        notes_sum_has(s.ironwood_notes@, counts, j);
    }
    if 0 <= j < s.orchard_notes@.len() && s.orchard_notes@[j].spend_status
        == SpendStatus::Spent(t) {
        notes_sum_has(s.orchard_notes@, counts, j);
    }
    if 0 <= j < s.sapling_notes@.len() && s.sapling_notes@[j].spend_status
        == SpendStatus::Spent(t) {
        notes_sum_has(s.sapling_notes@, counts, j);
    }
}

/// An output moves its spender's sum and no other: with one more coin in the last
/// transaction of a history, a transaction spends that coin's value more where a block
/// holds its spend of the coin, and as much as before otherwise. The same goes for one more
/// note of any shielded pool. What the last transaction gained grows by the value either
/// way.
pub proof fn one_more_output_counts_for_its_spender(
    before: Seq<TransactionSummary>,
    s: TransactionSummary,
    more: TransactionSummary,
    coin: BasicCoinSummary,
    note: BasicNoteSummary,
    txid: Seq<char>,
)
    ensures
        more.ironwood_notes@ == s.ironwood_notes@ && more.orchard_notes@ == s.orchard_notes@
            && more.sapling_notes@ == s.sapling_notes@ && more.transparent_coins@
            == s.transparent_coins@.push(coin) ==> {
            &&& more.gained() == s.gained() + coin.value
            &&& lost(before.push(more), txid) == lost(before.push(s), txid) + (if (
            coin.spend_summary matches SpendStatus::Spent(t) && t.text() == txid) {
                coin.value as nat
            } else {
                0
            })
        },
        more.transparent_coins@ == s.transparent_coins@ && ((more.ironwood_notes@
            == s.ironwood_notes@.push(note) && more.orchard_notes@ == s.orchard_notes@
            && more.sapling_notes@ == s.sapling_notes@) || (more.ironwood_notes@
            == s.ironwood_notes@ && more.orchard_notes@ == s.orchard_notes@.push(note)
            && more.sapling_notes@ == s.sapling_notes@) || (more.ironwood_notes@
            == s.ironwood_notes@ && more.orchard_notes@ == s.orchard_notes@ && more.sapling_notes@
            == s.sapling_notes@.push(note))) ==> {
            &&& more.gained() == s.gained() + note.value
            &&& lost(before.push(more), txid) == lost(before.push(s), txid) + (if (
            note.spend_status matches SpendStatus::Spent(t) && t.text() == txid) {
                note.value as nat
            } else {
                0
            })
        },
{
    what_is_gained_was_received(s);
    what_is_gained_was_received(more);
    what_is_lost_was_spent(before.push(s), txid);
    what_is_lost_was_spent(before.push(more), txid);
    assert(before.push(s).drop_last() =~= before);
    assert(before.push(more).drop_last() =~= before);
    assert(s.transparent_coins@.push(coin).drop_last() =~= s.transparent_coins@);
    assert(s.ironwood_notes@.push(note).drop_last() =~= s.ironwood_notes@);
    assert(s.orchard_notes@.push(note).drop_last() =~= s.orchard_notes@);
    assert(s.sapling_notes@.push(note).drop_last() =~= s.sapling_notes@);
}

/// The sum of what each transaction of a history gains over all its notes and coins, less
/// what those of the whole history are worth that it spent in a block.
pub open spec fn gains_less_spends(
    history: Seq<TransactionSummary>,
    whole: Seq<TransactionSummary>,
) -> int
    decreases history.len(),
{
    if history.len() == 0 {
        0
    } else {
        gains_less_spends(history.drop_last(), whole) + outputs_sum(
            history.last(),
            in_any_state(),
        ) - history_sum(whole, by_tx(history.last().txid.text()))
    }
}

proof fn net_sum_over_outputs(history: Seq<TransactionSummary>, whole: Seq<TransactionSummary>)
    ensures
        net_sum(history, whole) == gains_less_spends(history, whole),
    decreases history.len(),
{
    if history.len() > 0 {
        net_sum_over_outputs(history.drop_last(), whole);
        what_is_gained_was_received(history.last());
        what_is_lost_was_spent(whole, history.last().txid.text());
    }
}

/// The notes of a list that a block holds the spend of are spent by transactions of a
/// history.
pub open spec fn notes_spent_within(
    notes: Seq<BasicNoteSummary>,
    history: Seq<TransactionSummary>,
) -> bool {
    forall|j: int|
        0 <= j < notes.len() ==> ((#[trigger] notes[j]).spend_status matches SpendStatus::Spent(t)
            ==> has_txid(history, t.text()))
}

/// The coins of a list that a block holds the spend of are spent by transactions of a
/// history.
pub open spec fn coins_spent_within(
    coins: Seq<BasicCoinSummary>,
    history: Seq<TransactionSummary>,
) -> bool {
    forall|j: int|
        0 <= j < coins.len() ==> ((#[trigger] coins[j]).spend_summary matches SpendStatus::Spent(t)
            ==> has_txid(history, t.text()))
}

/// Every note and coin of some transactions that a block holds the spend of is spent by a
/// transaction of a history.
pub open spec fn spends_known_in(
    part: Seq<TransactionSummary>,
    history: Seq<TransactionSummary>,
) -> bool {
    forall|i: int|
        0 <= i < part.len() ==> {
            &&& notes_spent_within((#[trigger] part[i]).ironwood_notes@, history)
            &&& notes_spent_within(part[i].orchard_notes@, history)
            &&& notes_spent_within(part[i].sapling_notes@, history)
            &&& coins_spent_within(part[i].transparent_coins@, history)
        }
}

proof fn flows_spent_within(part: Seq<TransactionSummary>, history: Seq<TransactionSummary>)
    requires
        spends_known_in(part, history),
    ensures
        forall|k: int|
            0 <= k < all_received(part).len() ==> (
            #[trigger] all_received(part)[k].spend matches SpendStatus::Spent(t) ==> has_txid(
                history,
                t.text(),
            )),
    decreases part.len(),
{
    if part.len() > 0 {
        let p = part.drop_last();
        assert forall|i: int| 0 <= i < p.len() implies {
            &&& notes_spent_within((#[trigger] p[i]).ironwood_notes@, history)
            &&& notes_spent_within(p[i].orchard_notes@, history)
            &&& notes_spent_within(p[i].sapling_notes@, history)
            &&& coins_spent_within(p[i].transparent_coins@, history)
        } by {
            assert(part[i] == p[i]);
        }
        flows_spent_within(p, history);
        let s = part[part.len() - 1];
        let (n, m) = (all_received(p).len() as int, s.received());
        let (a, b, c, d) = (
            s.ironwood_notes@,
            s.orchard_notes@,
            s.sapling_notes@,
            s.transparent_coins@,
        );
        assert forall|k: int| 0 <= k < all_received(part).len() implies (
        #[trigger] all_received(part)[k].spend matches SpendStatus::Spent(t) ==> has_txid(
            history,
            t.text(),
        )) by {
            if k < n {
                assert(all_received(part)[k] == all_received(p)[k]);
                assert(all_received(p)[k].spend == all_received(part)[k].spend);
            } else {
                let q = k - n;
                assert(all_received(part)[k] == m[q]);
                if q < a.len() {
                    assert(m[q].spend == a[q].spend_status);
                } else if q < a.len() + b.len() {
                    assert(m[q].spend == b[q - a.len()].spend_status);
                } else if q < a.len() + b.len() + c.len() {
                    assert(m[q].spend == c[q - a.len() - b.len()].spend_status);
                } else {
                    assert(m[q].spend == d[q - a.len() - b.len() - c.len()].spend_summary);
                }
            }
        }
    }
}

/// The balance, by the notes and coins themselves: summed over a history in which no
/// transaction occurs twice and every spender of a note or coin is found, the net changes
/// of the transactions come to the value of exactly those notes and coins, in every pool,
/// whose own spend state holds no spend in a block.
pub proof fn the_history_ends_on_what_is_unspent(history: Seq<TransactionSummary>)
    requires
        distinct_txids(history),
        spends_known_in(history, history),
    ensures
        net_sum(history, history) == history_sum(history, in_no_block()),
        gains_less_spends(history, history) == history_sum(history, in_no_block()),
{
    flows_spent_within(history, history);
    net_deltas_sum_to_the_balance(history);
    all_received_sum(history, in_no_block());
    unspent_total_sum(all_received(history));
    net_sum_over_outputs(history, history);
}

// ---------------------------------------------------------------------------
// The value that each transaction spends
// ---------------------------------------------------------------------------

/// What one transaction spends.
#[derive(Debug)]
pub struct SpentEntry {
    pub txid: String,
    pub value: u64,
}

/// The value of the wallet's outputs that each transaction spends, keyed by the text
/// of the spending transaction.
#[derive(Debug)]
pub struct SpentBy {
    pub entries: Vec<SpentEntry>,
}

/// The value that a list of entries holds for a transaction; zero when it holds none.
pub open spec fn entry_value(entries: Seq<SpentEntry>, txid: Seq<char>) -> u64
    decreases entries.len(),
{
    if entries.len() == 0 {
        0
    } else if entries.last().txid@ == txid {
        entries.last().value
    } else {
        entry_value(entries.drop_last(), txid)
    }
}

impl SpentBy {
    /// No transaction has two entries.
    pub open spec fn wf(self) -> bool {
        forall|i: int, j: int|
            0 <= i < j < self.entries@.len() ==> self.entries@[i].txid@ != self.entries@[j].txid@
    }

    /// The value that a transaction spends; zero when it has no entry.
    pub open spec fn value_of(self, txid: Seq<char>) -> u64 {
        entry_value(self.entries@, txid)
    }

    /// Nothing is spent by anything.
    pub fn new() -> (r: Self)
        ensures
            r.wf(),
            forall|k: Seq<char>| r.value_of(k) == 0,
    {
        SpentBy { entries: Vec::new() }
    }

    /// The value that a transaction spends; zero when it has no entry.
    pub fn get(&self, txid: &str) -> (r: u64)
        ensures
            r == self.value_of(txid@),
    {
        let mut i: usize = self.entries.len();
        assert(self.entries@.take(i as int) =~= self.entries@);
        while i > 0
            invariant
                i <= self.entries@.len(),
                self.value_of(txid@) == entry_value(self.entries@.take(i as int), txid@),
            decreases i,
        {
            i = i - 1;
            assert(self.entries@.take(i + 1).drop_last() =~= self.entries@.take(i as int));
            if text::same_text(self.entries[i].txid.as_str(), txid) {
                return self.entries[i].value;
            }
        }
        0
    }

    /// Count `value` towards what a transaction spends.
    pub fn credit(&mut self, txid: String, value: u64)
        requires
            old(self).wf(),
            old(self).value_of(txid@) + value <= u64::MAX,
        ensures
            final(self).wf(),
            forall|k: Seq<char>|
                final(self).value_of(k) == old(self).value_of(k) + (if k == txid@ {
                    value
                } else {
                    0u64
                }),
    {
        let mut i: usize = 0;
        while i < self.entries.len()
            invariant
                *self == *old(self),
                old(self).wf(),
                old(self).value_of(txid@) + value <= u64::MAX,
                i <= self.entries@.len(),
                forall|j: int| 0 <= j < i ==> self.entries@[j].txid@ != txid@,
            decreases self.entries@.len() - i,
        {
            if text::same_text(self.entries[i].txid.as_str(), txid.as_str()) {
                let ghost before = self.entries@;
                proof {
                    entry_value_at(before, i as int);
                }
                let sum: u64 = self.entries[i].value + value;
                self.entries[i].value = sum;
                proof {
                    assert forall|k: Seq<char>|
                        entry_value(self.entries@, k) == entry_value(before, k) + (if k == txid@ {
                            value
                        } else {
                            0u64
                        }) by {
                        entry_value_update(before, i as int, self.entries@[i as int], k);
                    }
                }
                return;
            }
            i = i + 1;
        }
        let ghost before = self.entries@;
        proof {
            entry_value_absent(before, txid@);
        }
        self.entries.push(SpentEntry { txid, value });
        assert(self.entries@.drop_last() =~= before);
    }
}

proof fn entry_value_absent(entries: Seq<SpentEntry>, txid: Seq<char>)
    requires
        forall|j: int| 0 <= j < entries.len() ==> entries[j].txid@ != txid,
    ensures
        entry_value(entries, txid) == 0,
    decreases entries.len(),
{
    if entries.len() > 0 {
        assert(entries[entries.len() - 1].txid@ != txid);
        entry_value_absent(entries.drop_last(), txid);
    }
}

proof fn entry_value_at(entries: Seq<SpentEntry>, i: int)
    requires
        0 <= i < entries.len(),
        forall|j: int, k: int|
            0 <= j < k < entries.len() ==> entries[j].txid@ != entries[k].txid@,
    ensures
        entry_value(entries, entries[i].txid@) == entries[i].value,
    decreases entries.len(),
{
    if i < entries.len() - 1 {
        assert(entries[i].txid@ != entries[entries.len() - 1].txid@);
        entry_value_at(entries.drop_last(), i);
    }
}

proof fn entry_value_update(entries: Seq<SpentEntry>, i: int, e: SpentEntry, txid: Seq<char>)
    requires
        0 <= i < entries.len(),
        forall|j: int, k: int|
            0 <= j < k < entries.len() ==> entries[j].txid@ != entries[k].txid@,
        e.txid == entries[i].txid,
    ensures
        entry_value(entries.update(i, e), txid) == if txid == e.txid@ {
            e.value
        } else {
            entry_value(entries, txid)
        },
    decreases entries.len(),
{
    let after = entries.update(i, e);
    if i == entries.len() - 1 {
        assert(after.drop_last() =~= entries.drop_last());
    } else {
        assert(after.drop_last() =~= entries.drop_last().update(i, e));
        assert(entries[i].txid@ != entries[entries.len() - 1].txid@);
        entry_value_update(entries.drop_last(), i, e, txid);
    }
}

/// Count an output towards what its spender spends, when a block holds the spend.
fn credit_flow(spent_by: &mut SpentBy, status: SpendStatus, value: u64)
    requires
        old(spent_by).wf(),
        status matches SpendStatus::Spent(t) ==> old(spent_by).value_of(t.text()) + value
            <= u64::MAX,
    ensures
        final(spent_by).wf(),
        forall|k: Seq<char>|
            final(spent_by).value_of(k) == old(spent_by).value_of(k) + (if (Flow {
                spend: status,
                value,
            }).spent_by(k) {
                value
            } else {
                0u64
            }),
{
    match status {
        SpendStatus::Spent(txid) => {
            let key = txid.to_string();
            spent_by.credit(key, value);
        },
        _ => {},
    }
}

fn credit_notes(spent_by: &mut SpentBy, notes: &Vec<BasicNoteSummary>)
    requires
        old(spent_by).wf(),
        forall|k: Seq<char>|
            #[trigger] old(spent_by).value_of(k) + spent_total(note_flows(notes@), k) <= u64::MAX,
    ensures
        final(spent_by).wf(),
        forall|k: Seq<char>|
            #[trigger] final(spent_by).value_of(k) == old(spent_by).value_of(k) + spent_total(
                note_flows(notes@),
                k,
            ),
{
    let ghost flows = note_flows(notes@);
    let mut i: usize = 0;
    assert(flows.take(0) =~= seq![]);
    while i < notes.len()
        invariant
            i <= notes@.len(),
            flows == note_flows(notes@),
            spent_by.wf(),
            forall|k: Seq<char>|
                #[trigger] old(spent_by).value_of(k) + spent_total(flows, k) <= u64::MAX,
            forall|k: Seq<char>|
                #[trigger] spent_by.value_of(k) == old(spent_by).value_of(k) + spent_total(
                    flows.take(i as int),
                    k,
                ),
        decreases notes@.len() - i,
    {
        proof {
            assert(flows.take(i + 1).drop_last() =~= flows.take(i as int));
            assert(flows.take(i + 1).last() == flows[i as int]);
            assert forall|k: Seq<char>|
                spent_total(flows.take(i + 1), k) <= #[trigger] spent_total(flows, k) by {
                spent_total_prefix(flows, i + 1, k);
            }
            if let SpendStatus::Spent(t) = notes@[i as int].spend_status {
                let k = t.text();
                assert(old(spent_by).value_of(k) + spent_total(flows, k) <= u64::MAX);
                assert(spent_total(flows.take(i + 1), k) <= spent_total(flows, k));
            }
        }
        credit_flow(spent_by, notes[i].spend_status, notes[i].value);
        i = i + 1;
    }
    assert(flows.take(notes@.len() as int) =~= flows);
}

fn credit_coins(spent_by: &mut SpentBy, coins: &Vec<BasicCoinSummary>)
    requires
        old(spent_by).wf(),
        forall|k: Seq<char>|
            #[trigger] old(spent_by).value_of(k) + spent_total(coin_flows(coins@), k) <= u64::MAX,
    ensures
        final(spent_by).wf(),
        forall|k: Seq<char>|
            #[trigger] final(spent_by).value_of(k) == old(spent_by).value_of(k) + spent_total(
                coin_flows(coins@),
                k,
            ),
{
    let ghost flows = coin_flows(coins@);
    let mut i: usize = 0;
    assert(flows.take(0) =~= seq![]);
    while i < coins.len()
        invariant
            i <= coins@.len(),
            flows == coin_flows(coins@),
            spent_by.wf(),
            forall|k: Seq<char>|
                #[trigger] old(spent_by).value_of(k) + spent_total(flows, k) <= u64::MAX,
            forall|k: Seq<char>|
                #[trigger] spent_by.value_of(k) == old(spent_by).value_of(k) + spent_total(
                    flows.take(i as int),
                    k,
                ),
        decreases coins@.len() - i,
    {
        proof {
            assert(flows.take(i + 1).drop_last() =~= flows.take(i as int));
            assert(flows.take(i + 1).last() == flows[i as int]);
            if let SpendStatus::Spent(t) = coins@[i as int].spend_summary {
                let k = t.text();
                spent_total_prefix(flows, i + 1, k);
                assert(old(spent_by).value_of(k) + spent_total(flows, k) <= u64::MAX);
            }
        }
        credit_flow(spent_by, coins[i].spend_summary, coins[i].value);
        i = i + 1;
    }
    assert(flows.take(coins@.len() as int) =~= flows);
}

proof fn spent_total_prefix(flows: Seq<Flow>, n: int, txid: Seq<char>)
    requires
        0 <= n <= flows.len(),
    ensures
        spent_total(flows.take(n), txid) <= spent_total(flows, txid),
{
    spent_total_concat(flows.take(n), flows.skip(n), txid);
    assert(flows.take(n) + flows.skip(n) =~= flows);
}

proof fn received_spent(s: TransactionSummary, txid: Seq<char>)
    ensures
        spent_total(s.received(), txid) == spent_total(note_flows(s.ironwood_notes@), txid)
            + spent_total(note_flows(s.orchard_notes@), txid) + spent_total(
            note_flows(s.sapling_notes@),
            txid,
        ) + spent_total(coin_flows(s.transparent_coins@), txid),
{
    let a = note_flows(s.ironwood_notes@);
    let b = note_flows(s.orchard_notes@);
    let c = note_flows(s.sapling_notes@);
    let d = coin_flows(s.transparent_coins@);
    spent_total_concat(a, b, txid);
    spent_total_concat(a + b, c, txid);
    spent_total_concat(a + b + c, d, txid);
}

proof fn all_received_prefix(history: Seq<TransactionSummary>, n: int)
    requires
        0 <= n <= history.len(),
    ensures
        exists|rest: Seq<Flow>| all_received(history) == #[trigger] (all_received(history.take(n)) + rest),
    decreases history.len() - n,
{
    if n == history.len() {
        assert(history.take(n) =~= history);
        assert(all_received(history) =~= all_received(history.take(n)) + Seq::<Flow>::empty());
    } else {
        all_received_prefix(history, n + 1);
        let rest = choose|rest: Seq<Flow>|
            all_received(history) == #[trigger] (all_received(history.take(n + 1)) + rest);
        assert(history.take(n + 1).drop_last() =~= history.take(n));
        assert(all_received(history) =~= all_received(history.take(n)) + (history[n].received()
            + rest));
    }
}

proof fn lost_prefix(history: Seq<TransactionSummary>, n: int, txid: Seq<char>)
    requires
        0 <= n <= history.len(),
    ensures
        lost(history.take(n), txid) <= lost(history, txid),
{
    all_received_prefix(history, n);
    let rest = choose|rest: Seq<Flow>|
        all_received(history) == #[trigger] (all_received(history.take(n)) + rest);
    spent_total_concat(all_received(history.take(n)), rest, txid);
}

proof fn lost_step(history: Seq<TransactionSummary>, i: int, txid: Seq<char>)
    requires
        0 <= i < history.len(),
    ensures
        lost(history.take(i + 1), txid) == lost(history.take(i), txid) + spent_total(
            note_flows(history[i].ironwood_notes@),
            txid,
        ) + spent_total(note_flows(history[i].orchard_notes@), txid) + spent_total(
            note_flows(history[i].sapling_notes@),
            txid,
        ) + spent_total(coin_flows(history[i].transparent_coins@), txid),
        lost(history.take(i + 1), txid) <= lost(history, txid),
{
    assert(history.take(i + 1).drop_last() =~= history.take(i));
    spent_total_concat(all_received(history.take(i)), history[i].received(), txid);
    received_spent(history[i], txid);
    lost_prefix(history, i + 1, txid);
}

/// Attribute every confirmed-spent received note (across all summaries) to the
/// transaction that spent it, keyed by spending txid. `map_tx` subtracts a
/// transaction's entry here from the value it gained to get the true net balance delta.
pub fn spent_value_by_tx(summaries: &Vec<TransactionSummary>) -> (r: SpentBy)
    requires
        forall|k: Seq<char>| #[trigger] lost(summaries@, k) <= u64::MAX,
    ensures
        r.wf(),
        forall|k: Seq<char>| #[trigger] r.value_of(k) == lost(summaries@, k),
        forall|k: Seq<char>| #[trigger] r.value_of(k) == history_sum(summaries@, by_tx(k)),
{
    let mut spent_by = SpentBy::new();
    let mut i: usize = 0;
    assert(summaries@.take(0) =~= seq![]);
    while i < summaries.len()
        invariant
            i <= summaries@.len(),
            spent_by.wf(),
            forall|k: Seq<char>| #[trigger] lost(summaries@, k) <= u64::MAX,
            forall|k: Seq<char>|
                #[trigger] spent_by.value_of(k) == lost(summaries@.take(i as int), k),
        decreases summaries@.len() - i,
    {
        let s = &summaries[i];
        proof {
            assert forall|k: Seq<char>|
                lost(summaries@.take(i as int), k) + spent_total(note_flows(s.ironwood_notes@), k)
                    + spent_total(note_flows(s.orchard_notes@), k) + spent_total(
                    note_flows(s.sapling_notes@),
                    k,
                ) + spent_total(coin_flows(s.transparent_coins@), k) == #[trigger] lost(
                    summaries@.take(i + 1),
                    k,
                ) && lost(summaries@.take(i + 1), k) <= u64::MAX by {
                lost_step(summaries@, i as int, k);
                assert(lost(summaries@, k) <= u64::MAX);
            }
            assert forall|k: Seq<char>|
                #[trigger] spent_by.value_of(k) + spent_total(note_flows(s.ironwood_notes@), k)
                    + spent_total(note_flows(s.orchard_notes@), k) + spent_total(
                    note_flows(s.sapling_notes@),
                    k,
                ) + spent_total(coin_flows(s.transparent_coins@), k) == lost(
                    summaries@.take(i + 1),
                    k,
                ) && lost(summaries@.take(i + 1), k) <= u64::MAX by {
                assert(lost(summaries@.take(i + 1), k) <= u64::MAX);
            }
        }
        credit_notes(&mut spent_by, &s.ironwood_notes);
        credit_notes(&mut spent_by, &s.orchard_notes);
        credit_notes(&mut spent_by, &s.sapling_notes);
        credit_coins(&mut spent_by, &s.transparent_coins);
        i = i + 1;
    }
    assert(summaries@.take(summaries@.len() as int) =~= summaries@);
    proof {
        assert forall|k: Seq<char>| #[trigger]
            spent_by.value_of(k) == history_sum(summaries@, by_tx(k)) by {
            what_is_lost_was_spent(summaries@, k);
        }
    }
    spent_by
}

// ---------------------------------------------------------------------------
// The outputs of a transaction
// ---------------------------------------------------------------------------

/// What a [`Note`] shows.
pub struct NoteView {
    pub pool: Pool,
    pub direction: NoteDirection,
    pub output_index: u32,
    pub value_zat: Seq<char>,
    pub memo: Option<Seq<char>>,
    pub recipient: Option<Seq<char>>,
}

impl View for Note {
    type V = NoteView;

    open spec fn view(&self) -> NoteView {
        NoteView {
            pool: self.pool,
            direction: self.direction,
            output_index: self.output_index,
            value_zat: self.value_zat@,
            memo: ipc::text_view(self.memo),
            recipient: ipc::text_view(self.recipient),
        }
    }
}

/// What a list of notes shows.
pub open spec fn note_views(notes: Seq<Note>) -> Seq<NoteView> {
    notes.map_values(|n: Note| n@)
}

/// A memo that is absent or blank is no memo.
pub open spec fn cleaned(memo: Option<Seq<char>>) -> Option<Seq<char>> {
    match memo {
        Some(m) => if text::is_blank(m) {
            None
        } else {
            Some(m)
        },
        None => None,
    }
}

/// The shielded notes that the wallet received in one pool.
pub open spec fn received_notes(pool: Pool, notes: Seq<BasicNoteSummary>) -> Seq<NoteView> {
    notes.map_values(
        |n: BasicNoteSummary|
            NoteView {
                pool,
                direction: NoteDirection::Received,
                output_index: n.output_index,
                value_zat: text::decimal(n.value as nat),
                memo: cleaned(ipc::text_view(n.memo)),
                recipient: None,
            },
    )
}

/// The transparent coins that the wallet received.
pub open spec fn received_coins(coins: Seq<BasicCoinSummary>) -> Seq<NoteView> {
    coins.map_values(
        |c: BasicCoinSummary|
            NoteView {
                pool: Pool::Transparent,
                direction: NoteDirection::Received,
                output_index: c.output_index,
                value_zat: text::decimal(c.value as nat),
                memo: None,
                recipient: None,
            },
    )
}

/// The recipient of an outgoing note: the unified address the user sent to, or the
/// per-pool receiver when there is none.
pub open spec fn recipient_of(n: OutgoingNoteSummary) -> Seq<char> {
    match n.recipient_unified_address {
        Some(ua) => ua@,
        None => n.recipient@,
    }
}

/// The shielded notes that went out in one pool.
pub open spec fn sent_notes(pool: Pool, notes: Seq<OutgoingNoteSummary>) -> Seq<NoteView> {
    notes.map_values(
        |n: OutgoingNoteSummary|
            NoteView {
                pool,
                direction: NoteDirection::Sent,
                output_index: n.output_index,
                value_zat: text::decimal(n.value as nat),
                memo: cleaned(ipc::text_view(n.memo)),
                recipient: Some(recipient_of(n)),
            },
    )
}

/// The transparent coins that went out.
pub open spec fn sent_coins(coins: Seq<OutgoingCoinSummary>) -> Seq<NoteView> {
    coins.map_values(
        |c: OutgoingCoinSummary|
            NoteView {
                pool: Pool::Transparent,
                direction: NoteDirection::Sent,
                output_index: c.output_index,
                value_zat: text::decimal(c.value as nat),
                memo: None,
                recipient: Some(c.recipient@),
            },
    )
}

impl TransactionSummary {
    /// The transaction's outputs that the wallet can see: what it received, then what
    /// went out, each pool after pool.
    pub open spec fn outputs(self) -> Seq<NoteView> {
        received_notes(Pool::Ironwood, self.ironwood_notes@) + received_notes(
            Pool::Orchard,
            self.orchard_notes@,
        ) + received_notes(Pool::Sapling, self.sapling_notes@) + received_coins(
            self.transparent_coins@,
        ) + sent_notes(Pool::Ironwood, self.outgoing_ironwood_notes@) + sent_notes(
            Pool::Orchard,
            self.outgoing_orchard_notes@,
        ) + sent_notes(Pool::Sapling, self.outgoing_sapling_notes@) + sent_coins(
            self.outgoing_transparent_coins@,
        )
    }
}

/// Treat a memo that is absent or blank as no memo, so the GUI's has-memo
/// indicator and detail view never trip on an empty Note. The text is kept intact
/// when present, since real memos can be large formatted blocks.
pub fn clean_memo(memo: &Option<String>) -> (r: Option<String>)
    ensures
        ipc::text_view(r) == cleaned(ipc::text_view(*memo)),
{
    match memo {
        Some(m) => {
            let stripped = text::trim(m.as_str());
            if stripped.as_str().is_empty() {
                None
            } else {
                Some(m.clone())
            }
        },
        None => None,
    }
}

fn push_received_notes(out: &mut Vec<Note>, pool: Pool, notes: &Vec<BasicNoteSummary>)
    ensures
        note_views(final(out)@) == note_views(old(out)@) + received_notes(pool, notes@),
{
    let ghost rows = received_notes(pool, notes@);
    let mut i: usize = 0;
    assert(note_views(out@) =~= note_views(out@) + rows.take(0));
    while i < notes.len()
        invariant
            i <= notes@.len(),
            rows == received_notes(pool, notes@),
            note_views(out@) == note_views(old(out)@) + rows.take(i as int),
        decreases notes@.len() - i,
    {
        let n = &notes[i];
        let ghost before = out@;
        let note = Note {
            pool,
            direction: NoteDirection::Received,
            output_index: n.output_index,
            value_zat: text::u64_text(n.value),
            memo: clean_memo(&n.memo),
            recipient: None,
        };
        assert(note@ == rows[i as int]);
        out.push(note);
        assert(note_views(out@) =~= note_views(before).push(rows[i as int]));
        assert(rows.take(i + 1) =~= rows.take(i as int).push(rows[i as int]));
        i = i + 1;
    }
    assert(rows.take(notes@.len() as int) =~= rows);
}

fn push_received_coins(out: &mut Vec<Note>, coins: &Vec<BasicCoinSummary>)
    ensures
        note_views(final(out)@) == note_views(old(out)@) + received_coins(coins@),
{
    let ghost rows = received_coins(coins@);
    let mut i: usize = 0;
    assert(note_views(out@) =~= note_views(out@) + rows.take(0));
    while i < coins.len()
        invariant
            i <= coins@.len(),
            rows == received_coins(coins@),
            note_views(out@) == note_views(old(out)@) + rows.take(i as int),
        decreases coins@.len() - i,
    {
        let c = &coins[i];
        let ghost before = out@;
        let note = Note {
            pool: Pool::Transparent,
            direction: NoteDirection::Received,
            output_index: c.output_index,
            value_zat: text::u64_text(c.value),
            memo: None,
            recipient: None,
        };
        assert(note@ == rows[i as int]);
        out.push(note);
        assert(note_views(out@) =~= note_views(before).push(rows[i as int]));
        assert(rows.take(i + 1) =~= rows.take(i as int).push(rows[i as int]));
        i = i + 1;
    }
    assert(rows.take(coins@.len() as int) =~= rows);
}

fn push_sent_notes(out: &mut Vec<Note>, pool: Pool, notes: &Vec<OutgoingNoteSummary>)
    ensures
        note_views(final(out)@) == note_views(old(out)@) + sent_notes(pool, notes@),
{
    let ghost rows = sent_notes(pool, notes@);
    let mut i: usize = 0;
    assert(note_views(out@) =~= note_views(out@) + rows.take(0));
    while i < notes.len()
        invariant
            i <= notes@.len(),
            rows == sent_notes(pool, notes@),
            note_views(out@) == note_views(old(out)@) + rows.take(i as int),
        decreases notes@.len() - i,
    {
        let n = &notes[i];
        let ghost before = out@;
        let recipient = match &n.recipient_unified_address {
            Some(ua) => ua.clone(),
            None => n.recipient.clone(),
        };
        let note = Note {
            pool,
            direction: NoteDirection::Sent,
            output_index: n.output_index,
            value_zat: text::u64_text(n.value),
            memo: clean_memo(&n.memo),
            recipient: Some(recipient),
        };
        assert(note@ == rows[i as int]);
        out.push(note);
        assert(note_views(out@) =~= note_views(before).push(rows[i as int]));
        assert(rows.take(i + 1) =~= rows.take(i as int).push(rows[i as int]));
        i = i + 1;
    }
    assert(rows.take(notes@.len() as int) =~= rows);
}

fn push_sent_coins(out: &mut Vec<Note>, coins: &Vec<OutgoingCoinSummary>)
    ensures
        note_views(final(out)@) == note_views(old(out)@) + sent_coins(coins@),
{
    let ghost rows = sent_coins(coins@);
    let mut i: usize = 0;
    assert(note_views(out@) =~= note_views(out@) + rows.take(0));
    while i < coins.len()
        invariant
            i <= coins@.len(),
            rows == sent_coins(coins@),
            note_views(out@) == note_views(old(out)@) + rows.take(i as int),
        decreases coins@.len() - i,
    {
        let c = &coins[i];
        let ghost before = out@;
        let note = Note {
            pool: Pool::Transparent,
            direction: NoteDirection::Sent,
            output_index: c.output_index,
            value_zat: text::u64_text(c.value),
            memo: None,
            recipient: Some(c.recipient.clone()),
        };
        assert(note@ == rows[i as int]);
        out.push(note);
        assert(note_views(out@) =~= note_views(before).push(rows[i as int]));
        assert(rows.take(i + 1) =~= rows.take(i as int).push(rows[i as int]));
        i = i + 1;
    }
    assert(rows.take(coins@.len() as int) =~= rows);
}

/// Flatten a transaction's shielded notes and transparent coins into one list the
/// GUI groups by direction. Memos come per Note, not per transaction; transparent
/// coins carry value but no memo. Sent outputs keep their recipient address,
/// preferring the unified address the user sent to over the per-pool receiver.
pub fn map_notes(s: &TransactionSummary) -> (r: Vec<Note>)
    ensures
        note_views(r@) == s.outputs(),
{
    let mut notes: Vec<Note> = Vec::new();
    assert(note_views(notes@) =~= seq![]);
    push_received_notes(&mut notes, Pool::Ironwood, &s.ironwood_notes);
    push_received_notes(&mut notes, Pool::Orchard, &s.orchard_notes);
    push_received_notes(&mut notes, Pool::Sapling, &s.sapling_notes);
    push_received_coins(&mut notes, &s.transparent_coins);
    push_sent_notes(&mut notes, Pool::Ironwood, &s.outgoing_ironwood_notes);
    push_sent_notes(&mut notes, Pool::Orchard, &s.outgoing_orchard_notes);
    push_sent_notes(&mut notes, Pool::Sapling, &s.outgoing_sapling_notes);
    push_sent_coins(&mut notes, &s.outgoing_transparent_coins);
    assert(note_views(notes@) =~= s.outputs());
    notes
}

// ---------------------------------------------------------------------------
// A transaction on the wire
// ---------------------------------------------------------------------------

/// What a [`Tx`] shows.
pub struct TxView {
    pub txid: Seq<char>,
    pub datetime: u64,
    pub block_height: Option<u32>,
    pub kind: TxKind,
    pub value_zat: Seq<char>,
    pub net_zat: Seq<char>,
    pub status: TxStatus,
    pub notes: Seq<NoteView>,
}

impl View for Tx {
    type V = TxView;

    open spec fn view(&self) -> TxView {
        TxView {
            txid: self.txid@,
            datetime: self.datetime,
            block_height: self.block_height,
            kind: self.kind,
            value_zat: self.value_zat@,
            net_zat: self.net_zat@,
            status: self.status,
            notes: note_views(self.notes@),
        }
    }
}

/// Which side of a transaction the wallet was on.
pub open spec fn kind_of(kind: TransactionKind) -> TxKind {
    match kind {
        TransactionKind::Received => TxKind::Received,
        TransactionKind::Sent(_) => TxKind::Sent,
    }
}

impl TransactionSummary {
    /// The transaction on the wire, with a given net balance change.
    pub open spec fn shown(self, net: int) -> TxView {
        TxView {
            txid: self.txid.text(),
            datetime: self.datetime as u64,
            block_height: if self.status is Confirmed {
                Some(self.blockheight)
            } else {
                None
            },
            kind: kind_of(self.kind),
            value_zat: text::decimal(self.value as nat),
            net_zat: text::signed_decimal(net),
            status: if self.status is Confirmed {
                TxStatus::Confirmed
            } else {
                TxStatus::Pending
            },
            notes: self.outputs(),
        }
    }
}

proof fn total_prefix(flows: Seq<Flow>, n: int)
    requires
        0 <= n <= flows.len(),
    ensures
        total(flows.take(n)) <= total(flows),
{
    total_concat(flows.take(n), flows.skip(n));
    assert(flows.take(n) + flows.skip(n) =~= flows);
}

/// The value of a list of notes, or `None` past the largest amount a balance can hold.
fn notes_value(notes: &Vec<BasicNoteSummary>, start: u64) -> (r: Option<u64>)
    requires
        start <= i64::MAX,
    ensures
        match r {
            Some(v) => v == start + total(note_flows(notes@)) && v <= i64::MAX,
            None => start + total(note_flows(notes@)) > i64::MAX,
        },
{
    let ghost flows = note_flows(notes@);
    let mut sum: u64 = start;
    let mut i: usize = 0;
    assert(flows.take(0) =~= seq![]);
    while i < notes.len()
        invariant
            i <= notes@.len(),
            flows == note_flows(notes@),
            sum <= i64::MAX,
            sum == start + total(flows.take(i as int)),
        decreases notes@.len() - i,
    {
        assert(flows.take(i + 1).drop_last() =~= flows.take(i as int));
        assert(flows.take(i + 1).last() == flows[i as int]);
        proof {
            total_prefix(flows, i + 1);
        }
        if notes[i].value > i64::MAX as u64 - sum {
            return None;
        }
        sum = sum + notes[i].value;
        i = i + 1;
    }
    assert(flows.take(notes@.len() as int) =~= flows);
    Some(sum)
}

/// The value of a list of coins, or `None` past the largest amount a balance can hold.
fn coins_value(coins: &Vec<BasicCoinSummary>, start: u64) -> (r: Option<u64>)
    requires
        start <= i64::MAX,
    ensures
        match r {
            Some(v) => v == start + total(coin_flows(coins@)) && v <= i64::MAX,
            None => start + total(coin_flows(coins@)) > i64::MAX,
        },
{
    let ghost flows = coin_flows(coins@);
    let mut sum: u64 = start;
    let mut i: usize = 0;
    assert(flows.take(0) =~= seq![]);
    while i < coins.len()
        invariant
            i <= coins@.len(),
            flows == coin_flows(coins@),
            sum <= i64::MAX,
            sum == start + total(flows.take(i as int)),
        decreases coins@.len() - i,
    {
        assert(flows.take(i + 1).drop_last() =~= flows.take(i as int));
        assert(flows.take(i + 1).last() == flows[i as int]);
        proof {
            total_prefix(flows, i + 1);
        }
        if coins[i].value > i64::MAX as u64 - sum {
            return None;
        }
        sum = sum + coins[i].value;
        i = i + 1;
    }
    assert(flows.take(coins@.len() as int) =~= flows);
    Some(sum)
}

proof fn gained_parts(s: TransactionSummary)
    ensures
        s.gained() == total(note_flows(s.ironwood_notes@)) + total(note_flows(s.orchard_notes@))
            + total(note_flows(s.sapling_notes@)) + total(coin_flows(s.transparent_coins@)),
{
    let a = note_flows(s.ironwood_notes@);
    let b = note_flows(s.orchard_notes@);
    let c = note_flows(s.sapling_notes@);
    let d = coin_flows(s.transparent_coins@);
    total_concat(a, b);
    total_concat(a + b, c);
    total_concat(a + b + c, d);
}

/// The value of the outputs that a transaction created for the wallet, or `None` past
/// the largest amount a balance can hold.
pub fn gained_value(s: &TransactionSummary, start: u64) -> (r: Option<u64>)
    requires
        start <= i64::MAX,
    ensures
        match r {
            Some(v) => v == start + s.gained() && v <= i64::MAX,
            None => start + s.gained() > i64::MAX,
        },
{
    proof {
        gained_parts(*s);
    }
    match notes_value(&s.ironwood_notes, start) {
        None => None,
        Some(a) => match notes_value(&s.orchard_notes, a) {
            None => None,
            Some(b) => match notes_value(&s.sapling_notes, b) {
                None => None,
                Some(c) => coins_value(&s.transparent_coins, c),
            },
        },
    }
}

/// Whether what each transaction of a history gained, and what any transaction spends of
/// it, stay within the largest amount a balance can hold.
pub open spec fn fits(history: Seq<TransactionSummary>) -> bool {
    &&& forall|i: int| 0 <= i < history.len() ==> (#[trigger] history[i]).gained() <= i64::MAX
    &&& forall|k: Seq<char>| #[trigger] lost(history, k) <= i64::MAX
}

fn push_note_flows(flows: &mut Vec<Flow>, notes: &Vec<BasicNoteSummary>)
    ensures
        final(flows)@ == old(flows)@ + note_flows(notes@),
{
    let ghost added = note_flows(notes@);
    let mut i: usize = 0;
    while i < notes.len()
        invariant
            i <= notes@.len(),
            added == note_flows(notes@),
            flows@ =~= old(flows)@ + added.take(i as int),
        decreases notes@.len() - i,
    {
        flows.push(Flow { spend: notes[i].spend_status, value: notes[i].value });
        assert(added.take(i + 1) =~= added.take(i as int).push(added[i as int]));
        i = i + 1;
    }
    assert(added.take(notes@.len() as int) =~= added);
}

fn push_coin_flows(flows: &mut Vec<Flow>, coins: &Vec<BasicCoinSummary>)
    ensures
        final(flows)@ == old(flows)@ + coin_flows(coins@),
{
    let ghost added = coin_flows(coins@);
    let mut i: usize = 0;
    while i < coins.len()
        invariant
            i <= coins@.len(),
            added == coin_flows(coins@),
            flows@ =~= old(flows)@ + added.take(i as int),
        decreases coins@.len() - i,
    {
        flows.push(Flow { spend: coins[i].spend_summary, value: coins[i].value });
        assert(added.take(i + 1) =~= added.take(i as int).push(added[i as int]));
        i = i + 1;
    }
    assert(added.take(coins@.len() as int) =~= added);
}

/// Every output that a history created for the wallet.
fn collect_flows(summaries: &Vec<TransactionSummary>) -> (r: Vec<Flow>)
    ensures
        r@ == all_received(summaries@),
{
    let mut flows: Vec<Flow> = Vec::new();
    let mut i: usize = 0;
    assert(summaries@.take(0) =~= seq![]);
    while i < summaries.len()
        invariant
            i <= summaries@.len(),
            flows@ == all_received(summaries@.take(i as int)),
        decreases summaries@.len() - i,
    {
        let s = &summaries[i];
        assert(summaries@.take(i + 1).drop_last() =~= summaries@.take(i as int));
        push_note_flows(&mut flows, &s.ironwood_notes);
        push_note_flows(&mut flows, &s.orchard_notes);
        push_note_flows(&mut flows, &s.sapling_notes);
        push_coin_flows(&mut flows, &s.transparent_coins);
        assert(flows@ =~= all_received(summaries@.take(i as int)) + s.received());
        i = i + 1;
    }
    assert(summaries@.take(summaries@.len() as int) =~= summaries@);
    flows
}

/// Whether what any transaction spends of a list of outputs stays within the largest
/// amount a balance can hold.
fn spends_fit(flows: &Vec<Flow>) -> (r: bool)
    ensures
        r == (forall|k: Seq<char>| #[trigger] spent_total(flows@, k) <= i64::MAX),
{
    let mut spent_by = SpentBy::new();
    let mut i: usize = 0;
    assert(flows@.take(0) =~= seq![]);
    while i < flows.len()
        invariant
            i <= flows@.len(),
            spent_by.wf(),
            forall|k: Seq<char>|
                #[trigger] spent_by.value_of(k) == spent_total(flows@.take(i as int), k),
            forall|k: Seq<char>| #[trigger] spent_by.value_of(k) <= i64::MAX,
        decreases flows@.len() - i,
    {
        assert(flows@.take(i + 1).drop_last() =~= flows@.take(i as int));
        if let SpendStatus::Spent(txid) = flows[i].spend {
            let key = txid.to_string();
            let value: u64 = flows[i].value;
            let before: u64 = spent_by.get(key.as_str());
            assert(flows@[i as int].spent_by(key@));
            if value > i64::MAX as u64 - before {
                proof {
                    spent_total_prefix(flows@, i + 1, key@);
                    assert(spent_total(flows@, key@) > i64::MAX);
                }
                return false;
            }
            spent_by.credit(key, value);
        }
        i = i + 1;
    }
    assert(flows@.take(flows@.len() as int) =~= flows@);
    assert forall|k: Seq<char>| #[trigger] spent_total(flows@, k) <= i64::MAX by {
        assert(spent_by.value_of(k) <= i64::MAX);
    }
    true
}

/// Whether the sums over a history stay within the largest amount a balance can hold.
pub fn history_fits(summaries: &Vec<TransactionSummary>) -> (r: bool)
    ensures
        r == fits(summaries@),
{
    let mut i: usize = 0;
    while i < summaries.len()
        invariant
            i <= summaries@.len(),
            forall|k: int| 0 <= k < i ==> (#[trigger] summaries@[k]).gained() <= i64::MAX,
        decreases summaries@.len() - i,
    {
        if gained_value(&summaries[i], 0).is_none() {
            assert(summaries@[i as int].gained() > i64::MAX);
            return false;
        }
        i = i + 1;
    }
    let flows = collect_flows(summaries);
    let fit = spends_fit(&flows);
    proof {
        assert(forall|k: Seq<char>|
            #[trigger] lost(summaries@, k) == spent_total(flows@, k));
        if fit {
            assert forall|k: Seq<char>| #[trigger] lost(summaries@, k) <= i64::MAX by {
                assert(spent_total(flows@, k) <= i64::MAX);
            }
        } else {
            let k = choose|k: Seq<char>| #[trigger] spent_total(flows@, k) > i64::MAX;
            assert(lost(summaries@, k) > i64::MAX);
        }
    }
    fit
}

/// A transaction on the wire. The net change to the wallet's balance is the value of
/// the notes this transaction creates for the wallet, minus the value of the notes it
/// spends. Unlike `value` (a display amount that nets self-transfers to about the fee),
/// this credits income that first enters through a wallet-authored output, so the
/// reconstructed history sums to the balance. Spent inputs come from each received
/// note's spend status, attributed by `spent_by` to the transaction that spent them.
pub fn map_tx(s: &TransactionSummary, spent_by: &SpentBy) -> (r: Tx)
    requires
        s.gained() <= i64::MAX,
        spent_by.value_of(s.txid.text()) <= i64::MAX,
    ensures
        r@ == s.shown(s.gained() - spent_by.value_of(s.txid.text())),
{
    let gained: u64 = match gained_value(s, 0) {
        Some(v) => v,
        None => 0,
    };
    let txid = s.txid.to_string();
    let lost: u64 = spent_by.get(txid.as_str());
    let net: i64 = gained as i64 - lost as i64;
    let confirmed = s.status.is_confirmed();
    Tx {
        txid,
        datetime: s.datetime as u64,
        block_height: if confirmed {
            Some(s.blockheight)
        } else {
            None
        },
        kind: match s.kind {
            TransactionKind::Received => TxKind::Received,
            TransactionKind::Sent(_) => TxKind::Sent,
        },
        value_zat: text::u64_text(s.value),
        net_zat: text::i64_text(net),
        status: if confirmed {
            TxStatus::Confirmed
        } else {
            TxStatus::Pending
        },
        notes: map_notes(s),
    }
}

// ---------------------------------------------------------------------------
// What the GUI reads of a transaction
// ---------------------------------------------------------------------------

/// A transaction on the wire tells of its own summary: its text, its time, its side, its
/// display amount, and the net change as a number. It is pending exactly while it is in no
/// block, and shows the block's height exactly once it is in one.
pub proof fn a_tx_tells_its_summary(tx: Tx, s: TransactionSummary, net: int)
    requires
        tx@ == s.shown(net),
    ensures
        tx.txid@ == s.txid.text(),
        tx.datetime == s.datetime,
        tx.value_zat@ == text::decimal(s.value as nat),
        text::signed_value(tx.net_zat@) == net,
        tx.kind == TxKind::Received <==> s.kind == TransactionKind::Received,
        tx.kind == TxKind::Sent <==> s.kind is Sent,
        tx.status == TxStatus::Pending <==> s.status == ConfirmationStatus::Unconfirmed,
        tx.status == TxStatus::Confirmed <==> s.status is Confirmed,
        tx.block_height == Some(s.blockheight) <==> s.status is Confirmed,
        tx.block_height is None <==> s.status == ConfirmationStatus::Unconfirmed,
        note_views(tx.notes@) == s.outputs(),
{
    text::signed_decimal_denotes(net);
}

/// Whether a memo on the wire is the one of an output: the whole text where it says
/// anything, and none where it is absent or nothing but white space.
pub open spec fn memo_told(shown: Option<String>, memo: Option<String>) -> bool {
    match shown {
        Some(text) => memo is Some && text@ == memo->0@ && exists|k: int|
            0 <= k < text@.len() && !text::is_white_space(#[trigger] text@[k]),
        None => memo matches Some(m) ==> forall|k: int|
            0 <= k < m@.len() ==> text::is_white_space(#[trigger] m@[k]),
    }
}

proof fn cleaned_memo_told(shown: Option<String>, memo: Option<String>)
    requires
        ipc::text_view(shown) == cleaned(ipc::text_view(memo)),
    ensures
        memo_told(shown, memo),
{
    if let Some(m) = memo {
        text::trimming_takes_white_space_only(m@);
    }
}

/// Every output that a transaction created for the wallet has its note among the first
/// ones, pool after pool and in its pool's order, and the note tells of that output: where
/// it stands in the transaction, its value and its memo. A coin has no memo, and what the
/// wallet received names no recipient.
pub proof fn a_received_note_tells_its_output(notes: Seq<Note>, s: TransactionSummary, i: int)
    requires
        note_views(notes) == s.outputs(),
        0 <= i,
    ensures
        ({
            let (a, b, c) = (
                s.ironwood_notes@.len() as int,
                s.orchard_notes@.len() as int,
                s.sapling_notes@.len() as int,
            );
            &&& i < a ==> {
                let (n, o) = (notes[i], s.ironwood_notes@[i]);
                &&& n.pool == Pool::Ironwood && n.direction == NoteDirection::Received
                &&& n.output_index == o.output_index && n.value_zat@ == text::decimal(
                    o.value as nat,
                )
                &&& memo_told(n.memo, o.memo) && n.recipient is None
            }
            &&& i < b ==> {
                let (n, o) = (notes[a + i], s.orchard_notes@[i]);
                &&& n.pool == Pool::Orchard && n.direction == NoteDirection::Received
                &&& n.output_index == o.output_index && n.value_zat@ == text::decimal(
                    o.value as nat,
                )
                &&& memo_told(n.memo, o.memo) && n.recipient is None
            }
            &&& i < c ==> {
                let (n, o) = (notes[a + b + i], s.sapling_notes@[i]);
                &&& n.pool == Pool::Sapling && n.direction == NoteDirection::Received
                &&& n.output_index == o.output_index && n.value_zat@ == text::decimal(
                    o.value as nat,
                )
                &&& memo_told(n.memo, o.memo) && n.recipient is None
            }
            &&& i < s.transparent_coins@.len() ==> {
                let (n, o) = (notes[a + b + c + i], s.transparent_coins@[i]);
                &&& n.pool == Pool::Transparent && n.direction == NoteDirection::Received
                &&& n.output_index == o.output_index && n.value_zat@ == text::decimal(
                    o.value as nat,
                )
                &&& n.memo is None && n.recipient is None
            }
        }),
{
    let (a, b, c) = (
        s.ironwood_notes@.len() as int,
        s.orchard_notes@.len() as int,
        s.sapling_notes@.len() as int,
    );
    assert(notes.len() == s.outputs().len());
    if i < a {
        let (n, o) = (notes[i], s.ironwood_notes@[i]);
        assert(note_views(notes)[i] == n@);
        assert(s.outputs()[i] == received_notes(Pool::Ironwood, s.ironwood_notes@)[i]);
        cleaned_memo_told(n.memo, o.memo);
    }
    if i < b {
        let (n, o) = (notes[a + i], s.orchard_notes@[i]);
        assert(note_views(notes)[a + i] == n@);
        assert(s.outputs()[a + i] == received_notes(Pool::Orchard, s.orchard_notes@)[i]);
        cleaned_memo_told(n.memo, o.memo);
    }
    if i < c {
        let (n, o) = (notes[a + b + i], s.sapling_notes@[i]);
        assert(note_views(notes)[a + b + i] == n@);
        assert(s.outputs()[a + b + i] == received_notes(Pool::Sapling, s.sapling_notes@)[i]);
        cleaned_memo_told(n.memo, o.memo);
    }
    if i < s.transparent_coins@.len() {
        let n = notes[a + b + c + i];
        assert(note_views(notes)[a + b + c + i] == n@);
        assert(s.outputs()[a + b + c + i] == received_coins(s.transparent_coins@)[i]);
    }
}

/// The address that an outgoing note went to, as the user knows it: the unified address
/// where there is one, and the receiver in the pool otherwise.
pub open spec fn recipient_told(shown: Option<String>, o: OutgoingNoteSummary) -> bool {
    &&& shown is Some
    &&& o.recipient_unified_address matches Some(ua) ==> shown->0@ == ua@
    &&& o.recipient_unified_address is None ==> shown->0@ == o.recipient@
}

/// Every output that went out has its note behind those that the wallet received, pool
/// after pool and in its pool's order, and the note tells of that output and of who it went
/// to. There are no other notes.
pub proof fn a_sent_note_tells_its_output(notes: Seq<Note>, s: TransactionSummary, i: int)
    requires
        note_views(notes) == s.outputs(),
        0 <= i,
    ensures
        ({
            let at = s.ironwood_notes@.len() + s.orchard_notes@.len() + s.sapling_notes@.len()
                + s.transparent_coins@.len();
            let (a, b, c) = (
                s.outgoing_ironwood_notes@.len() as int,
                s.outgoing_orchard_notes@.len() as int,
                s.outgoing_sapling_notes@.len() as int,
            );
            &&& notes.len() == at + a + b + c + s.outgoing_transparent_coins@.len()
            &&& i < a ==> {
                let (n, o) = (notes[at + i], s.outgoing_ironwood_notes@[i]);
                &&& n.pool == Pool::Ironwood && n.direction == NoteDirection::Sent
                &&& n.output_index == o.output_index && n.value_zat@ == text::decimal(
                    o.value as nat,
                )
                &&& memo_told(n.memo, o.memo) && recipient_told(n.recipient, o)
            }
            &&& i < b ==> {
                let (n, o) = (notes[at + a + i], s.outgoing_orchard_notes@[i]);
                &&& n.pool == Pool::Orchard && n.direction == NoteDirection::Sent
                &&& n.output_index == o.output_index && n.value_zat@ == text::decimal(
                    o.value as nat,
                )
                &&& memo_told(n.memo, o.memo) && recipient_told(n.recipient, o)
            }
            &&& i < c ==> {
                let (n, o) = (notes[at + a + b + i], s.outgoing_sapling_notes@[i]);
                &&& n.pool == Pool::Sapling && n.direction == NoteDirection::Sent
                &&& n.output_index == o.output_index && n.value_zat@ == text::decimal(
                    o.value as nat,
                )
                &&& memo_told(n.memo, o.memo) && recipient_told(n.recipient, o)
            }
            &&& i < s.outgoing_transparent_coins@.len() ==> {
                let (n, o) = (notes[at + a + b + c + i], s.outgoing_transparent_coins@[i]);
                &&& n.pool == Pool::Transparent && n.direction == NoteDirection::Sent
                &&& n.output_index == o.output_index && n.value_zat@ == text::decimal(
                    o.value as nat,
                )
                &&& n.memo is None && n.recipient is Some && n.recipient->0@ == o.recipient@
            }
        }),
{
    let at = s.ironwood_notes@.len() + s.orchard_notes@.len() + s.sapling_notes@.len()
        + s.transparent_coins@.len();
    let (a, b, c) = (
        s.outgoing_ironwood_notes@.len() as int,
        s.outgoing_orchard_notes@.len() as int,
        s.outgoing_sapling_notes@.len() as int,
    );
    assert(notes.len() == s.outputs().len());
    if i < a {
        let (n, o) = (notes[at + i], s.outgoing_ironwood_notes@[i]);
        assert(note_views(notes)[at + i] == n@);
        assert(s.outputs()[at + i] == sent_notes(Pool::Ironwood, s.outgoing_ironwood_notes@)[i]);
        cleaned_memo_told(n.memo, o.memo);
    }
    if i < b {
        let (n, o) = (notes[at + a + i], s.outgoing_orchard_notes@[i]);
        assert(note_views(notes)[at + a + i] == n@);
        assert(s.outputs()[at + a + i] == sent_notes(Pool::Orchard, s.outgoing_orchard_notes@)[i]);
        cleaned_memo_told(n.memo, o.memo);
    }
    if i < c {
        let (n, o) = (notes[at + a + b + i], s.outgoing_sapling_notes@[i]);
        assert(note_views(notes)[at + a + b + i] == n@);
        assert(s.outputs()[at + a + b + i] == sent_notes(
            Pool::Sapling,
            s.outgoing_sapling_notes@,
        )[i]);
        cleaned_memo_told(n.memo, o.memo);
    }
    if i < s.outgoing_transparent_coins@.len() {
        let n = notes[at + a + b + c + i];
        assert(note_views(notes)[at + a + b + c + i] == n@);
        assert(s.outputs()[at + a + b + c + i] == sent_coins(s.outgoing_transparent_coins@)[i]);
    }
}

/// A history fits exactly where what each of its transactions gained over its notes and
/// coins, and what any transaction spent of them in a block, is an amount that a signed
/// 64-bit balance can hold.
pub proof fn a_history_fits_while_its_sums_do(history: Seq<TransactionSummary>)
    ensures
        fits(history) <==> {
            &&& forall|i: int|
                0 <= i < history.len() ==> outputs_sum(#[trigger] history[i], in_any_state())
                    <= 0x7fff_ffff_ffff_ffff
            &&& forall|k: Seq<char>|
                history_sum(history, #[trigger] by_tx(k)) <= 0x7fff_ffff_ffff_ffff
        },
{
    assert forall|i: int| 0 <= i < history.len() implies (#[trigger] history[i]).gained()
        == outputs_sum(history[i], in_any_state()) by {
        what_is_gained_was_received(history[i]);
    }
    assert forall|k: Seq<char>| #[trigger] lost(history, k) == history_sum(history, by_tx(k)) by {
        what_is_lost_was_spent(history, k);
    }
    if fits(history) {
        assert forall|k: Seq<char>|
            history_sum(history, #[trigger] by_tx(k)) <= 0x7fff_ffff_ffff_ffff by {
            assert(lost(history, k) <= i64::MAX);
        }
    } else if forall|k: Seq<char>|
        history_sum(history, #[trigger] by_tx(k)) <= 0x7fff_ffff_ffff_ffff {
        assert forall|k: Seq<char>| #[trigger] lost(history, k) <= i64::MAX by {
            assert(history_sum(history, by_tx(k)) <= 0x7fff_ffff_ffff_ffff);
        }
    }
}

/// From the history to the wire: the value that is attributed to a transaction is that of
/// the notes and coins whose own spend state names it, and the net change it is shown with
/// is the value of its own notes and coins less that.
pub proof fn the_net_change_shown_is_gain_less_spend(
    summaries: Vec<TransactionSummary>,
    spent_by: SpentBy,
    i: int,
    tx: Tx,
)
    requires
        call_ensures(spent_value_by_tx, (&summaries,), spent_by),
        0 <= i < summaries@.len(),
        call_ensures(map_tx, (&summaries@[i], &spent_by), tx),
    ensures
        ({
            let s = summaries@[i];
            &&& spent_by.value_of(s.txid.text()) == history_sum(summaries@, by_tx(s.txid.text()))
            &&& text::signed_value(tx.net_zat@) == outputs_sum(s, in_any_state()) - history_sum(
                summaries@,
                by_tx(s.txid.text()),
            )
            &&& tx.txid@ == s.txid.text()
            &&& tx.datetime == s.datetime
            &&& tx.value_zat@ == text::decimal(s.value as nat)
            &&& tx.kind == TxKind::Received <==> s.kind == TransactionKind::Received
            &&& tx.status == TxStatus::Pending <==> s.status == ConfirmationStatus::Unconfirmed
            &&& tx.block_height == Some(s.blockheight) <==> s.status is Confirmed
            &&& note_views(tx.notes@) == s.outputs()
        }),
{
    let s = summaries@[i];
    let net = s.gained() - spent_by.value_of(s.txid.text());
    a_tx_tells_its_summary(tx, s, net);
    what_is_gained_was_received(s);
}

/// The notes that are built of a transaction are those of its outputs.
pub proof fn the_notes_built_are_the_outputs(s: TransactionSummary, notes: Vec<Note>)
    requires
        call_ensures(map_notes, (&s,), notes),
    ensures
        note_views(notes@) == s.outputs(),
{
}

/// What a transaction gained is summed up over its notes and coins, or told to be more than
/// a balance can hold; a history is told to fit exactly where its sums do.
pub proof fn sums_are_those_of_the_outputs(
    s: TransactionSummary,
    r: Option<u64>,
    summaries: Vec<TransactionSummary>,
    fit: bool,
)
    requires
        call_ensures(gained_value, (&s, 0u64), r),
        call_ensures(history_fits, (&summaries,), fit),
    ensures
        r matches Some(v) ==> v == outputs_sum(s, in_any_state()),
        r is None <==> outputs_sum(s, in_any_state()) > 0x7fff_ffff_ffff_ffff,
        fit <==> fits(summaries@),
{
    what_is_gained_was_received(s);
}

/// A memo is kept as it is unless it says nothing.
pub proof fn a_memo_is_kept_unless_blank(memo: Option<String>, r: Option<String>)
    requires
        call_ensures(clean_memo, (&memo,), r),
    ensures
        memo_told(r, memo),
{
    cleaned_memo_told(r, memo);
}

} // verus!
