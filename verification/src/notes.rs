//! The wallet-wide note list and the balances by pool.

use vstd::prelude::*;

use crate::hex::TxId;
use crate::ipc::{Balance, NoteStatus, Pool, PoolBalance, WalletNote};
use crate::text;
use crate::tx::{ConfirmationStatus, SpendStatus};

verus! {

broadcast use vstd::string::group_string_axioms;

// ---------------------------------------------------------------------------
// Spends
// ---------------------------------------------------------------------------

/// The transaction that consumes a note, at whatever stage its spend is.
pub open spec fn spender(status: SpendStatus) -> Option<TxId> {
    match status {
        SpendStatus::Unspent => None,
        SpendStatus::CalculatedSpent(txid) => Some(txid),
        SpendStatus::TransmittedSpent(txid) => Some(txid),
        SpendStatus::MempoolSpent(txid) => Some(txid),
        SpendStatus::Spent(txid) => Some(txid),
    }
}

/// The transaction that consumes a note, across every stage of a spend (proposed,
/// transmitted, in the mempool, or confirmed). `None` for an unspent note.
pub fn spending_txid(status: SpendStatus) -> (r: Option<TxId>)
    ensures
        r == spender(status),
{
    match status {
        SpendStatus::Unspent => None,
        SpendStatus::CalculatedSpent(txid) => Some(txid),
        SpendStatus::TransmittedSpent(txid) => Some(txid),
        SpendStatus::MempoolSpent(txid) => Some(txid),
        SpendStatus::Spent(txid) => Some(txid),
    }
}

// ---------------------------------------------------------------------------
// Confirmed heights
// ---------------------------------------------------------------------------

/// A transaction of the wallet and where it stands.
#[derive(Debug, Clone, Copy)]
pub struct WalletTransaction {
    pub txid: TxId,
    pub status: ConfirmationStatus,
}

/// The block in which a transaction landed.
#[derive(Debug)]
pub struct HeightEntry {
    pub txid: String,
    pub height: u32,
}

/// The confirmed height of each transaction, keyed by the transaction's text.
#[derive(Debug)]
pub struct Heights {
    pub entries: Vec<HeightEntry>,
}

/// The height that a list of entries holds for a transaction; the last entry counts.
pub open spec fn entry_height(entries: Seq<HeightEntry>, txid: Seq<char>) -> Option<u32>
    decreases entries.len(),
{
    if entries.len() == 0 {
        None
    } else if entries.last().txid@ == txid {
        Some(entries.last().height)
    } else {
        entry_height(entries.drop_last(), txid)
    }
}

/// The confirmed height of a transaction in a wallet; `None` when no confirmed
/// transaction has this text. The last one counts.
pub open spec fn confirmed_height(txs: Seq<WalletTransaction>, txid: Seq<char>) -> Option<u32>
    decreases txs.len(),
{
    if txs.len() == 0 {
        None
    } else if txs.last().txid.text() == txid && txs.last().status is Confirmed {
        txs.last().status.height()
    } else {
        confirmed_height(txs.drop_last(), txid)
    }
}

impl Heights {
    /// The confirmed height of a transaction, when it is known.
    pub open spec fn height_of(self, txid: Seq<char>) -> Option<u32> {
        entry_height(self.entries@, txid)
    }

    /// No height is known.
    pub fn new() -> (r: Self)
        ensures
            forall|k: Seq<char>| r.height_of(k) is None,
    {
        Heights { entries: Vec::new() }
    }

    /// The confirmed height of a transaction, when it is known.
    pub fn get(&self, txid: &str) -> (r: Option<u32>)
        ensures
            r == self.height_of(txid@),
    {
        let mut i: usize = self.entries.len();
        assert(self.entries@.take(i as int) =~= self.entries@);
        while i > 0
            invariant
                i <= self.entries@.len(),
                self.height_of(txid@) == entry_height(self.entries@.take(i as int), txid@),
            decreases i,
        {
            i = i - 1;
            assert(self.entries@.take(i + 1).drop_last() =~= self.entries@.take(i as int));
            if text::same_text(self.entries[i].txid.as_str(), txid) {
                return Some(self.entries[i].height);
            }
        }
        None
    }

    /// Record a height.
    pub fn insert(&mut self, txid: String, height: u32)
        ensures
            forall|k: Seq<char>|
                #[trigger] final(self).height_of(k) == if k == txid@ {
                    Some(height)
                } else {
                    old(self).height_of(k)
                },
    {
        let ghost before = self.entries@;
        self.entries.push(HeightEntry { txid, height });
        assert(self.entries@.drop_last() =~= before);
    }
}

/// Authoritative txid to confirmed height, so a note spent by a transaction can report
/// the block that transaction landed in. An in-flight spend's transaction isn't
/// confirmed yet, so it's absent here and the note's spent height stays unknown.
pub fn confirmed_heights(txs: &Vec<WalletTransaction>) -> (r: Heights)
    ensures
        forall|k: Seq<char>| #[trigger] r.height_of(k) == confirmed_height(txs@, k),
{
    let mut heights = Heights::new();
    let mut i: usize = 0;
    assert(txs@.take(0) =~= seq![]);
    while i < txs.len()
        invariant
            i <= txs@.len(),
            forall|k: Seq<char>|
                #[trigger] heights.height_of(k) == confirmed_height(txs@.take(i as int), k),
        decreases txs@.len() - i,
    {
        assert(txs@.take(i + 1).drop_last() =~= txs@.take(i as int));
        match txs[i].status.get_confirmed_height() {
            Some(h) => {
                let key = txs[i].txid.to_string();
                heights.insert(key, h);
            },
            None => {},
        }
        i = i + 1;
    }
    assert(txs@.take(txs@.len() as int) =~= txs@);
    heights
}

// ---------------------------------------------------------------------------
// Note rows
// ---------------------------------------------------------------------------

/// A received output of the wallet, as one of the pools reports it.
#[derive(Debug, Clone, Copy)]
pub struct OutputSummary {
    pub value: u64,
    pub status: ConfirmationStatus,
    pub block_height: u32,
    pub spend_status: SpendStatus,
    pub txid: TxId,
    /// Whether the output came back to the wallet itself (the internal scope).
    pub change: bool,
}

/// What a [`WalletNote`] shows.
pub struct WalletNoteView {
    pub idx: u32,
    pub pool: Pool,
    pub value_zat: Seq<char>,
    pub status: NoteStatus,
    pub height: Option<u32>,
    pub txid: Seq<char>,
    pub change: bool,
    pub spent_height: Option<u32>,
}

impl View for WalletNote {
    type V = WalletNoteView;

    open spec fn view(&self) -> WalletNoteView {
        WalletNoteView {
            idx: self.idx,
            pool: self.pool,
            value_zat: self.value_zat@,
            status: self.status,
            height: self.height,
            txid: self.txid@,
            change: self.change,
            spent_height: self.spent_height,
        }
    }
}

/// What a list of rows shows.
pub open spec fn row_views(notes: Seq<WalletNote>) -> Seq<WalletNoteView> {
    notes.map_values(|n: WalletNote| n@)
}

/// The status of a note: one in an unconfirmed transaction is pending whatever its
/// spend state, a confirmed one is either spent or spendable.
pub open spec fn note_status(confirmed: bool, spend: SpendStatus) -> NoteStatus {
    if !confirmed {
        NoteStatus::Pending
    } else if spend is Unspent {
        NoteStatus::Unspent
    } else {
        NoteStatus::Spent
    }
}

/// The block in which a note's spend landed, when there is a spend and its block is
/// known.
pub open spec fn spent_height(spend: SpendStatus, heights: Heights) -> Option<u32> {
    match spender(spend) {
        Some(t) => heights.height_of(t.text()),
        None => None,
    }
}

/// One row of the notes view.
pub fn map_wallet_note(
    idx: u32,
    pool: Pool,
    value: u64,
    confirmed: bool,
    height: u32,
    spend_status: SpendStatus,
    txid: &TxId,
    change: bool,
    heights: &Heights,
) -> (r: WalletNote)
    ensures
        r@ == (WalletNoteView {
            idx,
            pool,
            value_zat: text::decimal(value as nat),
            status: note_status(confirmed, spend_status),
            height: if confirmed {
                Some(height)
            } else {
                None
            },
            txid: txid.text(),
            change,
            spent_height: spent_height(spend_status, *heights),
        }),
{
    // A note in an unconfirmed transaction reads as pending whatever its spend
    // state. Only a confirmed note is either spent or spendable.
    let status = if !confirmed {
        NoteStatus::Pending
    } else {
        match spend_status {
            SpendStatus::Unspent => NoteStatus::Unspent,
            _ => NoteStatus::Spent,
        }
    };
    let spent_height: Option<u32> = match spending_txid(spend_status) {
        Some(spender) => {
            let key = spender.to_string();
            heights.get(key.as_str())
        },
        None => None,
    };
    WalletNote {
        idx,
        pool,
        value_zat: text::u64_text(value),
        status,
        height: if confirmed {
            Some(height)
        } else {
            None
        },
        txid: txid.to_string(),
        change,
        spent_height,
    }
}

/// Everything the wallet holds that the notes view reads.
#[derive(Debug)]
pub struct WalletOutputs {
    pub transactions: Vec<WalletTransaction>,
    pub ironwood: Vec<OutputSummary>,
    pub orchard: Vec<OutputSummary>,
    pub sapling: Vec<OutputSummary>,
    pub transparent: Vec<OutputSummary>,
}

/// The row of an output at a given position of the list.
pub open spec fn row_of(
    position: int,
    pool: Pool,
    o: OutputSummary,
    txs: Seq<WalletTransaction>,
) -> WalletNoteView {
    WalletNoteView {
        idx: position as usize as u32,
        pool,
        value_zat: text::decimal(o.value as nat),
        status: note_status(o.status is Confirmed, o.spend_status),
        height: if o.status is Confirmed {
            Some(o.block_height)
        } else {
            None
        },
        txid: o.txid.text(),
        change: o.change,
        spent_height: match spender(o.spend_status) {
            Some(t) => confirmed_height(txs, t.text()),
            None => None,
        },
    }
}

/// The rows of one pool, the first of them at position `start`.
pub open spec fn pool_rows(
    start: int,
    pool: Pool,
    outputs: Seq<OutputSummary>,
    txs: Seq<WalletTransaction>,
) -> Seq<WalletNoteView> {
    Seq::new(outputs.len(), |i: int| row_of(start + i, pool, outputs[i], txs))
}

impl WalletOutputs {
    /// Every received output of the wallet, pool after pool, each with its position as
    /// its row number.
    pub open spec fn rows(self) -> Seq<WalletNoteView> {
        let a = self.ironwood@.len() as int;
        let b = a + self.orchard@.len();
        let c = b + self.sapling@.len();
        pool_rows(0, Pool::Ironwood, self.ironwood@, self.transactions@) + pool_rows(
            a,
            Pool::Orchard,
            self.orchard@,
            self.transactions@,
        ) + pool_rows(b, Pool::Sapling, self.sapling@, self.transactions@) + pool_rows(
            c,
            Pool::Transparent,
            self.transparent@,
            self.transactions@,
        )
    }
}

fn push_rows(
    out: &mut Vec<WalletNote>,
    pool: Pool,
    outputs: &Vec<OutputSummary>,
    heights: &Heights,
    txs: &Vec<WalletTransaction>,
)
    requires
        forall|k: Seq<char>| #[trigger] heights.height_of(k) == confirmed_height(txs@, k),
    ensures
        row_views(final(out)@) == row_views(old(out)@) + pool_rows(
            old(out)@.len() as int,
            pool,
            outputs@,
            txs@,
        ),
{
    let ghost start = out@.len() as int;
    let ghost rows = pool_rows(start, pool, outputs@, txs@);
    let mut i: usize = 0;
    assert(row_views(out@) =~= row_views(out@) + rows.take(0));
    while i < outputs.len()
        invariant
            i <= outputs@.len(),
            start == old(out)@.len(),
            out@.len() == start + i,
            forall|k: Seq<char>| #[trigger] heights.height_of(k) == confirmed_height(txs@, k),
            rows == pool_rows(start, pool, outputs@, txs@),
            row_views(out@) == row_views(old(out)@) + rows.take(i as int),
        decreases outputs@.len() - i,
    {
        let o = &outputs[i];
        let ghost before = out@;
        let n: usize = out.len();
        let row = map_wallet_note(
            #[verifier::truncate]
            (n as u32),
            pool,
            o.value,
            o.status.is_confirmed(),
            o.block_height,
            o.spend_status,
            &o.txid,
            o.change,
            heights,
        );
        assert(row@ == rows[i as int]);
        out.push(row);
        assert(row_views(out@) =~= row_views(before).push(rows[i as int]));
        assert(rows.take(i + 1) =~= rows.take(i as int).push(rows[i as int]));
        i = i + 1;
    }
    assert(rows.take(outputs@.len() as int) =~= rows);
}

/// Every received output the Wallet controls, across pools, with its spend state
/// resolved. `idx` is assigned over the returned order, so it is a stable row number
/// for the default sort, not a wallet-internal id.
pub fn note_rows(wallet: &WalletOutputs) -> (r: Vec<WalletNote>)
    ensures
        row_views(r@) == wallet.rows(),
{
    let heights = confirmed_heights(&wallet.transactions);
    let mut notes: Vec<WalletNote> = Vec::new();
    assert(row_views(notes@) =~= seq![]);
    push_rows(&mut notes, Pool::Ironwood, &wallet.ironwood, &heights, &wallet.transactions);
    assert(row_views(notes@).len() == wallet.ironwood@.len());
    push_rows(&mut notes, Pool::Orchard, &wallet.orchard, &heights, &wallet.transactions);
    assert(row_views(notes@).len() == wallet.ironwood@.len() + wallet.orchard@.len());
    push_rows(&mut notes, Pool::Sapling, &wallet.sapling, &heights, &wallet.transactions);
    assert(row_views(notes@).len() == wallet.ironwood@.len() + wallet.orchard@.len()
        + wallet.sapling@.len());
    push_rows(&mut notes, Pool::Transparent, &wallet.transparent, &heights, &wallet.transactions);
    assert(row_views(notes@) =~= wallet.rows());
    notes
}

/// The row number of a note is its position in the list.
pub proof fn row_numbers_are_positions(wallet: WalletOutputs, i: int)
    requires
        0 <= i < wallet.rows().len(),
    ensures
        wallet.rows()[i].idx == i as usize as u32,
{
}

/// An unconfirmed note is pending and has no height; a confirmed one has its own.
pub proof fn pending_iff_no_height(wallet: WalletOutputs, i: int)
    requires
        0 <= i < wallet.rows().len(),
    ensures
        wallet.rows()[i].status == NoteStatus::Pending <==> wallet.rows()[i].height is None,
{
}

/// Every output of the wallet has its row, pool after pool and in its pool's order, and
/// the row tells of that output: its value, its transaction, whether it is change. It is
/// pending exactly while the output's transaction is in no block, and shows the block's
/// height exactly once it is in one; from then on it is unspent or spent as the output is.
pub proof fn a_row_tells_its_output(
    notes: Seq<WalletNote>,
    wallet: WalletOutputs,
    pool: Pool,
    i: int,
)
    requires
        row_views(notes) == wallet.rows(),
        0 <= i < match pool {
            Pool::Ironwood => wallet.ironwood@.len(),
            Pool::Orchard => wallet.orchard@.len(),
            Pool::Sapling => wallet.sapling@.len(),
            Pool::Transparent => wallet.transparent@.len(),
        },
    ensures
        notes.len() == wallet.ironwood@.len() + wallet.orchard@.len() + wallet.sapling@.len()
            + wallet.transparent@.len(),
        ({
            let (o, at) = match pool {
                Pool::Ironwood => (wallet.ironwood@[i], i),
                Pool::Orchard => (wallet.orchard@[i], wallet.ironwood@.len() + i),
                Pool::Sapling => (
                    wallet.sapling@[i],
                    wallet.ironwood@.len() + wallet.orchard@.len() + i,
                ),
                Pool::Transparent => (
                    wallet.transparent@[i],
                    wallet.ironwood@.len() + wallet.orchard@.len() + wallet.sapling@.len() + i,
                ),
            };
            let n = notes[at];
            &&& n.pool == pool
            &&& n.value_zat@ == text::decimal(o.value as nat)
            &&& n.txid@ == o.txid.text()
            &&& n.change == o.change
            &&& n.status == NoteStatus::Pending <==> o.status == ConfirmationStatus::Unconfirmed
            &&& n.status == NoteStatus::Unspent <==> o.status is Confirmed && o.spend_status
                == SpendStatus::Unspent
            &&& n.status == NoteStatus::Spent <==> o.status is Confirmed && o.spend_status
                != SpendStatus::Unspent
            &&& n.height == Some(o.block_height) <==> o.status is Confirmed
            &&& n.height is None <==> o.status == ConfirmationStatus::Unconfirmed
            &&& at <= u32::MAX ==> n.idx == at
            &&& spent_height_told(n, o, wallet.transactions@)
        }),
{
    let (a, b, c) = (
        wallet.ironwood@.len() as int,
        wallet.orchard@.len() as int,
        wallet.sapling@.len() as int,
    );
    let (o, at) = match pool {
        Pool::Ironwood => (wallet.ironwood@[i], i),
        Pool::Orchard => (wallet.orchard@[i], a + i),
        Pool::Sapling => (wallet.sapling@[i], a + b + i),
        Pool::Transparent => (wallet.transparent@[i], a + b + c + i),
    };
    assert(wallet.rows().len() == notes.len());
    assert(wallet.rows()[at] == row_of(at, pool, o, wallet.transactions@));
    assert(row_views(notes)[at] == notes[at]@);
    match spender(o.spend_status) {
        Some(t) => {
            confirmed_height_found(wallet.transactions@, t.text());
        },
        None => {},
    }
}

/// Whether a row shows the block that an output was spent in: the one in which the wallet
/// has the transaction that spends it, at whatever stage the spend is. Without a spend, or
/// while that transaction is in no block, there is none.
pub open spec fn spent_height_told(
    n: WalletNote,
    o: OutputSummary,
    txs: Seq<WalletTransaction>,
) -> bool {
    &&& o.spend_status == SpendStatus::Unspent ==> n.spent_height is None
    &&& forall|t: TxId|
        #![trigger t.text()]
        o.spend_status == SpendStatus::CalculatedSpent(t) || o.spend_status
            == SpendStatus::TransmittedSpent(t) || o.spend_status == SpendStatus::MempoolSpent(t)
            || o.spend_status == SpendStatus::Spent(t) ==> match n.spent_height {
            Some(h) => exists|k: int| #[trigger] is_confirmed_at(txs, t.text(), k, h),
            None => forall|k: int|
                0 <= k < txs.len() && (#[trigger] txs[k]).txid.text() == t.text() ==> txs[k].status
                    == ConfirmationStatus::Unconfirmed,
        }
}

/// The last transaction of a text that is in a block stands at a place, and in this block.
pub open spec fn is_confirmed_at(
    txs: Seq<WalletTransaction>,
    txid: Seq<char>,
    k: int,
    height: u32,
) -> bool {
    &&& 0 <= k < txs.len()
    &&& txs[k].txid.text() == txid
    &&& txs[k].status == ConfirmationStatus::Confirmed(height)
    &&& forall|j: int|
        k < j < txs.len() && (#[trigger] txs[j]).txid.text() == txid ==> txs[j].status
            == ConfirmationStatus::Unconfirmed
}

proof fn confirmed_height_found(txs: Seq<WalletTransaction>, txid: Seq<char>)
    ensures
        confirmed_height(txs, txid) is Some ==> exists|k: int| #[trigger]
            is_confirmed_at(txs, txid, k, confirmed_height(txs, txid)->0),
        confirmed_height(txs, txid) is None ==> forall|k: int|
            0 <= k < txs.len() && (#[trigger] txs[k]).txid.text() == txid ==> txs[k].status
                == ConfirmationStatus::Unconfirmed,
    decreases txs.len(),
{
    if txs.len() > 0 {
        let before = txs.drop_last();
        let last = txs.len() - 1;
        confirmed_height_found(before, txid);
        if txs.last().txid.text() == txid && txs.last().status is Confirmed {
            let h = txs.last().status->Confirmed_0;
            assert(confirmed_height(txs, txid) == Some(h));
            assert(is_confirmed_at(txs, txid, last as int, confirmed_height(txs, txid)->0));
        } else if confirmed_height(before, txid) is Some {
            let h = confirmed_height(before, txid)->0;
            let k = choose|k: int| #[trigger] is_confirmed_at(before, txid, k, h);
            assert forall|j: int|
                k < j < txs.len() && (#[trigger] txs[j]).txid.text() == txid implies txs[j].status
                == ConfirmationStatus::Unconfirmed by {
                if j < last {
                    assert(before[j] == txs[j]);
                }
            }
            assert(confirmed_height(txs, txid) == Some(h));
            assert(is_confirmed_at(txs, txid, k, h));
        } else {
            assert(confirmed_height(txs, txid) is None);
            assert forall|k: int|
                0 <= k < txs.len() && (#[trigger] txs[k]).txid.text() == txid implies txs[k].status
                == ConfirmationStatus::Unconfirmed by {
                if k < last {
                    assert(before[k] == txs[k]);
                }
            }
        }
    }
}

// ---------------------------------------------------------------------------
// Balances
// ---------------------------------------------------------------------------

/// The wallet's balances in zatoshis; `None` for a pool the key can't view.
#[derive(Debug, Clone, Copy)]
pub struct AccountBalance {
    pub confirmed_orchard_balance: Option<u64>,
    pub total_orchard_balance: Option<u64>,
    pub confirmed_sapling_balance: Option<u64>,
    pub total_sapling_balance: Option<u64>,
    pub confirmed_transparent_balance: Option<u64>,
    pub total_transparent_balance: Option<u64>,
    pub confirmed_ironwood_balance: Option<u64>,
    pub total_ironwood_balance: Option<u64>,
}

/// The amount of an optional balance, zero when there is none.
pub open spec fn amount(o: Option<u64>) -> nat {
    match o {
        Some(v) => v as nat,
        None => 0,
    }
}

/// Whether a pool's balance shows a confirmed and a total amount: absent when both are,
/// and otherwise the two numerals, an absent one shown as zero.
pub open spec fn shows_pool(
    r: Option<PoolBalance>,
    confirmed: Option<u64>,
    total: Option<u64>,
) -> bool {
    match r {
        None => confirmed is None && total is None,
        Some(p) => {
            &&& confirmed is Some || total is Some
            &&& p.confirmed@ == text::decimal(amount(confirmed))
            &&& p.total@ == text::decimal(amount(total))
        },
    }
}

/// A pool's balance on the wire.
pub fn pool_balance(confirmed: Option<u64>, total: Option<u64>) -> (r: Option<PoolBalance>)
    ensures
        shows_pool(r, confirmed, total),
{
    if confirmed.is_none() && total.is_none() {
        return None;
    }
    let c: u64 = match confirmed {
        Some(v) => v,
        None => 0,
    };
    let t: u64 = match total {
        Some(v) => v,
        None => 0,
    };
    Some(PoolBalance { confirmed: text::u64_text(c), total: text::u64_text(t) })
}

/// Whether a balance on the wire shows the wallet's balances, pool by pool.
pub open spec fn shows_balance(r: Balance, bal: AccountBalance) -> bool {
    &&& shows_pool(r.orchard, bal.confirmed_orchard_balance, bal.total_orchard_balance)
    &&& shows_pool(r.sapling, bal.confirmed_sapling_balance, bal.total_sapling_balance)
    &&& shows_pool(
        r.transparent,
        bal.confirmed_transparent_balance,
        bal.total_transparent_balance,
    )
    &&& shows_pool(r.ironwood, bal.confirmed_ironwood_balance, bal.total_ironwood_balance)
}

/// The wallet's balances on the wire.
pub fn map_balance(bal: &AccountBalance) -> (r: Balance)
    ensures
        shows_balance(r, *bal),
{
    Balance {
        orchard: pool_balance(bal.confirmed_orchard_balance, bal.total_orchard_balance),
        sapling: pool_balance(bal.confirmed_sapling_balance, bal.total_sapling_balance),
        transparent: pool_balance(
            bal.confirmed_transparent_balance,
            bal.total_transparent_balance,
        ),
        ironwood: pool_balance(bal.confirmed_ironwood_balance, bal.total_ironwood_balance),
    }
}

/// A balance on the wire shows the account's own amounts: for each pool, the confirmed one
/// as confirmed and the total as total, an amount that is missing beside another as zero.
/// A pool of which neither is known is left out.
pub proof fn each_pool_shows_its_own_amounts(r: Balance, bal: AccountBalance)
    requires
        shows_balance(r, bal),
    ensures
        r.orchard is None <==> bal.confirmed_orchard_balance is None
            && bal.total_orchard_balance is None,
        r.sapling is None <==> bal.confirmed_sapling_balance is None
            && bal.total_sapling_balance is None,
        r.transparent is None <==> bal.confirmed_transparent_balance is None
            && bal.total_transparent_balance is None,
        r.ironwood is None <==> bal.confirmed_ironwood_balance is None
            && bal.total_ironwood_balance is None,
        r.orchard matches Some(p) ==> {
            &&& bal.confirmed_orchard_balance matches Some(v) ==> p.confirmed@ == text::decimal(
                v as nat,
            )
            &&& bal.confirmed_orchard_balance is None ==> p.confirmed@ == text::decimal(0)
            &&& bal.total_orchard_balance matches Some(v) ==> p.total@ == text::decimal(v as nat)
            &&& bal.total_orchard_balance is None ==> p.total@ == text::decimal(0)
        },
        r.sapling matches Some(p) ==> {
            &&& bal.confirmed_sapling_balance matches Some(v) ==> p.confirmed@ == text::decimal(
                v as nat,
            )
            &&& bal.confirmed_sapling_balance is None ==> p.confirmed@ == text::decimal(0)
            &&& bal.total_sapling_balance matches Some(v) ==> p.total@ == text::decimal(v as nat)
            &&& bal.total_sapling_balance is None ==> p.total@ == text::decimal(0)
        },
        r.transparent matches Some(p) ==> {
            &&& bal.confirmed_transparent_balance matches Some(v) ==> p.confirmed@
                == text::decimal(v as nat)
            &&& bal.confirmed_transparent_balance is None ==> p.confirmed@ == text::decimal(0)
            &&& bal.total_transparent_balance matches Some(v) ==> p.total@ == text::decimal(
                v as nat,
            )
            &&& bal.total_transparent_balance is None ==> p.total@ == text::decimal(0)
        },
        r.ironwood matches Some(p) ==> {
            &&& bal.confirmed_ironwood_balance matches Some(v) ==> p.confirmed@ == text::decimal(
                v as nat,
            )
            &&& bal.confirmed_ironwood_balance is None ==> p.confirmed@ == text::decimal(0)
            &&& bal.total_ironwood_balance matches Some(v) ==> p.total@ == text::decimal(v as nat)
            &&& bal.total_ironwood_balance is None ==> p.total@ == text::decimal(0)
        },
{
}

/// The list that is built of a wallet's outputs has the row of each of them in its place,
/// pending exactly while the output is in no block and with the block's height exactly once
/// it is in one.
pub proof fn the_list_built_has_every_output(
    wallet: WalletOutputs,
    notes: Vec<WalletNote>,
    pool: Pool,
    i: int,
)
    requires
        call_ensures(note_rows, (&wallet,), notes),
        0 <= i < match pool {
            Pool::Ironwood => wallet.ironwood@.len(),
            Pool::Orchard => wallet.orchard@.len(),
            Pool::Sapling => wallet.sapling@.len(),
            Pool::Transparent => wallet.transparent@.len(),
        },
    ensures
        notes@.len() == wallet.ironwood@.len() + wallet.orchard@.len() + wallet.sapling@.len()
            + wallet.transparent@.len(),
        ({
            let (o, n) = match pool {
                Pool::Ironwood => (wallet.ironwood@[i], notes@[i]),
                Pool::Orchard => (wallet.orchard@[i], notes@[wallet.ironwood@.len() + i]),
                Pool::Sapling => (
                    wallet.sapling@[i],
                    notes@[wallet.ironwood@.len() + wallet.orchard@.len() + i],
                ),
                Pool::Transparent => (
                    wallet.transparent@[i],
                    notes@[wallet.ironwood@.len() + wallet.orchard@.len() + wallet.sapling@.len()
                        + i],
                ),
            };
            &&& n.pool == pool
            &&& n.value_zat@ == text::decimal(o.value as nat)
            &&& n.txid@ == o.txid.text()
            &&& n.change == o.change
            &&& n.status == NoteStatus::Pending <==> o.status == ConfirmationStatus::Unconfirmed
            &&& n.status == NoteStatus::Spent <==> o.status is Confirmed && o.spend_status
                != SpendStatus::Unspent
            &&& n.height == Some(o.block_height) <==> o.status is Confirmed
            &&& n.height is None <==> o.status == ConfirmationStatus::Unconfirmed
            &&& spent_height_told(n, o, wallet.transactions@)
        }),
{
    a_row_tells_its_output(notes@, wallet, pool, i);
}

/// The balance that is built of an account shows for each pool the confirmed amount of that
/// pool as confirmed and its total amount as total, where both are known.
pub proof fn the_balance_built_is_the_accounts(
    bal: AccountBalance,
    r: Balance,
    confirmed: u64,
    total: u64,
)
    requires
        call_ensures(map_balance, (&bal,), r),
    ensures
        shows_balance(r, bal),
        bal.confirmed_orchard_balance == Some(confirmed) && bal.total_orchard_balance == Some(total)
            ==> r.orchard is Some && r.orchard->0.confirmed@ == text::decimal(confirmed as nat)
            && r.orchard->0.total@ == text::decimal(total as nat),
        bal.confirmed_sapling_balance == Some(confirmed) && bal.total_sapling_balance == Some(total)
            ==> r.sapling is Some && r.sapling->0.confirmed@ == text::decimal(confirmed as nat)
            && r.sapling->0.total@ == text::decimal(total as nat),
        bal.confirmed_transparent_balance == Some(confirmed) && bal.total_transparent_balance
            == Some(total) ==> r.transparent is Some && r.transparent->0.confirmed@
            == text::decimal(confirmed as nat) && r.transparent->0.total@ == text::decimal(
            total as nat,
        ),
        bal.confirmed_ironwood_balance == Some(confirmed) && bal.total_ironwood_balance == Some(
            total,
        ) ==> r.ironwood is Some && r.ironwood->0.confirmed@ == text::decimal(confirmed as nat)
            && r.ironwood->0.total@ == text::decimal(total as nat),
{
    each_pool_shows_its_own_amounts(r, bal);
}

/// A spend is followed to its transaction at whatever stage it is.
pub proof fn every_spend_has_its_transaction(status: SpendStatus, r: Option<TxId>, t: TxId)
    requires
        call_ensures(spending_txid, (status,), r),
    ensures
        r is None <==> status == SpendStatus::Unspent,
        r == Some(t) <==> status == SpendStatus::CalculatedSpent(t) || status
            == SpendStatus::TransmittedSpent(t) || status == SpendStatus::MempoolSpent(t) || status
            == SpendStatus::Spent(t),
{
}

} // verus!
