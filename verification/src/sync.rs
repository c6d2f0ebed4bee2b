//! The sync loop: its rounds, what each of them tells the GUI and the user, and how long
//! it waits between two.

use vstd::prelude::*;
use vstd::string::*;

use crate::chain;
use crate::chain::{ChainObservation, ChainVerdict};
use crate::clock;
use crate::clock::{Duration, Instant};
use crate::hex::TxId;
use crate::import::Probe;
use crate::ipc::{BatchProgress, Real, SyncEvent, SyncState, SyncStatus, Tx, TxKind};
use crate::notes;
use crate::notes::AccountBalance;
use crate::notify;
use crate::notify::{Disposition, Toast};
use crate::paths;
use crate::paths::{FileRead, Meta};
use crate::round;
use crate::round::{Effect, RoundView, ScanEvent};
use crate::service;
use crate::service::{MetaSave, WalletService};
use crate::text;
use crate::tx;
use crate::tx::{SpentBy, TransactionKind, TransactionSummary};
use crate::uri;

verus! {

broadcast use vstd::string::group_string_axioms;

/// Gap between sync rounds once a round has finished cleanly, in seconds. Kept short so
/// a newly mined transaction is picked up within roughly this window.
pub const IDLE_INTERVAL_SECS: u64 = 2;

/// Reconnect backoff bounds after a failed round, in seconds.
pub const BACKOFF_MIN_SECS: u64 = 3;

pub const BACKOFF_MAX_SECS: u64 = 120;

/// How often to check the background sync task for completion, in seconds. The event
/// stream drives progress, so this only watches for the round finishing.
pub const POLL_INTERVAL_SECS: u64 = 1;

/// How often to push a coalesced progress snapshot, in milliseconds. A fast scan emits
/// batch lifecycle events far quicker than the GUI can paint, so the snapshot is
/// rate-limited to this cadence. Discrete events (batch done, transactions) still go out
/// immediately.
pub const PROGRESS_FLUSH_MILLIS: u64 = 120;

/// How long to wait on a probe of the Indexer before treating it as unreachable, in
/// seconds.
pub const INDEXER_PROBE_TIMEOUT_SECS: u64 = 15;

// ---------------------------------------------------------------------------
// Failed rounds
// ---------------------------------------------------------------------------

/// A failed sync round: the message the GUI shows, plus whether the cause was the
/// Indexer being unreachable. Only the connectivity case drives the "Change server"
/// CTA, so the verdict travels with the error rather than being re-derived.
#[derive(Debug)]
pub struct RoundError {
    pub message: String,
    pub unreachable: bool,
    /// The pre-round identity check found the Indexer on a different chain. Only that
    /// guard sets it; mid-round failures never do.
    pub wrong_chain: bool,
}

impl RoundError {
    /// A failure has one cause.
    pub open spec fn one_cause(self) -> bool {
        !(self.unreachable && self.wrong_chain)
    }

    /// A local or state error, never a transport failure.
    pub fn local(message: String) -> (r: Self)
        ensures
            r == (RoundError { message, unreachable: false, wrong_chain: false }),
    {
        RoundError { message, unreachable: false, wrong_chain: false }
    }

    /// The sync task could not be started.
    pub fn start_failed(error: &str) -> (r: Self)
        ensures
            r.message@ == "sync start failed: "@ + error@,
            !r.unreachable,
            !r.wrong_chain,
    {
        let mut message = "sync start failed: ".to_string();
        message.append(error);
        RoundError::local(message)
    }
}

/// How the Indexer failed a sync.
#[derive(Debug, PartialEq, Eq)]
pub enum ServerError {
    /// A request did not get through.
    RequestFailed(String),
    InvalidFrontier,
    InvalidTransaction,
    InvalidSubtreeRoot,
    FetcherDropped,
    Other(String),
}

/// How a sync failed.
#[derive(Debug, PartialEq, Eq)]
pub enum SyncError {
    ServerError(ServerError),
    ChainError(u32, u32, u32),
    Other(String),
}

/// True when a sync failure is the Indexer being unreachable: a connection or transport
/// failure, as opposed to a scan, consensus, bad-data, or wallet error. Kept narrow so
/// the "Change server" CTA never shows for a failure that changing the server wouldn't
/// fix.
pub fn is_unreachable(err: &SyncError) -> (r: bool)
    ensures
        r == (err is ServerError && err->ServerError_0 is RequestFailed),
{
    match err {
        SyncError::ServerError(ServerError::RequestFailed(_)) => true,
        _ => false,
    }
}

/// What a failed round is reported as: an event for the GUI, and a notification for each
/// cause the user can do something about.
pub struct Failure {
    pub event: SyncEvent,
    pub unreachable: Option<Toast>,
    pub wrong_chain: Option<Toast>,
}

impl service::State {
    /// The state after a failed round. Each cause notifies once per episode.
    pub open spec fn failed(self, err: RoundError) -> service::State {
        service::State {
            sync: SyncStatus {
                state: SyncState::Error,
                error: Some(err.message),
                unreachable: err.unreachable,
                wrong_chain: err.wrong_chain,
                ..self.sync
            },
            unreachable_notified: self.unreachable_notified || err.unreachable,
            wrong_chain_notified: self.wrong_chain_notified || err.wrong_chain,
            ..self
        }
    }

    /// What a failed round is reported as, with the Indexer under a name.
    pub open spec fn reports(self, err: RoundError, indexer: Seq<char>, f: Failure) -> bool {
        &&& f.event is Error
        &&& f.event->Error_message == err.message
        &&& f.event->Error_unreachable == err.unreachable
        &&& f.event->Error_wrong_chain == err.wrong_chain
        &&& notify::toast_view(f.unreachable) == if err.unreachable && !self.unreachable_notified {
            Some(notify::unreachable(indexer))
        } else {
            None
        }
        &&& notify::toast_view(f.wrong_chain) == if err.wrong_chain && !self.wrong_chain_notified {
            Some(notify::wrong_chain())
        } else {
            None
        }
    }

    /// What the wallet's Indexer is called.
    pub open spec fn indexer_name(self) -> Seq<char> {
        match self.meta {
            Some(m) => uri::host_or_indexer(uri::host_in(m.indexer_uri@)),
            None => "your Indexer"@,
        }
    }

    /// The state at the start of a round.
    pub open spec fn in_round(self) -> service::State {
        service::State {
            sync: SyncStatus {
                state: SyncState::Syncing,
                error: None,
                unreachable: false,
                wrong_chain: false,
                ..self.sync
            },
            ..self
        }
    }
}

// ---------------------------------------------------------------------------
// The identity check
// ---------------------------------------------------------------------------

/// The Indexer is on another chain.
pub open spec fn on_other_chain(detail: Seq<char>) -> Seq<char> {
    "your Indexer is serving a different chain than this Wallet synced: "@ + detail
}

/// What a round asks the Indexer before it begins.
pub struct RoundCheck {
    pub indexer_uri: String,
    pub probe: Probe,
}

/// Why a round cannot even ask the Indexer who it is, if it cannot.
pub open spec fn check_refusal(s: service::State, valid_uri: bool) -> Option<Seq<char>> {
    if s.meta is None {
        Some("no wallet"@)
    } else if !valid_uri {
        Some("invalid indexer uri"@)
    } else {
        None
    }
}

/// Judge the Indexer before a round: refuse the round if it is on a different chain. A
/// server that doesn't answer is an outage, never a chain verdict.
pub fn judge_round(probe: &Probe, observed: Result<ChainObservation, String>) -> (r: Result<
    (),
    RoundError,
>)
    ensures
        match observed {
            Err(e) => r is Err && r->Err_0 == (RoundError {
                message: e,
                unreachable: true,
                wrong_chain: false,
            }),
            Ok(obs) => match probe.verdict(obs) {
                chain::Verdict::WrongChain { detail } => {
                    &&& r is Err
                    &&& r->Err_0.message@ == on_other_chain(detail)
                    &&& !r->Err_0.unreachable
                    &&& r->Err_0.wrong_chain
                },
                _ => r is Ok,
            },
        },
        r matches Err(e) ==> e.one_cause(),
{
    let obs = match observed {
        Err(message) => {
            return Err(RoundError { message, unreachable: true, wrong_chain: false });
        },
        Ok(obs) => obs,
    };
    match probe.judge(&obs) {
        ChainVerdict::WrongChain { detail } => {
            let mut message =
                "your Indexer is serving a different chain than this Wallet synced: ".to_string();
            message.append(detail.as_str());
            Err(RoundError { message, unreachable: false, wrong_chain: true })
        },
        _ => Ok(()),
    }
}

impl WalletService {
    /// Begin a round.
    pub fn begin_round(&mut self)
        ensures
            final(self)@ == old(self)@.in_round(),
            final(self).sync.one_cause(),
    {
        self.sync.state = SyncState::Syncing;
        self.sync.error = None;
        self.sync.unreachable = false;
        self.sync.wrong_chain = false;
    }

    /// What to ask the Indexer before a round, given whether its address is a URI.
    pub fn admit_round(&self, valid_uri: bool) -> (r: Result<RoundCheck, RoundError>)
        ensures
            match check_refusal(self@, valid_uri) {
                Some(e) => r is Err && r->Err_0.message@ == e && !r->Err_0.unreachable
                    && !r->Err_0.wrong_chain,
                None => r is Ok && r->Ok_0.indexer_uri == self.meta->0.indexer_uri
                    && r->Ok_0.probe == Probe::of(self.meta->0),
            },
    {
        match &self.meta {
            None => Err(RoundError::local("no wallet".to_string())),
            Some(meta) => {
                if valid_uri {
                    Ok(
                        RoundCheck {
                            indexer_uri: meta.indexer_uri.clone(),
                            probe: Probe::of_meta(meta),
                        },
                    )
                } else {
                    Err(RoundError::local("invalid indexer uri".to_string()))
                }
            },
        }
    }

    /// The pre-round identity check: what to ask the Indexer. Its answers are judged by
    /// [`judge_round`], before the wallet is touched, so the wallet file stays frozen and
    /// unlock stays responsive.
    pub fn verify_chain_identity(&self) -> (r: Result<RoundCheck, RoundError>)
        ensures
            ({
                let valid = self.meta matches Some(m) && uri::is_uri(m.indexer_uri@);
                match check_refusal(self@, valid) {
                    Some(e) => r is Err && r->Err_0.message@ == e && !r->Err_0.unreachable
                        && !r->Err_0.wrong_chain,
                    None => r is Ok && r->Ok_0.indexer_uri == self.meta->0.indexer_uri
                        && r->Ok_0.probe == Probe::of(self.meta->0),
                }
            }),
    {
        let valid = match &self.meta {
            Some(meta) => uri::parses(meta.indexer_uri.as_str()),
            None => false,
        };
        self.admit_round(valid)
    }

    /// Publish a failed round, with the Indexer under a name.
    pub fn fail_round(&mut self, err: RoundError, indexer: &str) -> (r: Failure)
        ensures
            final(self)@ == old(self)@.failed(err),
            old(self)@.reports(err, indexer@, r),
            err.one_cause() ==> final(self).sync.one_cause(),
    {
        self.sync =
        SyncStatus {
            state: SyncState::Error,
            synced_height: self.sync.synced_height,
            chain_tip: self.sync.chain_tip,
            percent: self.sync.percent,
            phase: self.sync.phase,
            scanned_outputs: self.sync.scanned_outputs,
            total_outputs: self.sync.total_outputs,
            eta_seconds: self.sync.eta_seconds,
            error: Some(err.message.clone()),
            unreachable: err.unreachable,
            wrong_chain: err.wrong_chain,
            last_synced_at: self.sync.last_synced_at,
        };
        let unreachable = if err.unreachable && !self.unreachable_notified {
            Some(notify::unreachable_toast(indexer))
        } else {
            None
        };
        let wrong_chain = if err.wrong_chain && !self.wrong_chain_notified {
            Some(notify::wrong_chain_toast())
        } else {
            None
        };
        self.unreachable_notified = self.unreachable_notified || err.unreachable;
        self.wrong_chain_notified = self.wrong_chain_notified || err.wrong_chain;
        Failure {
            event: SyncEvent::Error {
                message: err.message,
                unreachable: err.unreachable,
                wrong_chain: err.wrong_chain,
            },
            unreachable,
            wrong_chain,
        }
    }

    /// Publish a failed round to the status, the event stream, and (for the actionable
    /// causes) a desktop notification. Each cause notifies once per episode; recovery, an
    /// Indexer change, or a fresh loop re-arms it. Both alerts bypass the notifications
    /// setting: that covers movement toasts, and a wallet that has silently stopped
    /// syncing is worse than an unwanted notification.
    pub fn note_round_failure(&mut self, err: RoundError) -> (r: Failure)
        ensures
            final(self)@ == old(self)@.failed(err),
            old(self)@.reports(err, old(self)@.indexer_name(), r),
            err.one_cause() ==> final(self).sync.one_cause(),
    {
        let indexer = match &self.meta {
            Some(m) => uri::indexer_name(m.indexer_uri.as_str()),
            None => "your Indexer".to_string(),
        };
        self.fail_round(err, indexer.as_str())
    }

    /// A round got through, so the episode (if any) is over: a later one notifies again.
    pub fn round_succeeded(&mut self)
        ensures
            final(self)@ == old(self)@.rearmed(),
    {
        self.unreachable_notified = false;
        self.wrong_chain_notified = false;
    }
}

// ---------------------------------------------------------------------------
// Adopting an Anchor
// ---------------------------------------------------------------------------

/// What to ask for an Anchor: the Indexer, and the wallet's birthday.
pub struct AnchorSearch {
    pub indexer_uri: String,
    pub birthday: u32,
}

/// Whether a wallet has yet to adopt an Anchor.
pub open spec fn unanchored(s: service::State) -> bool {
    s.meta matches Some(m) && m.anchor_hash is None
}

/// An Anchor: a height, and the hash of the block there.
pub struct Anchor {
    pub height: u32,
    pub hash: String,
}

impl service::State {
    /// The state with an Anchor adopted.
    pub open spec fn anchored(self, anchor: Anchor) -> service::State {
        service::State {
            meta: Some(
                Meta {
                    anchor_height: anchor.height,
                    anchor_hash: Some(anchor.hash),
                    ..self.meta->0
                },
            ),
            ..self
        }
    }
}

/// The Anchor that an Indexer's answers give, if they give one.
pub open spec fn found_anchor(
    birthday: u32,
    tip: Result<u32, String>,
    block: Result<Option<String>, String>,
) -> Option<Anchor> {
    match (tip, block) {
        (Ok(tip), Ok(Some(hash))) => Some(
            Anchor { height: chain::anchor_at(birthday, tip), hash },
        ),
        _ => None,
    }
}

impl WalletService {
    /// Whether an Anchor is to be searched for, given whether the Indexer's address is a
    /// URI.
    pub fn search_anchor(&self, valid_uri: bool) -> (r: Option<AnchorSearch>)
        ensures
            match r {
                Some(search) => unanchored(self@) && valid_uri && search.indexer_uri
                    == self.meta->0.indexer_uri && search.birthday == self.meta->0.birthday_height,
                None => !(unanchored(self@) && valid_uri),
            },
    {
        match &self.meta {
            Some(meta) => {
                if meta.anchor_hash.is_none() && valid_uri {
                    Some(
                        AnchorSearch {
                            indexer_uri: meta.indexer_uri.clone(),
                            birthday: meta.birthday_height,
                        },
                    )
                } else {
                    None
                }
            },
            None => None,
        }
    }

    /// Trust on first use for a wallet imported before Anchors existed: after a good
    /// round, whether the chain it just synced against is to be recorded as the one to
    /// hold to. The Indexer is then asked for its tip and for the block at
    /// [`chain::anchor_height`], and [`Self::adopt_anchor`] told what came of it.
    pub fn adopt_anchor_if_missing(&self) -> (r: Option<AnchorSearch>)
        ensures
            ({
                let valid = self.meta matches Some(m) && uri::is_uri(m.indexer_uri@);
                match r {
                    Some(search) => unanchored(self@) && valid && search.indexer_uri
                        == self.meta->0.indexer_uri && search.birthday
                        == self.meta->0.birthday_height,
                    None => !(unanchored(self@) && valid),
                }
            }),
    {
        let valid = match &self.meta {
            Some(meta) => uri::parses(meta.indexer_uri.as_str()),
            None => false,
        };
        self.search_anchor(valid)
    }

    /// Adopt an Anchor, if one was found and none has come in meanwhile (by an import).
    /// Returns the metadata to save, in the active wallet's own file. Every failure just
    /// retries on a later round.
    pub fn adopt_anchor(
        &mut self,
        active: &FileRead,
        birthday: u32,
        tip: Result<u32, String>,
        block: Result<Option<String>, String>,
    ) -> (r: Option<MetaSave>)
        ensures
            r is Some <==> unanchored(old(self)@) && found_anchor(birthday, tip, block) is Some,
            match r {
                Some(save) => {
                    &&& final(self)@ == old(self)@.anchored(found_anchor(birthday, tip, block)->0)
                    &&& final(self)@.saved_by(paths::active_id_or_none(*active), save)
                },
                None => final(self)@ == old(self)@,
            },
    {
        let tip: u32 = match tip {
            Ok(tip) => tip,
            Err(_) => return None,
        };
        let hash = match block {
            Ok(Some(hash)) => hash,
            _ => return None,
        };
        let missing = match &self.meta {
            Some(meta) => meta.anchor_hash.is_none(),
            None => false,
        };
        if !missing {
            return None;
        }
        if let Some(taken) = self.meta.take() {
            let mut meta = taken;
            meta.anchor_height = chain::anchor_height(birthday, tip);
            meta.anchor_hash = Some(hash);
            self.meta = Some(meta);
        }
        self.to_save(active)
    }
}

// ---------------------------------------------------------------------------
// Transactions as they are found
// ---------------------------------------------------------------------------

impl service::State {
    /// Whether a transaction is post-import activity: in the mempool, or in a block at
    /// or past the Initial scan's end.
    pub open spec fn is_live(self, confirmed: bool, height: u32) -> bool {
        confirmed ==> height >= self.target()
    }

    /// Whether a transaction is to be notified, as far as the policy goes.
    pub open spec fn due(self, txid: Seq<char>, live: bool) -> bool {
        self.notify.disposition(txid, live) == Disposition::Notify
    }

    /// The state after a transaction was found. With notifications off it is recorded as
    /// seen, so re-enabling later doesn't replay it as new.
    pub open spec fn told(self, txid: Seq<char>, live: bool) -> service::State {
        let asked = self.notify.classified(txid, live);
        service::State {
            notify: if self.due(txid, live) && !self.notifications_enabled {
                asked.marked(txid)
            } else {
                asked
            },
            ..self
        }
    }

    /// The notification of a transaction, if one is to be delivered.
    pub open spec fn tells(
        self,
        txid: Seq<char>,
        received: bool,
        value: u64,
        live: bool,
    ) -> Option<notify::ToastText> {
        if self.due(txid, live) && self.notifications_enabled {
            Some(notify::movement(txid, received, value, self.discreet))
        } else {
            None
        }
    }

    /// The state after a round ended at a height.
    pub open spec fn finalized(self, height: u32, now_secs: u64) -> service::State {
        service::State {
            sync: SyncStatus {
                state: SyncState::Idle,
                synced_height: height,
                chain_tip: round::later(self.sync.chain_tip, height),
                percent: 100,
                phase: None,
                eta_seconds: None,
                error: None,
                unreachable: false,
                last_synced_at: Some(now_secs),
                ..self.sync
            },
            notify: self.notify.reached(height, self.target()),
            ..self
        }
    }

    /// The state with a round's progress in it.
    pub open spec fn progressed(self, next: SyncStatus) -> service::State {
        service::State {
            sync: SyncStatus {
                last_synced_at: self.sync.last_synced_at,
                wrong_chain: self.sync.wrong_chain,
                ..next
            },
            ..self
        }
    }
}

/// The interim net change of a transaction that was just found: the wallet's own
/// estimate where it has one, and what the transaction gained otherwise.
pub open spec fn interim_net(summary: TransactionSummary) -> int {
    match summary.balance_delta {
        Some(delta) => delta as int,
        None => summary.gained() as int,
    }
}

/// Whether one list of transactions is another with a transaction put in: in the place
/// of the one with its txid, or at the head where there is none.
pub open spec fn upserted(before: Seq<Tx>, txid: Seq<char>, new: Tx, after: Seq<Tx>) -> bool {
    if exists|i: int| is_tx_at(before, txid, i) {
        exists|i: int| #[trigger] is_tx_at(before, txid, i) && after == before.update(i, new)
    } else {
        after == before.insert(0, new)
    }
}

/// The first transaction of a txid stands at a place.
pub open spec fn is_tx_at(txs: Seq<Tx>, txid: Seq<char>, i: int) -> bool {
    &&& 0 <= i < txs.len()
    &&& txs[i].txid@ == txid
    &&& forall|k: int| 0 <= k < i ==> (#[trigger] txs[k]).txid@ != txid
}

/// What a found transaction is reported as.
pub struct TxNews {
    pub event: SyncEvent,
    pub toast: Option<Toast>,
}

/// A transaction that was just found, on the wire.
fn interim_tx(summary: &TransactionSummary) -> (r: Tx)
    requires
        summary.gained() <= i64::MAX,
    ensures
        r@ == summary.shown(interim_net(*summary)),
{
    let spent_by = SpentBy::new();
    let mut shown = tx::map_tx(summary, &spent_by);
    if let Some(delta) = summary.balance_delta {
        shown.net_zat = text::i64_text(delta);
    }
    shown
}

impl WalletService {
    fn upsert(&mut self, txid: &str, shown: Tx)
        ensures
            final(self)@ == (service::State { txs: final(self).txs@, ..old(self)@ }),
            upserted(old(self).txs@, txid@, shown, final(self).txs@),
    {
        let ghost before = self.txs@;
        match self.find_tx(txid) {
            Some(i) => {
                assert(is_tx_at(before, txid@, i as int));
                self.txs.set(i, shown);
            },
            None => {
                assert(forall|i: int| !is_tx_at(before, txid@, i));
                self.txs.insert(0, shown);
            },
        }
    }

    /// The wallet's balance was read anew, since funds changed.
    pub fn on_tx_discovered(&mut self, balance: Option<AccountBalance>)
        ensures
            match (old(self).client_open, balance) {
                (true, Some(bal)) => {
                    &&& final(self)@ == (service::State {
                        balance: final(self).balance,
                        ..old(self)@
                    })
                    &&& final(self).balance is Some
                    &&& notes::shows_balance(final(self).balance->0, bal)
                },
                _ => final(self)@ == old(self)@,
            },
    {
        if self.client_open {
            if let Some(bal) = &balance {
                self.balance = Some(notes::map_balance(bal));
            }
        }
    }

    /// Handle an already-fetched summary: cache upsert, the event for the GUI, and the
    /// per-transaction toast. A single live summary can't see which earlier notes the
    /// transaction spent, so the exact net change isn't available yet; the next snapshot
    /// recomputes it.
    pub fn on_tx_summary(&mut self, txid: TxId, summary: &TransactionSummary) -> (r: TxNews)
        requires
            summary.gained() <= i64::MAX,
        ensures
            ({
                let live = old(self)@.is_live(summary.status is Confirmed, summary.blockheight);
                let received = summary.kind == TransactionKind::Received;
                &&& final(self)@ == (service::State {
                    txs: final(self)@.txs,
                    ..old(self)@.told(txid.text(), live)
                })
                &&& exists|new: Tx| #[trigger]
                    upserted(old(self).txs@, txid.text(), new, final(self).txs@) && new@
                        == summary.shown(interim_net(*summary))
                &&& r.event is Transaction
                &&& r.event->txid@ == txid.text()
                &&& r.event->kind == tx::kind_of(summary.kind)
                &&& r.event->value_zat@ == text::decimal(summary.value as nat)
                &&& r.event->received == received
                &&& notify::toast_view(r.toast) == old(self)@.tells(
                    txid.text(),
                    received,
                    summary.value,
                    live,
                )
            }),
    {
        let id = txid.to_string();
        let received = match summary.kind {
            TransactionKind::Received => true,
            TransactionKind::Sent(_) => false,
        };
        let kind = if received {
            TxKind::Received
        } else {
            TxKind::Sent
        };
        self.upsert(id.as_str(), interim_tx(summary));
        let toast = self.notify_tx(
            id.as_str(),
            received,
            summary.value,
            summary.status.is_confirmed(),
            summary.blockheight,
        );
        let event = SyncEvent::Transaction {
            txid: id,
            kind,
            value_zat: text::u64_text(summary.value),
            received,
        };
        TxNews { event, toast }
    }

    /// Decide the per-transaction toast. One that is to be delivered is recorded as seen
    /// only once it was ([`Self::toast_delivered`]), so that a failure is tried again on
    /// rediscovery rather than lost. `height` is unused for an unconfirmed transaction,
    /// which always counts as live. Gating on the transaction's own height rather than
    /// the synced one is robust to a tip-first scan, which pushes the synced height past
    /// the target before the older blocks are walked.
    pub fn notify_tx(
        &mut self,
        txid: &str,
        received: bool,
        value: u64,
        confirmed: bool,
        height: u32,
    ) -> (r: Option<Toast>)
        ensures
            ({
                let live = old(self)@.is_live(confirmed, height);
                &&& final(self)@ == old(self)@.told(txid@, live)
                &&& notify::toast_view(r) == old(self)@.tells(txid@, received, value, live)
            }),
    {
        let target: u32 = self.scan_target();
        let live = if confirmed {
            height >= target
        } else {
            true
        };
        match self.notify.classify(txid, live) {
            Disposition::Silent => None,
            Disposition::Notify => {
                if !self.notifications_enabled {
                    self.notify.mark_notified(txid);
                    return None;
                }
                Some(notify::movement_toast(txid, received, value, self.discreet))
            },
        }
    }

    /// A transaction's notification was delivered.
    pub fn toast_delivered(&mut self, txid: &str)
        ensures
            final(self)@ == (service::State {
                notify: old(self)@.notify.marked(txid@),
                ..old(self)@
            }),
    {
        self.notify.mark_notified(txid);
    }

    /// The round starts at a height: arm the live edge from it.
    pub fn seed_live(&mut self, start: u32)
        ensures
            final(self)@ == (service::State {
                notify: old(self)@.notify.seeded(start, old(self)@.target()),
                ..old(self)@
            }),
    {
        let target: u32 = self.scan_target();
        self.notify.seed_live(start, target);
    }

    /// Write the overall tally into the status and report it with the active batch list,
    /// preserving when the wallet was last synced.
    pub fn publish_progress(
        &mut self,
        view: &RoundView,
        percent: u8,
        eta_seconds: Option<u64>,
        expected_secs: &Vec<Option<Real>>,
    ) -> (r: SyncEvent)
        requires
            expected_secs@.len() == view.in_flight@.len(),
        ensures
            ({
                let next = SyncStatus {
                    state: SyncState::Syncing,
                    synced_height: view.synced_height,
                    chain_tip: round::later(view.chain_tip, view.synced_height),
                    percent,
                    phase: view@.phase(),
                    scanned_outputs: Some(view.scanned_outputs),
                    total_outputs: Some(view.total_outputs),
                    eta_seconds,
                    error: None,
                    unreachable: false,
                    wrong_chain: false,
                    last_synced_at: None,
                };
                &&& final(self)@ == old(self)@.progressed(next)
                &&& r is Progress
                &&& r->Progress_status == final(self).sync
                &&& shows_batches(r->batches@, view.in_flight@, expected_secs@)
            }),
            final(self).sync.one_cause(),
    {
        let mut next = view.status(SyncState::Syncing, percent, eta_seconds);
        next.last_synced_at = self.sync.last_synced_at;
        next.wrong_chain = self.sync.wrong_chain;
        self.sync = next;
        SyncEvent::Progress {
            status: self.sync.clone(),
            batches: view.batch_snapshot(expected_secs),
        }
    }

    /// Mark the round complete at the chain tip. The crossing out of the Initial scan is
    /// announced once, and passes silently while notifications are off. Driving it off
    /// the round's true start and end keeps a tip-first scan that races the synced height
    /// past the target mid-round from firing early.
    pub fn finalize(&mut self, synced_height: u32, now_secs: u64) -> (r: (SyncStatus, Option<Toast>))
        ensures
            final(self)@ == old(self)@.finalized(synced_height, now_secs),
            r.0 == final(self).sync,
            notify::toast_view(r.1) == if old(self)@.notify.crosses(
                synced_height,
                old(self)@.target(),
            ) && old(self).notifications_enabled {
                Some(notify::scan_finished())
            } else {
                None
            },
            r.0.synced_height <= r.0.chain_tip,
            final(self).sync.one_cause(),
    {
        self.sync =
        SyncStatus {
            state: SyncState::Idle,
            synced_height,
            chain_tip: if self.sync.chain_tip >= synced_height {
                self.sync.chain_tip
            } else {
                synced_height
            },
            percent: 100,
            phase: None,
            scanned_outputs: self.sync.scanned_outputs,
            total_outputs: self.sync.total_outputs,
            eta_seconds: None,
            error: None,
            unreachable: false,
            wrong_chain: self.sync.wrong_chain,
            last_synced_at: Some(now_secs),
        };
        let status = self.sync.clone();
        let toast = self.announce_scan_complete(synced_height);
        (status, toast)
    }

    /// The one-time "scan finished" toast, at the end of a round with the height the scan
    /// actually reached.
    pub fn announce_scan_complete(&mut self, synced_height: u32) -> (r: Option<Toast>)
        ensures
            final(self)@ == (service::State {
                notify: old(self)@.notify.reached(synced_height, old(self)@.target()),
                ..old(self)@
            }),
            notify::toast_view(r) == if old(self)@.notify.crosses(
                synced_height,
                old(self)@.target(),
            ) && old(self).notifications_enabled {
                Some(notify::scan_finished())
            } else {
                None
            },
    {
        let target: u32 = self.scan_target();
        if self.notify.crossed_to_live(synced_height, target) && self.notifications_enabled {
            Some(notify::scan_finished_toast())
        } else {
            None
        }
    }
}

/// Whether a list of rows shows the active batches.
pub open spec fn shows_batches(
    rows: Seq<BatchProgress>,
    batches: Seq<round::Batch>,
    expected_secs: Seq<Option<Real>>,
) -> bool {
    &&& rows.len() == batches.len()
    &&& forall|i: int|
        0 <= i < rows.len() ==> round::shows_batch(
            #[trigger] rows[i],
            batches[i],
            expected_secs[i],
        )
}

// ---------------------------------------------------------------------------
// One round
// ---------------------------------------------------------------------------

/// What the background sync task reports when polled.
pub enum PollReport {
    NotReady,
    NoHandle,
    /// It ended, at a height or with an error and its text.
    Ready(Result<u32, (SyncError, String)>),
}

/// How many outputs the wallet has scanned.
pub struct ScannedOutputs {
    pub sapling: u32,
    pub orchard: u32,
    pub ironwood: u32,
}

/// What a running round waits for.
pub enum RoundInput {
    Event(ScanEvent),
    /// Events were missed. The wallet was asked what it has scanned instead, where it
    /// could be.
    Lagged(Option<ScannedOutputs>),
    /// The event stream has ended; polling then collects the result.
    Closed,
    FlushTick,
    Poll(PollReport),
}

/// What a running round does next.
pub enum RoundStep {
    Continue,
    Act(Effect),
    /// Push a progress snapshot.
    Publish,
    /// The round ends without a result: its wallet is gone.
    Stop,
    Fail(RoundError),
    /// The round reached this height.
    Finish(u32),
}

/// A running round.
pub struct RoundRun {
    pub view: RoundView,
    /// Whether anything has happened since the last progress snapshot.
    pub dirty: bool,
    /// Whether the event stream is still to be read.
    pub stream_open: bool,
}

/// What a [`RoundRun`] knows.
pub struct Run {
    pub view: round::Round,
    pub dirty: bool,
    pub stream_open: bool,
}

impl View for RoundRun {
    type V = Run;

    open spec fn view(&self) -> Run {
        Run { view: self.view@, dirty: self.dirty, stream_open: self.stream_open }
    }
}

impl Run {
    /// Whether the counts that an input brings fit.
    pub open spec fn takes(self, input: RoundInput, now: Instant) -> bool {
        match input {
            RoundInput::Event(event) => self.view.takes(event, now),
            RoundInput::Lagged(Some(n)) => n.sapling + n.orchard + n.ironwood <= u32::MAX,
            _ => true,
        }
    }

    /// The round after an input.
    pub open spec fn after(self, input: RoundInput, now: Instant, now_ms: u64) -> Run {
        match input {
            RoundInput::Event(event) => Run {
                view: self.view.folded(event, now, now_ms),
                dirty: true,
                ..self
            },
            RoundInput::Lagged(scanned) => Run {
                view: match scanned {
                    Some(n) => round::Round {
                        scanned_outputs: (n.sapling + n.orchard + n.ironwood) as u64,
                        timing_log: seq![],
                        aggregate_log: seq![
                            (now, (n.sapling + n.orchard + n.ironwood) as u64),
                        ],
                        ..self.view
                    },
                    None => self.view,
                },
                dirty: true,
                ..self
            },
            RoundInput::Closed => Run { stream_open: false, ..self },
            RoundInput::FlushTick => Run { dirty: false, ..self },
            RoundInput::Poll(_) => self,
        }
    }

    /// Whether a step is the one that an input calls for.
    pub open spec fn calls_for(
        self,
        client_open: bool,
        input: RoundInput,
        now: Instant,
        step: RoundStep,
    ) -> bool {
        match input {
            RoundInput::Event(event) => step is Act && self.view.asks(event, now, step->Act_0),
            RoundInput::Lagged(_) | RoundInput::Closed => step is Continue,
            RoundInput::FlushTick => if self.dirty {
                step is Publish
            } else {
                step is Continue
            },
            RoundInput::Poll(report) => if !client_open {
                step is Stop
            } else {
                match report {
                    PollReport::NotReady => step is Continue,
                    PollReport::NoHandle => {
                        &&& step is Fail
                        &&& step->Fail_0.message@ == "sync task missing"@
                        &&& !step->Fail_0.unreachable
                        &&& !step->Fail_0.wrong_chain
                    },
                    PollReport::Ready(Ok(height)) => step == RoundStep::Finish(height),
                    PollReport::Ready(Err((error, text))) => {
                        &&& step is Fail
                        &&& step->Fail_0.message@ == "sync error: "@ + text@
                        &&& step->Fail_0.unreachable == (error is ServerError
                            && error->ServerError_0 is RequestFailed)
                        &&& !step->Fail_0.wrong_chain
                    },
                }
            },
        }
    }
}

impl RoundRun {
    /// A round about to begin.
    pub fn new() -> (r: Self)
        ensures
            r@ == (Run { view: round::Round::fresh(), dirty: false, stream_open: true }),
    {
        RoundRun { view: RoundView::new(), dirty: false, stream_open: true }
    }

    /// Whether a round of this generation is over: a (re)import or remove has bumped the
    /// service's.
    pub fn retired(generation: u64, service_generation: u64) -> (r: bool)
        ensures
            r == (generation != service_generation),
    {
        generation != service_generation
    }

    /// Take one input. Mid-round failures are transport or scan trouble; chain identity
    /// was already verified this round.
    pub fn step(&mut self, client_open: bool, input: RoundInput, now: Instant, now_ms: u64) -> (r:
        RoundStep)
        requires
            old(self)@.takes(input, now),
        ensures
            final(self)@ == old(self)@.after(input, now, now_ms),
            old(self)@.calls_for(client_open, input, now, r),
    {
        match input {
            RoundInput::Event(event) => {
                let effect = self.view.on_event(event, now, now_ms);
                self.dirty = true;
                RoundStep::Act(effect)
            },
            RoundInput::Lagged(scanned) => {
                if let Some(n) = scanned {
                    self.view.reconcile(n.sapling, n.orchard, n.ironwood, now);
                }
                self.dirty = true;
                RoundStep::Continue
            },
            RoundInput::Closed => {
                self.stream_open = false;
                RoundStep::Continue
            },
            RoundInput::FlushTick => {
                if self.dirty {
                    self.dirty = false;
                    RoundStep::Publish
                } else {
                    RoundStep::Continue
                }
            },
            RoundInput::Poll(report) => {
                if !client_open {
                    return RoundStep::Stop;
                }
                match report {
                    PollReport::NotReady => RoundStep::Continue,
                    PollReport::NoHandle => RoundStep::Fail(
                        RoundError::local("sync task missing".to_string()),
                    ),
                    PollReport::Ready(Ok(height)) => RoundStep::Finish(height),
                    PollReport::Ready(Err((error, text))) => {
                        let mut message = "sync error: ".to_string();
                        message.append(text.as_str());
                        RoundStep::Fail(
                            RoundError {
                                message,
                                unreachable: is_unreachable(&error),
                                wrong_chain: false,
                            },
                        )
                    },
                }
            },
        }
    }

    /// Whether the counts that an input brings fit.
    pub fn can_take(&self, input: &RoundInput, now: Instant) -> (r: bool)
        ensures
            r == self@.takes(*input, now),
    {
        match input {
            RoundInput::Event(event) => self.view.can_take(event, now),
            RoundInput::Lagged(Some(n)) => n.sapling as u64 + n.orchard as u64 + n.ironwood as u64
                <= u32::MAX as u64,
            _ => true,
        }
    }
}

// ---------------------------------------------------------------------------
// The course of a round
// ---------------------------------------------------------------------------

/// What a round does, one after the other.
#[derive(Debug, Clone, Copy, PartialEq, Eq, Structural)]
pub enum RoundStage {
    /// Show that a round is on ([`WalletService::begin_round`]).
    Begin,
    /// Ask the Indexer who it is, and judge it ([`judge_round`]).
    Verify,
    /// Subscribe to the scanner's events, then start the sync task. In this order, so that
    /// the event that carries the progress denominator is never missed.
    Start,
    /// Take inputs ([`RoundRun::step`]) until one ends the round.
    Run,
    /// Mark the round complete ([`WalletService::finalize`]).
    Finalize,
    /// Rebuild the read caches, now that the wallet's lock is free.
    Rebuild,
    /// Tell the GUI, which then reads anew.
    Announce,
    /// The round is over.
    Over,
}

/// How a stage of a round ended.
pub enum StageEnd {
    /// It did what it is for.
    Done,
    /// The round ends here: it is retired, or its wallet is gone.
    Stopped,
    Failed(RoundError),
}

impl RoundStage {
    /// The stage after this one.
    pub open spec fn next(self) -> RoundStage {
        match self {
            RoundStage::Begin => RoundStage::Verify,
            RoundStage::Verify => RoundStage::Start,
            RoundStage::Start => RoundStage::Run,
            RoundStage::Run => RoundStage::Finalize,
            RoundStage::Finalize => RoundStage::Rebuild,
            RoundStage::Rebuild => RoundStage::Announce,
            RoundStage::Announce => RoundStage::Over,
            RoundStage::Over => RoundStage::Over,
        }
    }

    /// Whether the stage works with the open wallet.
    pub open spec fn touches_wallet(self) -> bool {
        self == RoundStage::Start || self == RoundStage::Run || self == RoundStage::Rebuild
    }

    /// A stage has ended: the next one, or why the round failed.
    pub fn advance(self, end: StageEnd) -> (r: Result<RoundStage, RoundError>)
        ensures
            r == match end {
                StageEnd::Done => Ok::<RoundStage, RoundError>(self.next()),
                StageEnd::Stopped => Ok::<RoundStage, RoundError>(RoundStage::Over),
                StageEnd::Failed(e) => Err::<RoundStage, RoundError>(e),
            },
    {
        match end {
            StageEnd::Done => Ok(
                match self {
                    RoundStage::Begin => RoundStage::Verify,
                    RoundStage::Verify => RoundStage::Start,
                    RoundStage::Start => RoundStage::Run,
                    RoundStage::Run => RoundStage::Finalize,
                    RoundStage::Finalize => RoundStage::Rebuild,
                    RoundStage::Rebuild => RoundStage::Announce,
                    RoundStage::Announce => RoundStage::Over,
                    RoundStage::Over => RoundStage::Over,
                },
            ),
            StageEnd::Stopped => Ok(RoundStage::Over),
            StageEnd::Failed(e) => Err(e),
        }
    }
}

/// The stage that a round is in once so many stages have ended as given. A round that
/// failed is in none.
pub open spec fn stage_at(ends: Seq<StageEnd>, n: nat) -> Option<RoundStage>
    decreases n,
{
    if n == 0 {
        Some(RoundStage::Begin)
    } else {
        match (stage_at(ends, (n - 1) as nat), ends[n - 1]) {
            (None, _) => None,
            (Some(_), StageEnd::Failed(_)) => None,
            (Some(_), StageEnd::Stopped) => Some(RoundStage::Over),
            (Some(stage), StageEnd::Done) => Some(stage.next()),
        }
    }
}

/// A round that is not over has done every stage before the one it is in.
proof fn stages_before_are_done(ends: Seq<StageEnd>, n: nat, k: nat)
    requires
        k < n,
        stage_at(ends, n) is Some,
        stage_at(ends, n) != Some(RoundStage::Over),
    ensures
        stage_at(ends, k) is Some,
        stage_at(ends, k) != Some(RoundStage::Over),
        ends[k as int] is Done,
    decreases n,
{
    if k < n - 1 {
        stages_before_are_done(ends, (n - 1) as nat, k);
    }
}

/// How many stages come before one.
spec fn stage_number(stage: RoundStage) -> nat {
    match stage {
        RoundStage::Begin => 0,
        RoundStage::Verify => 1,
        RoundStage::Start => 2,
        RoundStage::Run => 3,
        RoundStage::Finalize => 4,
        RoundStage::Rebuild => 5,
        RoundStage::Announce => 6,
        RoundStage::Over => 7,
    }
}

/// A round that is not over has ended as many stages as come before the one it is in.
proof fn stages_are_counted(ends: Seq<StageEnd>, n: nat)
    requires
        stage_at(ends, n) is Some,
        stage_at(ends, n) != Some(RoundStage::Over),
    ensures
        stage_number(stage_at(ends, n)->0) == n,
    decreases n,
{
    if n > 0 {
        stages_before_are_done(ends, n, (n - 1) as nat);
        stages_are_counted(ends, (n - 1) as nat);
    }
}

/// A round touches the wallet only once the Indexer's chain was verified: the stage that
/// does so came before, and went well.
pub proof fn no_wallet_is_touched_before_its_chain_is_verified(ends: Seq<StageEnd>, n: nat)
    requires
        stage_at(ends, n) is Some,
        stage_at(ends, n)->0.touches_wallet(),
    ensures
        n >= 2,
        stage_at(ends, 1) == Some(RoundStage::Verify),
        ends[1] is Done,
{
    stages_are_counted(ends, n);
    stages_before_are_done(ends, n, 1);
    stages_are_counted(ends, 1);
}

/// A round is reported as finished only once the snapshot was rebuilt, and the snapshot is
/// rebuilt only once the round was marked complete.
pub proof fn no_round_is_announced_before_the_snapshot(ends: Seq<StageEnd>, n: nat)
    requires
        stage_at(ends, n) == Some(RoundStage::Announce),
    ensures
        n == 6,
        stage_at(ends, 5) == Some(RoundStage::Rebuild),
        ends[5] is Done,
        stage_at(ends, 4) == Some(RoundStage::Finalize),
        ends[4] is Done,
{
    stages_are_counted(ends, n);
    stages_before_are_done(ends, n, 5);
    stages_are_counted(ends, 5);
    stages_before_are_done(ends, n, 4);
    stages_are_counted(ends, 4);
}

// ---------------------------------------------------------------------------
// The loop
// ---------------------------------------------------------------------------

/// The sync loop of one generation, and how long it backs off after a failure.
pub struct SyncLoop {
    pub generation: u64,
    pub backoff: Duration,
}

/// The shortest backoff.
pub open spec fn shortest() -> Duration {
    Duration { nanos: (BACKOFF_MIN_SECS * clock::NANOS_PER_SEC) as u64 }
}

/// The longest backoff.
pub open spec fn longest() -> Duration {
    Duration { nanos: (BACKOFF_MAX_SECS * clock::NANOS_PER_SEC) as u64 }
}

/// The backoff after another failure: twice as long, up to the longest.
pub open spec fn doubled(backoff: Duration) -> Duration {
    if 2 * backoff.nanos <= longest().nanos {
        Duration { nanos: (2 * backoff.nanos) as u64 }
    } else {
        longest()
    }
}

/// The backoff after so many failures in a row.
pub open spec fn backoff_after(failures: nat) -> Duration
    decreases failures,
{
    if failures == 0 {
        shortest()
    } else {
        doubled(backoff_after((failures - 1) as nat))
    }
}

impl SyncLoop {
    pub open spec fn wf(self) -> bool {
        shortest().nanos <= self.backoff.nanos <= longest().nanos
    }

    pub fn new(generation: u64) -> (r: Self)
        ensures
            r == (SyncLoop { generation, backoff: shortest() }),
            r.wf(),
    {
        SyncLoop { generation, backoff: Duration::from_secs(BACKOFF_MIN_SECS) }
    }

    /// Whether the loop is to retire: the service has moved on to another generation.
    pub fn retires(&self, service_generation: u64) -> (r: bool)
        ensures
            r == (self.generation != service_generation),
    {
        self.generation != service_generation
    }

    /// A round ended: how long to wait before the next, unless woken.
    pub fn round_ended(&mut self, succeeded: bool) -> (r: Duration)
        requires
            old(self).wf(),
        ensures
            final(self).wf(),
            final(self).generation == old(self).generation,
            succeeded ==> final(self).backoff == shortest() && r.nanos == IDLE_INTERVAL_SECS
                * clock::NANOS_PER_SEC,
            !succeeded ==> final(self).backoff == old(self).backoff && r == old(self).backoff,
    {
        if succeeded {
            self.backoff = Duration::from_secs(BACKOFF_MIN_SECS);
            Duration::from_secs(IDLE_INTERVAL_SECS)
        } else {
            self.backoff
        }
    }

    /// The wait after a failed round is over. A restart cuts it short and resets the
    /// backoff, so switching to a working Indexer recovers at once.
    pub fn backed_off(&mut self, restarted: bool)
        requires
            old(self).wf(),
        ensures
            final(self).wf(),
            final(self).generation == old(self).generation,
            final(self).backoff == if restarted {
                shortest()
            } else {
                doubled(old(self).backoff)
            },
    {
        if restarted {
            self.backoff = Duration::from_secs(BACKOFF_MIN_SECS);
        } else {
            let longest = Duration::from_secs(BACKOFF_MAX_SECS);
            let twice: u64 = 2 * self.backoff.nanos;
            self.backoff =
            if twice <= longest.nanos {
                Duration { nanos: twice }
            } else {
                longest
            };
        }
    }
}

// ---------------------------------------------------------------------------
// Laws of the loop
// ---------------------------------------------------------------------------

/// Failures in a row back off ever longer, within the bounds.
pub proof fn the_backoff_grows_within_bounds(failures: nat)
    ensures
        shortest().nanos <= backoff_after(failures).nanos <= longest().nanos,
        backoff_after(failures).nanos <= backoff_after(failures + 1).nanos,
    decreases failures,
{
    if failures > 0 {
        the_backoff_grows_within_bounds((failures - 1) as nat);
    }
}

/// Each cause of failure is notified once per episode: a second failure of the same
/// cause raises nothing, whatever its message.
pub proof fn an_episode_notifies_once(
    s: service::State,
    first: RoundError,
    second: RoundError,
    indexer: Seq<char>,
    f: Failure,
)
    requires
        s.failed(first).reports(second, indexer, f),
    ensures
        first.unreachable ==> f.unreachable is None,
        first.wrong_chain ==> f.wrong_chain is None,
{
}

/// The next episode notifies again: after a round that succeeded, a change of Indexer or
/// a fresh start of the sync, a failure raises its alert.
pub proof fn a_new_episode_notifies_again(
    s: service::State,
    first: RoundError,
    second: RoundError,
    indexer: Seq<char>,
    f: Failure,
)
    requires
        s.failed(first).rearmed().reports(second, indexer, f),
    ensures
        second.unreachable ==> f.unreachable is Some,
        second.wrong_chain ==> f.wrong_chain is Some,
{
}

/// A server that does not answer is never reported as serving a wrong chain, and a wrong
/// chain never as an outage.
pub proof fn causes_do_not_mix(s: service::State, err: RoundError, indexer: Seq<char>, f: Failure)
    requires
        err.one_cause(),
        s.reports(err, indexer, f),
    ensures
        f.unreachable is Some ==> f.wrong_chain is None && !s.failed(err).sync.wrong_chain,
        f.wrong_chain is Some ==> f.unreachable is None && !s.failed(err).sync.unreachable,
{
}

/// Failure alerts ignore the notifications setting.
pub proof fn alerts_ignore_the_setting(
    s: service::State,
    enabled: bool,
    err: RoundError,
    indexer: Seq<char>,
    f: Failure,
)
    requires
        s.reports(err, indexer, f),
    ensures
        (service::State { notifications_enabled: enabled, ..s }).reports(err, indexer, f),
{
}

/// A transaction's notification is delivered at most once: found again after it was, it
/// raises nothing, and with notifications off it is never made up for.
pub proof fn a_transaction_is_told_once(
    s: service::State,
    txid: Seq<char>,
    received: bool,
    value: u64,
    live: bool,
    later_live: bool,
)
    requires
        s.due(txid, live),
    ensures
        (service::State { notify: s.told(txid, live).notify.marked(txid), ..s }).tells(
            txid,
            received,
            value,
            later_live,
        ) is None,
        !s.notifications_enabled ==> (service::State {
            notifications_enabled: true,
            ..s.told(txid, live)
        }).tells(txid, received, value, later_live) is None,
{
}

/// The seen-set is the wallet's own: after another wallet was selected, a live transaction
/// is due exactly where it was not seen of that wallet, and the end of its Initial scan is
/// yet to be announced, whatever the wallet before had seen and reached.
pub proof fn each_wallet_has_its_own_seen_set(
    s: service::State,
    meta: Meta,
    seen: Set<Seq<char>>,
    txid: Seq<char>,
    height: u32,
)
    ensures
        ({
            let after = s.switching().selected(meta, seen).with_wallet(meta);
            &&& after.due(txid, true) <==> !seen.contains(txid)
            &&& after.notify.crosses(height, after.target()) <==> height
                >= meta.scan_target_height
        }),
{
}

/// The Initial scan is silent: a confirmed transaction below its end raises nothing.
pub proof fn the_initial_scan_is_silent(
    s: service::State,
    txid: Seq<char>,
    received: bool,
    value: u64,
    height: u32,
)
    requires
        height < s.target(),
    ensures
        s.tells(txid, received, value, s.is_live(true, height)) is None,
{
}

/// An adopted Anchor is kept: a wallet that has one is never given another.
pub proof fn an_anchor_is_adopted_once(s: service::State, anchor: Anchor)
    ensures
        !unanchored(s.anchored(anchor)),
{
}

// ---------------------------------------------------------------------------
// What a round and its events change, and what they leave alone
// ---------------------------------------------------------------------------

/// A failed round shows its own message and cause, and takes note of the cause; what was
/// synced and when stays, and so does everything else.
pub proof fn a_failure_is_shown_with_its_cause(s: service::State, err: RoundError)
    ensures
        ({
            let after = s.failed(err);
            &&& after.sync.state == SyncState::Error
            &&& after.sync.error is Some && after.sync.error->0@ == err.message@
            &&& after.sync.unreachable == err.unreachable
            &&& after.sync.wrong_chain == err.wrong_chain
            &&& after.sync == (SyncStatus {
                state: SyncState::Error,
                error: after.sync.error,
                unreachable: err.unreachable,
                wrong_chain: err.wrong_chain,
                ..s.sync
            })
            &&& after.unreachable_notified <==> s.unreachable_notified || err.unreachable
            &&& after.wrong_chain_notified <==> s.wrong_chain_notified || err.wrong_chain
            &&& after == (service::State {
                sync: after.sync,
                unreachable_notified: after.unreachable_notified,
                wrong_chain_notified: after.wrong_chain_notified,
                ..s
            })
        }),
{
}

/// A failed round is reported with its own message and cause. The alert of a cause is
/// raised exactly where the round failed by it and none was raised for it in this episode;
/// that of an outage names the Indexer.
pub proof fn a_failure_is_reported_once_by_its_cause(
    s: service::State,
    err: RoundError,
    indexer: Seq<char>,
    f: Failure,
)
    requires
        s.reports(err, indexer, f),
    ensures
        f.event is Error,
        f.event->Error_message@ == err.message@,
        f.event->Error_unreachable == err.unreachable,
        f.event->Error_wrong_chain == err.wrong_chain,
        f.unreachable is Some <==> err.unreachable && !s.unreachable_notified,
        f.wrong_chain is Some <==> err.wrong_chain && !s.wrong_chain_notified,
        f.unreachable matches Some(t) ==> {
            &&& t.title@ == "Can't reach your Indexer"@
            &&& t.body@ == "Pendrake can't reach "@ + indexer
                + ". Open to choose another server."@
            &&& t.deep_link@ == "pendrake://settings/indexer"@
        },
        f.wrong_chain matches Some(t) ==> t.title@ == "Wrong chain detected"@ && t.deep_link@
            == "pendrake://settings/indexer"@,
{
}

/// A round begins syncing, with the error of the one before and its cause cleared; nothing
/// else changes.
pub proof fn a_round_begins_without_error(s: service::State)
    ensures
        ({
            let after = s.in_round();
            &&& after.sync.state == SyncState::Syncing
            &&& after.sync.error is None && !after.sync.unreachable && !after.sync.wrong_chain
            &&& after.sync == (SyncStatus {
                state: SyncState::Syncing,
                error: None,
                unreachable: false,
                wrong_chain: false,
                ..s.sync
            })
            &&& after == (service::State { sync: after.sync, ..s })
        }),
{
}

/// The wallet's Indexer goes by the host of its own address.
pub proof fn the_indexer_goes_by_its_own_host(s: service::State)
    ensures
        s.meta matches Some(m) ==> {
            &&& uri::host_in(m.indexer_uri@) matches Some(host) ==> s.indexer_name() == host
            &&& uri::host_in(m.indexer_uri@) is None ==> s.indexer_name() == "your Indexer"@
        },
        s.meta is None ==> s.indexer_name() == "your Indexer"@,
{
}

/// A round asks its Indexer exactly where there is a wallet and its Indexer's address is a
/// URI.
pub proof fn only_a_wallet_with_an_address_is_checked(s: service::State, valid_uri: bool)
    ensures
        check_refusal(s, valid_uri) is None <==> s.meta is Some && valid_uri,
        s.meta is None ==> check_refusal(s, valid_uri) == Some("no wallet"@),
        s.meta is Some && !valid_uri ==> check_refusal(s, valid_uri) == Some(
            "invalid indexer uri"@,
        ),
{
}

/// An Anchor is found exactly where the server told its tip and has the block: it is that
/// block's hash, at the birthday, or at the tip for a birthday that is yet to come. Adopted,
/// it becomes the wallet's, and the rest of the metadata stays.
pub proof fn the_anchor_found_is_adopted(
    s: service::State,
    birthday: u32,
    tip: Result<u32, String>,
    block: Result<Option<String>, String>,
)
    ensures
        found_anchor(birthday, tip, block) is Some <==> tip is Ok && block is Ok && block->Ok_0 is Some,
        found_anchor(birthday, tip, block) matches Some(a) ==> {
            &&& a.hash@ == block->Ok_0->0@
            &&& 1 <= birthday <= tip->Ok_0 ==> a.height == birthday
            &&& 1 <= tip->Ok_0 <= birthday ==> a.height == tip->Ok_0
            &&& birthday == 0 || tip->Ok_0 == 0 ==> a.height == 1
            &&& s.meta matches Some(m) ==> s.anchored(a).meta == Some(
                Meta { anchor_height: a.height, anchor_hash: Some(a.hash), ..m },
            )
            &&& s.anchored(a) == (service::State { meta: s.anchored(a).meta, ..s })
        },
        unanchored(s) <==> s.meta is Some && s.meta->0.anchor_hash is None,
{
}

/// A transaction is live while it is in no block, and in a block at or past the end of the
/// Initial scan of the wallet at hand.
pub proof fn a_transaction_is_live_from_the_target_on(
    s: service::State,
    confirmed: bool,
    height: u32,
)
    ensures
        !confirmed ==> s.is_live(confirmed, height),
        confirmed && s.meta is Some ==> (s.is_live(confirmed, height) <==> height
            >= s.meta->0.scan_target_height),
        confirmed && s.meta is None ==> s.is_live(confirmed, height),
{
}

/// A found transaction raises a notification exactly where it is live, not seen, and
/// notifications are on; in Discreet mode without amount and direction. It is recorded as
/// seen right away where it is history, or where it would have been notified and
/// notifications are off. Nothing else is recorded, and nothing else changes.
pub proof fn a_found_transaction_is_told_or_recorded(
    s: service::State,
    txid: Seq<char>,
    received: bool,
    value: u64,
    live: bool,
    other: Seq<char>,
)
    ensures
        s.tells(txid, received, value, live) is Some <==> live && !s.notify.seen.contains(txid)
            && s.notifications_enabled,
        s.tells(txid, received, value, live) matches Some(t) ==> {
            &&& t.deep_link == "pendrake://tx?txid="@ + txid
            &&& s.discreet ==> t.title == "New transaction detected"@
            &&& !s.discreet && received ==> t.title == "Funds received"@
            &&& !s.discreet && !received ==> t.title == "Funds sent"@
        },
        ({
            let after = s.told(txid, live);
            &&& after.notify.seen.contains(other) <==> s.notify.seen.contains(other) || (other
                == txid && (!live || !s.notifications_enabled))
            &&& after.notify.live == s.notify.live
            &&& after == (service::State { notify: after.notify, ..s })
        }),
        s.due(txid, live) <==> live && !s.notify.seen.contains(txid),
{
}

/// A round that ended at a height is shown as done there: idle, at a hundred percent, with
/// the time, without phase, estimate, error or outage, and with a tip no lower. The Initial
/// scan is over where the height reached its end. What was counted stays.
pub proof fn a_finished_round_is_shown_as_done(s: service::State, height: u32, now_secs: u64)
    ensures
        ({
            let after = s.finalized(height, now_secs);
            &&& after.sync.state == SyncState::Idle
            &&& after.sync.synced_height == height
            &&& after.sync.chain_tip >= height && after.sync.chain_tip >= s.sync.chain_tip
            &&& after.sync.chain_tip == height || after.sync.chain_tip == s.sync.chain_tip
            &&& after.sync.percent == 100
            &&& after.sync.phase is None && after.sync.eta_seconds is None
            &&& after.sync.error is None && !after.sync.unreachable
            &&& after.sync.last_synced_at == Some(now_secs)
            &&& after.sync.scanned_outputs == s.sync.scanned_outputs
            &&& after.sync.total_outputs == s.sync.total_outputs
            &&& after.sync.wrong_chain == s.sync.wrong_chain
            &&& after.notify.live <==> s.notify.live || height >= s.target()
            &&& after.notify.seen == s.notify.seen
            &&& after == (service::State { sync: after.sync, notify: after.notify, ..s })
        }),
{
}

/// A round's progress is shown as it is, beside when the wallet was last synced and whether
/// its chain is in doubt, which progress does not touch.
pub proof fn progress_keeps_the_last_sync(s: service::State, next: SyncStatus)
    ensures
        ({
            let after = s.progressed(next);
            &&& after.sync.last_synced_at == s.sync.last_synced_at
            &&& after.sync.wrong_chain == s.sync.wrong_chain
            &&& after.sync == (SyncStatus {
                last_synced_at: after.sync.last_synced_at,
                wrong_chain: after.sync.wrong_chain,
                ..next
            })
            &&& after == (service::State { sync: after.sync, ..s })
        }),
{
}

/// A transaction that was just found shows the wallet's own estimate of what it changes,
/// and where there is none the value of the notes and coins it created.
pub proof fn the_interim_change_is_the_wallets_estimate(summary: TransactionSummary)
    ensures
        summary.balance_delta matches Some(delta) ==> interim_net(summary) == delta,
        summary.balance_delta is None ==> interim_net(summary) == tx::outputs_sum(
            summary,
            tx::in_any_state(),
        ),
{
    tx::what_is_gained_was_received(summary);
}

/// A transaction that is put in takes the place of the first one of its txid, or stands at
/// the head where there is none; every other one stays, in its order.
pub proof fn one_transaction_is_put_in(
    before: Seq<Tx>,
    txid: Seq<char>,
    new: Tx,
    after: Seq<Tx>,
)
    requires
        upserted(before, txid, new, after),
    ensures
        (forall|k: int| 0 <= k < before.len() ==> (#[trigger] before[k]).txid@ != txid) ==> {
            &&& after.len() == before.len() + 1
            &&& after[0] == new
            &&& forall|k: int| 0 <= k < before.len() ==> after[k + 1] == #[trigger] before[k]
        },
        forall|i: int|
            0 <= i < before.len() && (#[trigger] before[i]).txid@ == txid && (forall|k: int|
                0 <= k < i ==> (#[trigger] before[k]).txid@ != txid) ==> {
                &&& after.len() == before.len()
                &&& after[i] == new
                &&& forall|k: int|
                    0 <= k < before.len() && k != i ==> after[k] == #[trigger] before[k]
            },
{
    assert forall|i: int|
        0 <= i < before.len() && (#[trigger] before[i]).txid@ == txid && (forall|k: int|
            0 <= k < i ==> (#[trigger] before[k]).txid@ != txid) implies {
        &&& after.len() == before.len()
        &&& after[i] == new
        &&& forall|k: int| 0 <= k < before.len() && k != i ==> after[k] == #[trigger] before[k]
    } by {
        assert(is_tx_at(before, txid, i));
        let j = choose|j: int| #[trigger]
            is_tx_at(before, txid, j) && after == before.update(j, new);
        if j < i {
            assert(before[j].txid@ != txid);
        } else if i < j {
            assert(before[i].txid@ != txid);
        }
    }
}

// ---------------------------------------------------------------------------
// What a running round does with its inputs
// ---------------------------------------------------------------------------

/// An event is folded into the round and asks for what it asks for; missed events take the
/// count from what the wallet has scanned in the three pools, where that is known, and
/// start the measurements anew. Both are news for the next snapshot. The end of the stream
/// closes it, a tick takes the news along, and a poll changes nothing.
pub proof fn a_round_takes_each_input_for_what_it_is(
    run: Run,
    input: RoundInput,
    now: Instant,
    now_ms: u64,
)
    ensures
        ({
            let after = run.after(input, now, now_ms);
            match input {
                RoundInput::Event(event) => {
                    &&& after.view == run.view.folded(event, now, now_ms)
                    &&& after.dirty
                    &&& after.stream_open == run.stream_open
                },
                RoundInput::Lagged(Some(n)) => {
                    &&& after.view.scanned_outputs == n.sapling + n.orchard + n.ironwood
                    &&& after.view.timing_log.len() == 0
                    &&& after.view.aggregate_log == seq![(now, after.view.scanned_outputs)]
                    &&& after.view.total_outputs == run.view.total_outputs
                    &&& after.view.synced_height == run.view.synced_height
                    &&& after.view.chain_tip == run.view.chain_tip
                    &&& after.view.in_flight == run.view.in_flight
                    &&& after.dirty
                    &&& after.stream_open == run.stream_open
                },
                RoundInput::Lagged(None) => after.view == run.view && after.dirty
                    && after.stream_open == run.stream_open,
                RoundInput::Closed => after.view == run.view && after.dirty == run.dirty
                    && !after.stream_open,
                RoundInput::FlushTick => after.view == run.view && !after.dirty
                    && after.stream_open == run.stream_open,
                RoundInput::Poll(_) => after == run,
            }
        }),
{
}

/// A snapshot is pushed exactly on a tick with news. A round ends exactly on a poll: by
/// itself where its wallet is gone, with the height where the task ended well, and with its
/// error where it did not, which is an outage exactly where a request did not get through.
/// Chain identity is never in doubt by then.
pub proof fn a_round_ends_on_a_poll_alone(
    run: Run,
    client_open: bool,
    input: RoundInput,
    now: Instant,
    step: RoundStep,
)
    requires
        run.calls_for(client_open, input, now, step),
    ensures
        step is Publish <==> input is FlushTick && run.dirty,
        step is Act <==> input is Event,
        input matches RoundInput::Event(event) ==> run.view.asks(event, now, step->Act_0),
        step is Stop <==> input is Poll && !client_open,
        step is Finish <==> input is Poll && client_open && input->Poll_0 is Ready
            && input->Poll_0->Ready_0 is Ok,
        step matches RoundStep::Finish(height) ==> input->Poll_0->Ready_0->Ok_0 == height,
        step is Fail <==> input is Poll && client_open && (input->Poll_0 is NoHandle || (
        input->Poll_0 is Ready && input->Poll_0->Ready_0 is Err)),
        step matches RoundStep::Fail(err) ==> !err.wrong_chain && match input->Poll_0 {
            PollReport::Ready(Err((error, text))) => {
                &&& err.message@ == "sync error: "@ + text@
                &&& err.unreachable <==> error matches SyncError::ServerError(
                    ServerError::RequestFailed(_),
                )
            },
            _ => err.message@ == "sync task missing"@ && !err.unreachable,
        },
{
}

/// What an input brings is taken but for counts past what they are counted in.
pub proof fn only_overflowing_inputs_are_not_taken(run: Run, input: RoundInput, now: Instant)
    ensures
        match input {
            RoundInput::Event(event) => run.takes(input, now) <==> run.view.takes(event, now),
            RoundInput::Lagged(Some(n)) => run.takes(input, now) <==> n.sapling + n.orchard
                + n.ironwood <= 0xffff_ffff,
            _ => run.takes(input, now),
        },
{
}

/// The stages of a round follow one another: it begins, verifies, starts, runs, is marked
/// complete, the caches are rebuilt, and it is announced. The wallet is worked with where
/// the sync starts, while it runs, and where the caches are rebuilt.
pub proof fn the_stages_follow_one_another(stage: RoundStage)
    ensures
        RoundStage::Begin.next() == RoundStage::Verify,
        RoundStage::Verify.next() == RoundStage::Start,
        RoundStage::Start.next() == RoundStage::Run,
        RoundStage::Run.next() == RoundStage::Finalize,
        RoundStage::Finalize.next() == RoundStage::Rebuild,
        RoundStage::Rebuild.next() == RoundStage::Announce,
        RoundStage::Announce.next() == RoundStage::Over,
        RoundStage::Over.next() == RoundStage::Over,
        stage.touches_wallet() <==> stage is Start || stage is Run || stage is Rebuild,
{
}

/// The backoff starts at three seconds and doubles with each failure until two minutes,
/// where it stays.
pub proof fn the_backoff_doubles_up_to_two_minutes(backoff: Duration)
    ensures
        shortest().nanos == 3_000_000_000,
        longest().nanos == 120_000_000_000,
        2 * backoff.nanos <= 120_000_000_000 ==> doubled(backoff).nanos == 2 * backoff.nanos,
        2 * backoff.nanos > 120_000_000_000 ==> doubled(backoff).nanos == 120_000_000_000,
{
}

/// The rows show the active batches, one each and in their order.
pub proof fn each_active_batch_has_its_row(
    rows: Seq<BatchProgress>,
    batches: Seq<round::Batch>,
    expected_secs: Seq<Option<Real>>,
    i: int,
)
    requires
        shows_batches(rows, batches, expected_secs),
        0 <= i < batches.len(),
    ensures
        rows.len() == batches.len(),
        rows[i].start == batches[i].range.start,
        rows[i].end == batches[i].range.end,
        rows[i].priority@ == batches[i].priority@,
        rows[i].outputs == batches[i].outputs,
        rows[i].phase == batches[i].phase,
        rows[i].phase_started_at_ms == batches[i].phase_started_ms,
        rows[i].expected_secs == expected_secs[i],
{
    assert(round::shows_batch(rows[i], batches[i], expected_secs[i]));
}

/// An Indexer on another chain is told with what is wrong about it.
pub proof fn another_chain_is_told_with_its_detail(detail: Seq<char>)
    ensures
        on_other_chain(detail)
            == "your Indexer is serving a different chain than this Wallet synced: "@ + detail,
{
}

// ---------------------------------------------------------------------------
// What a call changes
// ---------------------------------------------------------------------------

/// A found transaction is told to the GUI as it is and put into the history under its own
/// text; it raises a notification exactly where it is live, not seen yet, and notifications
/// are on.
pub proof fn a_found_transaction_is_told_as_it_is(txid: TxId, summary: TransactionSummary)
    ensures
        forall|m: &mut WalletService, r: TxNews| #[trigger]
            call_ensures(WalletService::on_tx_summary, (m, txid, &summary), r) ==> {
                let (before, after) = (*m, *final(m));
                let target = match before.meta {
                    Some(meta) => meta.scan_target_height,
                    None => 0,
                };
                let live = summary.status is Confirmed ==> summary.blockheight >= target;
                &&& r.event is Transaction
                &&& r.event->txid@ == txid.text()
                &&& r.event->kind is Received <==> summary.kind is Received
                &&& r.event->received <==> summary.kind is Received
                &&& r.event->value_zat@ == text::decimal(summary.value as nat)
                &&& r.toast is Some <==> live && !before.notify@.seen.contains(txid.text())
                    && before.notifications_enabled
                &&& exists|new: Tx| #[trigger]
                    upserted(before.txs@, txid.text(), new, after.txs@) && new@ == summary.shown(
                        interim_net(summary),
                    )
                &&& after@ == (service::State {
                    txs: after.txs@,
                    notify: after.notify@,
                    ..before@
                })
            },
{
}

/// A failed round shows its own message and cause and raises the alert of its cause once.
pub proof fn a_failed_round_is_published(err: RoundError, indexer: &str)
    ensures
        forall|m: &mut WalletService, r: Failure| #[trigger]
            call_ensures(WalletService::fail_round, (m, err, indexer), r) ==> {
                let (before, after) = (*m, *final(m));
                &&& after.sync.state == SyncState::Error && after.sync.error is Some
                    && after.sync.error->0@ == err.message@
                &&& after.sync.unreachable == err.unreachable && after.sync.wrong_chain
                    == err.wrong_chain
                &&& r.unreachable is Some <==> err.unreachable && !before.unreachable_notified
                &&& r.wrong_chain is Some <==> err.wrong_chain && !before.wrong_chain_notified
                &&& r.event is Error && r.event->Error_message@ == err.message@
                &&& after.following == before.following && after.meta == before.meta
            },
        forall|m: &mut WalletService| #[trigger]
            call_ensures(WalletService::round_succeeded, (m,), ()) ==> (*final(m))@ == (
            service::State { unreachable_notified: false, wrong_chain_notified: false, ..(*m)@ }),
        forall|m: &mut WalletService| #[trigger]
            call_ensures(WalletService::begin_round, (m,), ()) ==> {
                let (before, after) = (*m, *final(m));
                &&& after.sync.state == SyncState::Syncing && after.sync.error is None
                &&& !after.sync.unreachable && !after.sync.wrong_chain
                &&& after.sync.last_synced_at == before.sync.last_synced_at
                &&& after@ == (service::State { sync: after.sync, ..before@ })
            },
{
}

/// A round that reached a height is done there, at that time, and announces the end of the
/// Initial scan exactly where it crossed it and notifications are on.
pub proof fn a_reached_height_is_published(synced_height: u32, now_secs: u64)
    ensures
        forall|m: &mut WalletService, r: (SyncStatus, Option<Toast>)| #[trigger]
            call_ensures(WalletService::finalize, (m, synced_height, now_secs), r) ==> {
                let (before, after) = (*m, *final(m));
                let target = match before.meta {
                    Some(meta) => meta.scan_target_height,
                    None => 0,
                };
                let status = r.0;
                let toast = r.1;
                &&& status == after.sync
                &&& status.state == SyncState::Idle && status.synced_height == synced_height
                &&& status.percent == 100 && status.last_synced_at == Some(now_secs)
                &&& status.error is None && !status.unreachable && status.phase is None
                &&& status.chain_tip >= synced_height
                &&& toast is Some <==> !before.notify@.live && synced_height >= target
                    && before.notifications_enabled
                &&& after.notify@.live <==> before.notify@.live || synced_height >= target
            },
{
}

/// The progress that is published is the round's own.
pub proof fn the_progress_published_is_the_rounds(
    view: RoundView,
    percent: u8,
    eta_seconds: Option<u64>,
    expected_secs: Vec<Option<Real>>,
)
    ensures
        forall|m: &mut WalletService, r: SyncEvent| #[trigger]
            call_ensures(
                WalletService::publish_progress,
                (m, &view, percent, eta_seconds, &expected_secs),
                r,
            ) ==> {
                let (before, after) = (*m, *final(m));
                &&& r is Progress && r->Progress_status == after.sync
                &&& after.sync.state == SyncState::Syncing
                &&& after.sync.synced_height == view.synced_height
                &&& after.sync.chain_tip >= view.chain_tip && after.sync.chain_tip
                    >= view.synced_height
                &&& after.sync.scanned_outputs == Some(view.scanned_outputs)
                &&& after.sync.total_outputs == Some(view.total_outputs)
                &&& after.sync.percent == percent && after.sync.eta_seconds == eta_seconds
                &&& after.sync.last_synced_at == before.sync.last_synced_at
                &&& r->batches@.len() == view.in_flight@.len()
                &&& after@ == (service::State { sync: after.sync, ..before@ })
            },
{
}

/// An Anchor is adopted exactly where the wallet has none and the server gave one, and is
/// saved with all the rest of the metadata as it was.
pub proof fn a_missing_anchor_is_adopted(
    active: FileRead,
    birthday: u32,
    tip: Result<u32, String>,
    block: Result<Option<String>, String>,
)
    ensures
        forall|m: &mut WalletService, r: Option<MetaSave>| #[trigger]
            call_ensures(WalletService::adopt_anchor, (m, &active, birthday, tip, block), r) ==> {
                let (before, after) = (*m, *final(m));
                &&& r is Some <==> before.meta is Some && before.meta->0.anchor_hash is None && tip is Ok
                    && block is Ok && block->Ok_0 is Some
                &&& r is None ==> after@ == before@
                &&& r matches Some(save) ==> {
                    &&& save.meta.anchor_hash is Some && save.meta.anchor_hash->0@
                        == block->Ok_0->0@
                    &&& 1 <= birthday <= tip->Ok_0 ==> save.meta.anchor_height == birthday
                    &&& 1 <= tip->Ok_0 <= birthday ==> save.meta.anchor_height == tip->Ok_0
                    &&& save.meta == (Meta {
                        anchor_height: save.meta.anchor_height,
                        anchor_hash: save.meta.anchor_hash,
                        ..before.meta->0
                    })
                    &&& after.meta == Some(save.meta)
                    &&& save.file@ == before.paths@.active(
                        paths::active_id_or_none(active),
                    ).meta_file
                }
            },
{
}

/// A loop waits two seconds after a round that went well and as long as its backoff after
/// one that did not; the backoff doubles with each failure up to two minutes, and starts
/// over at three seconds after a success or a restart.
pub proof fn a_loop_waits_as_long_as_it_should(succeeded: bool, restarted: bool)
    ensures
        forall|m: &mut SyncLoop, r: Duration| #[trigger]
            call_ensures(SyncLoop::round_ended, (m, succeeded), r) ==> {
                let (before, after) = (*m, *final(m));
                &&& succeeded ==> r.nanos == 2_000_000_000 && after.backoff.nanos == 3_000_000_000
                &&& !succeeded ==> r == before.backoff && after.backoff == before.backoff
                &&& after.generation == before.generation
            },
        forall|m: &mut SyncLoop| #[trigger]
            call_ensures(SyncLoop::backed_off, (m, restarted), ()) ==> {
                let (before, after) = (*m, *final(m));
                &&& restarted ==> after.backoff.nanos == 3_000_000_000
                &&& !restarted && 2 * before.backoff.nanos <= 120_000_000_000
                    ==> after.backoff.nanos == 2 * before.backoff.nanos
                &&& !restarted && 2 * before.backoff.nanos > 120_000_000_000
                    ==> after.backoff.nanos == 120_000_000_000
                &&& after.generation == before.generation
            },
{
}

/// A round is refused exactly where the server did not answer, which is an outage, or is on
/// another chain than the wallet's Anchor, which is not.
pub proof fn a_round_is_refused_on_another_chain(
    meta: Meta,
    observed: Result<ChainObservation, String>,
    r: Result<(), RoundError>,
)
    requires
        call_ensures(judge_round, (&Probe::of(meta), observed), r),
    ensures
        observed is Err ==> r is Err && r->Err_0.unreachable && !r->Err_0.wrong_chain
            && r->Err_0.message@ == observed->Err_0@,
        observed is Ok && r is Err ==> r->Err_0.wrong_chain && !r->Err_0.unreachable,
        observed matches Ok(obs) ==> (meta.anchor_hash matches Some(hash) ==> (r is Ok <==> obs.tip
            >= meta.anchor_height && obs.anchor_block_hash is Some && obs.anchor_block_hash->0@
            == hash@)),
        observed matches Ok(obs) ==> (meta.anchor_hash is None ==> (r is Ok <==> obs.tip + 100
            >= meta.scan_target_height)),
{
    if let Ok(obs) = observed {
        crate::import::a_server_is_judged_by_the_wallets_own_anchor(meta, obs);
    }
}

/// A round takes an input for what it is, and steps on as it should.
pub proof fn a_step_is_the_one_called_for(
    client_open: bool,
    input: RoundInput,
    now: Instant,
    now_ms: u64,
)
    ensures
        forall|m: &mut RoundRun, step: RoundStep| #[trigger]
            call_ensures(RoundRun::step, (m, client_open, input, now, now_ms), step) ==> {
                let (before, after) = (*m, *final(m));
                &&& step is Publish <==> input is FlushTick && before.dirty
                &&& step is Stop <==> input is Poll && !client_open
                &&& step is Act <==> input is Event
                &&& step matches RoundStep::Finish(height) ==> input is Poll && input->Poll_0
                    == PollReport::Ready(Ok::<u32, (SyncError, String)>(height))
                &&& step matches RoundStep::Fail(err) ==> !err.wrong_chain
                &&& input is Closed ==> !after.stream_open
                &&& !(input is Closed) ==> after.stream_open == before.stream_open
                &&& input is Event || input is Lagged ==> after.dirty
                &&& input is FlushTick ==> !after.dirty
                &&& input is Poll || input is Closed ==> after.dirty == before.dirty
                &&& !(input is Event || input is Lagged) ==> after.view@ == before.view@
            },
{
}

/// A balance that was read anew is that of the account, and what was delivered is seen.
pub proof fn a_new_balance_is_the_accounts(balance: Option<AccountBalance>, txid: &str)
    ensures
        forall|m: &mut WalletService| #[trigger]
            call_ensures(WalletService::on_tx_discovered, (m, balance), ()) ==> {
                let (before, after) = (*m, *final(m));
                &&& before.client_open && balance is Some ==> after.balance is Some
                    && notes::shows_balance(after.balance->0, balance->0)
                &&& !(before.client_open && balance is Some) ==> after@ == before@
                &&& after@ == (service::State { balance: after.balance, ..before@ })
            },
        forall|m: &mut WalletService| #[trigger]
            call_ensures(WalletService::toast_delivered, (m, txid), ()) ==> {
                let (before, after) = (*m, *final(m));
                &&& after.notify@.seen == before.notify@.seen.insert(txid@)
                &&& after@ == (service::State { notify: after.notify@, ..before@ })
            },
{
}

/// Only a request that did not get through is an outage.
pub proof fn only_a_failed_request_is_an_outage(err: SyncError, r: bool)
    requires
        call_ensures(is_unreachable, (&err,), r),
    ensures
        r <==> err matches SyncError::ServerError(ServerError::RequestFailed(_)),
{
}

/// A round asks the wallet's own Indexer, by the wallet's own Anchor; an Anchor is searched
/// for at the wallet's own Indexer, from its own birthday, exactly where it has none.
pub proof fn a_round_asks_the_wallets_own_indexer(
    service: WalletService,
    r: Result<RoundCheck, RoundError>,
    search: Option<AnchorSearch>,
)
    requires
        call_ensures(WalletService::verify_chain_identity, (&service,), r),
        call_ensures(WalletService::adopt_anchor_if_missing, (&service,), search),
    ensures
        r is Ok <==> service.meta is Some && uri::is_uri(service.meta->0.indexer_uri@),
        r matches Ok(check) ==> {
            &&& check.indexer_uri@ == service.meta->0.indexer_uri@
            &&& check.probe.anchor_height == service.meta->0.anchor_height
            &&& check.probe.anchor_hash == service.meta->0.anchor_hash
            &&& check.probe.scan_target_height == service.meta->0.scan_target_height
        },
        r matches Err(e) ==> !e.unreachable && !e.wrong_chain,
        search is Some <==> service.meta is Some && service.meta->0.anchor_hash is None
            && uri::is_uri(service.meta->0.indexer_uri@),
        search matches Some(s) ==> s.indexer_uri@ == service.meta->0.indexer_uri@ && s.birthday
            == service.meta->0.birthday_height,
{
}

/// A stage that went well is followed by the next, one that was stopped ends the round, and
/// one that failed fails it.
pub proof fn a_stage_is_followed_by_the_next(
    stage: RoundStage,
    end: StageEnd,
    r: Result<RoundStage, RoundError>,
)
    requires
        call_ensures(RoundStage::advance, (stage, end), r),
    ensures
        end is Done ==> r == Ok::<RoundStage, RoundError>(stage.next()),
        end is Stopped ==> r == Ok::<RoundStage, RoundError>(RoundStage::Over),
        end matches StageEnd::Failed(e) ==> r is Err && r->Err_0 == e,
{
}

/// A loop or a round retires exactly where the service has moved on to another generation.
pub proof fn a_loop_retires_with_its_generation(
    sync_loop: SyncLoop,
    generation: u64,
    service_generation: u64,
    retires: bool,
    retired: bool,
)
    requires
        call_ensures(SyncLoop::retires, (&sync_loop, service_generation), retires),
        call_ensures(RoundRun::retired, (generation, service_generation), retired),
    ensures
        retires <==> sync_loop.generation != service_generation,
        retired <==> generation != service_generation,
{
}

} // verus!
