//! The wallet service: sole owner of the wallet file.
//!
//! It holds everything the daemon knows of the active wallet and of the GUI session.
//! Opening the wallet, asking the Indexer and writing to disk are the caller's: each
//! operation that needs them is split where they happen, and takes what came of them.

use vstd::prelude::*;
use vstd::string::*;
use vstd::utf8::*;

use crate::gate;
use crate::gate::Demand;
use crate::ipc;
use crate::ipc::{
    Balance, ImportType, Network, ParseUfvkResult, RemoveArgs, SyncState, SyncStatus, Tx,
    UfvkIdentity, ViewMode, WalletAddress, WalletNote, WalletState, WalletSummary,
};
use crate::json;
use crate::notes;
use crate::notes::{AccountBalance, WalletOutputs};
use crate::notify::NotificationPolicy;
use crate::notify;
use crate::paths;
use crate::paths::{FileRead, Meta, Paths};
use crate::price;
use crate::price::PriceCache;
use crate::text;
use crate::tx;
use crate::tx::TransactionSummary;
use crate::uri;

verus! {

broadcast use vstd::string::group_string_axioms;

/// How long a getNotes request waits on the wallet lock before serving the cached
/// list, in seconds. The scanner can hold the write lock for long stretches mid-round,
/// and the GUI request has no timeout of its own; this bound is what keeps the Notes
/// view painting instead of showing skeletons forever.
pub const NOTES_READ_TIMEOUT_SECS: u64 = 2;

/// The longest name a wallet can be given, in characters.
pub const LABEL_MAX: usize = 64;

/// How much of a fingerprint or an id names a wallet that has no name.
pub const SHORT_ID: usize = 8;

pub struct WalletService {
    pub paths: Paths,
    /// Whether the wallet is open.
    pub client_open: bool,
    pub meta: Option<Meta>,
    pub sync: SyncStatus,
    /// Cached wallet reads served to clients without touching the open wallet, so
    /// queries never queue behind the sync loop or a commit's wallet write-lock.
    /// Refreshed at low-contention points and kept live on transaction discovery.
    pub txs: Vec<Tx>,
    pub balance: Option<Balance>,
    pub addresses: Vec<WalletAddress>,
    /// The last successfully built notes list, served when the wallet lock can't be
    /// taken in time (see [`Self::collect_notes`]).
    pub notes: Vec<WalletNote>,
    /// The seen-set, the silent Initial scan, and the one-time "scan finished" crossing.
    pub notify: NotificationPolicy,
    /// Set once the "Indexer unreachable" notification has fired for the current
    /// outage, so a multi-round backoff notifies once. Cleared when a round succeeds,
    /// the Indexer changes, or a fresh sync loop starts.
    pub unreachable_notified: bool,
    /// Same once-per-episode latch for the "Wrong chain detected" notification.
    pub wrong_chain_notified: bool,
    /// Whether transaction and scan-complete toasts fire. Toggled from Settings. The
    /// "Indexer unreachable" alert ignores this.
    pub notifications_enabled: bool,
    /// Whether fiat price display is enabled. While false nothing is fetched, so a
    /// wallet stays private to the price providers until the user consents.
    pub fiat_enabled: bool,
    /// Whether Discreet mode is on. While true, new-transaction notifications carry no
    /// amount or direction.
    pub discreet: bool,
    /// Reconciled spot + daily series, served to the GUI.
    pub price_cache: PriceCache,
    /// Bumped on every (re)import and remove so a stale sync loop retires itself.
    pub generation: u64,
    /// Whether tip-follow was asked for and its loop runs: set by [`Self::sync_wallet`],
    /// and cleared by whatever retires the loop.
    pub following: bool,
    /// The GUI session lock. True means a fresh GUI session must re-authenticate before
    /// the daemon answers wallet reads, independent of whether the wallet is open: the
    /// sync loop keeps running while locked, so background notifications survive a Sign
    /// Out or a GUI quit. Cleared only by a verified `unlock`; armed at startup for an
    /// encrypted wallet, by `lock`, and when the last GUI subscriber leaves.
    pub session_locked: bool,
    /// Whether the wallet on disk is encrypted. Plaintext (legacy) wallets have no
    /// passphrase to verify, so they are not relocked when the GUI leaves.
    pub encrypted: bool,
    /// Live GUI event subscribers. The lock re-arms when this falls to zero.
    pub subscribers: usize,
    /// The global passphrase for the session, held in memory once a wallet is imported
    /// or unlocked. Replace keeps it across the wipe so the new Wallet inherits it and
    /// onboarding skips Set Password; Start over drops it. Never persisted.
    pub session_passphrase: Option<String>,
    /// Whether a `shutdown` request can wake the host process. Used up by the first.
    pub shutdown_armed: bool,
}

/// What a [`WalletService`] knows.
#[verifier::ext_equal]
pub struct State {
    pub paths: paths::Layout,
    pub client_open: bool,
    pub meta: Option<Meta>,
    pub sync: SyncStatus,
    pub txs: Seq<Tx>,
    pub balance: Option<Balance>,
    pub addresses: Seq<WalletAddress>,
    pub notes: Seq<WalletNote>,
    pub notify: notify::Policy,
    pub unreachable_notified: bool,
    pub wrong_chain_notified: bool,
    pub notifications_enabled: bool,
    pub fiat_enabled: bool,
    pub discreet: bool,
    pub price_cache: PriceCache,
    pub generation: u64,
    pub following: bool,
    pub session_locked: bool,
    pub encrypted: bool,
    pub subscribers: usize,
    pub session_passphrase: Option<String>,
    pub shutdown_armed: bool,
}

impl View for WalletService {
    type V = State;

    open spec fn view(&self) -> State {
        State {
            paths: self.paths@,
            client_open: self.client_open,
            meta: self.meta,
            sync: self.sync,
            txs: self.txs@,
            balance: self.balance,
            addresses: self.addresses@,
            notes: self.notes@,
            notify: self.notify@,
            unreachable_notified: self.unreachable_notified,
            wrong_chain_notified: self.wrong_chain_notified,
            notifications_enabled: self.notifications_enabled,
            fiat_enabled: self.fiat_enabled,
            discreet: self.discreet,
            price_cache: self.price_cache,
            generation: self.generation,
            following: self.following,
            session_locked: self.session_locked,
            encrypted: self.encrypted,
            subscribers: self.subscribers,
            session_passphrase: self.session_passphrase,
            shutdown_armed: self.shutdown_armed,
        }
    }
}

// ---------------------------------------------------------------------------
// What each operation does to the state
// ---------------------------------------------------------------------------

impl State {
    /// The state of a daemon that has just started.
    pub open spec fn fresh(layout: paths::Layout, seen: Set<Seq<char>>, prices: PriceCache) -> State {
        State {
            paths: layout,
            client_open: false,
            meta: None,
            sync: SyncStatus::fresh(),
            txs: seq![],
            balance: None,
            addresses: seq![],
            notes: seq![],
            notify: notify::Policy { seen, live: false },
            unreachable_notified: false,
            wrong_chain_notified: false,
            notifications_enabled: true,
            fiat_enabled: false,
            discreet: false,
            price_cache: prices,
            generation: 0,
            following: false,
            session_locked: false,
            encrypted: false,
            subscribers: 0,
            session_passphrase: None,
            shutdown_armed: false,
        }
    }

    /// The state with a wallet's settings in force.
    pub open spec fn with_settings(self, meta: Meta) -> State {
        State {
            encrypted: meta.encrypted,
            notifications_enabled: meta.notifications_enabled,
            fiat_enabled: meta.fiat_enabled,
            discreet: meta.discreet,
            ..self
        }
    }

    /// The state with a wallet open.
    pub open spec fn with_wallet(self, meta: Meta) -> State {
        State { client_open: true, meta: Some(meta), ..self }
    }

    /// The state with the read caches empty.
    pub open spec fn uncached(self) -> State {
        State { txs: seq![], balance: None, addresses: seq![], notes: seq![], ..self }
    }

    /// The state with the sync loop of the present wallet retired.
    pub open spec fn retired(self) -> State {
        State { generation: self.generation.wrapping_add(1), following: false, ..self }
    }

    /// The state with tip-follow asked for: a new sync loop runs.
    pub open spec fn tip_following(self) -> State {
        State {
            following: true,
            ..self.retired().rearmed().in_sync_state(SyncState::Syncing)
        }
    }

    /// The state after a change of server. A running sync loop takes it up; a wallet that
    /// nobody asked to sync stays idle.
    pub open spec fn on_new_server(self) -> State {
        State {
            sync: SyncStatus {
                state: if self.following {
                    SyncState::Syncing
                } else {
                    SyncState::Idle
                },
                error: None,
                unreachable: false,
                wrong_chain: false,
                ..self.sync
            },
            ..self.rearmed()
        }
    }

    /// The state with both once-per-episode latches open, so that a new episode is
    /// notified.
    pub open spec fn rearmed(self) -> State {
        State { unreachable_notified: false, wrong_chain_notified: false, ..self }
    }

    /// The state with another sync state.
    pub open spec fn in_sync_state(self, state: SyncState) -> State {
        State { sync: SyncStatus { state, ..self.sync }, ..self }
    }

    /// The state in which the present wallet has made way for another.
    pub open spec fn switching(self) -> State {
        State { client_open: false, ..self.retired().uncached() }
    }

    /// The state with another wallet selected, of which these transactions were seen. An
    /// encrypted one awaits its passphrase, a plaintext one is to be opened.
    pub open spec fn selected(self, meta: Meta, seen: Set<Seq<char>>) -> State {
        State {
            sync: SyncStatus::fresh(),
            notify: notify::Policy { seen, live: false },
            session_locked: meta.encrypted,
            meta: if meta.encrypted {
                Some(meta)
            } else {
                self.meta
            },
            ..self.with_settings(meta).rearmed()
        }
    }

    /// The state with the wallet wiped.
    pub open spec fn wiped(self, keep_session: bool) -> State {
        State {
            session_locked: false,
            encrypted: false,
            fiat_enabled: false,
            discreet: false,
            client_open: false,
            meta: None,
            session_passphrase: if keep_session {
                self.session_passphrase
            } else {
                None
            },
            sync: SyncStatus::fresh(),
            notify: notify::Policy::fresh(),
            ..self.retired().uncached()
        }
    }

    /// The state after a wallet was unlocked from cold.
    pub open spec fn unlocked(self, passphrase: String) -> State {
        State {
            client_open: true,
            session_passphrase: Some(passphrase),
            session_locked: false,
            ..self.in_sync_state(SyncState::Idle).retired()
        }
    }

    /// The state after a fresh import. A fresh Wallet starts private: a prior wallet's
    /// choices don't carry over the import.
    pub open spec fn imported(self, meta: Meta, passphrase: String) -> State {
        State {
            meta: Some(meta),
            client_open: true,
            session_passphrase: Some(passphrase),
            encrypted: true,
            notifications_enabled: true,
            fiat_enabled: false,
            discreet: false,
            session_locked: false,
            sync: SyncStatus::fresh(),
            notify: notify::Policy::fresh(),
            ..self.retired()
        }
    }

    /// The height that the Initial scan ends at. A legacy wallet predating the pin has
    /// none, so it reads as always live.
    pub open spec fn target(self) -> u32 {
        match self.meta {
            Some(m) => m.scan_target_height,
            None => 0,
        }
    }

    /// Whether a passphrase is the one that opened the wallet.
    pub open spec fn knows_passphrase(self, passphrase: Seq<char>) -> bool {
        match self.session_passphrase {
            Some(held) => held@ == passphrase,
            None => false,
        }
    }

    /// Whether the session opens at a passphrase without opening the wallet anew.
    pub open spec fn reenters(self, passphrase: Seq<char>) -> bool {
        match self.meta {
            Some(m) => !m.encrypted || self.knows_passphrase(passphrase),
            None => true,
        }
    }
}

/// Metadata to be saved, and the file it goes to.
#[derive(Debug)]
pub struct MetaSave {
    pub file: Vec<u8>,
    pub meta: Meta,
}

impl State {
    /// Whether the metadata at hand is saved where it belongs: in the active wallet's own
    /// file, or at the root while no wallet is active.
    pub open spec fn saved_by(self, active: Option<Seq<char>>, save: MetaSave) -> bool {
        &&& self.meta == Some(save.meta)
        &&& save.file@ == self.paths.active(active).meta_file
    }
}

/// Whether a wallet state on the wire shows the state of the service.
pub open spec fn shows_state(r: WalletState, s: State, active: Option<Seq<char>>) -> bool {
    match s.meta {
        Some(m) => {
            &&& r.exists
            &&& r.locked == s.session_locked
            &&& r.session_held == (s.session_passphrase is Some)
            &&& ipc::text_view(r.wallet_id) == active
            &&& r.label == m.label
            &&& r.fingerprint == m.fingerprint
            &&& r.import_type == m.import_type
            &&& r.view_mode == m.view_mode
            &&& r.network == m.network
            &&& r.birthday_height == m.birthday_height
            &&& r.indexer_uri == m.indexer_uri
            &&& r.notifications_enabled == m.notifications_enabled
            &&& r.fiat_enabled == m.fiat_enabled
            &&& r.discreet == m.discreet
        },
        None => shows_nothing(r, s.session_passphrase is Some),
    }
}

/// Whether a wallet state on the wire is that of a daemon without a wallet.
pub open spec fn shows_nothing(r: WalletState, session_held: bool) -> bool {
    &&& !r.exists
    &&& !r.locked
    &&& r.session_held == session_held
    &&& r.wallet_id is None
    &&& r.label is None
    &&& r.fingerprint is None
    &&& r.import_type == ImportType::Ufvk
    &&& r.view_mode == ViewMode::Full
    &&& r.network == Network::Mainnet
    &&& r.birthday_height == 0
    &&& r.indexer_uri@ == ""@
    &&& r.notifications_enabled
    &&& !r.fiat_enabled
    &&& !r.discreet
}

/// The wallet state of a daemon without a wallet.
pub fn no_wallet_state(session_held: bool) -> (r: WalletState)
    ensures
        shows_nothing(r, session_held),
{
    WalletState {
        exists: false,
        locked: false,
        session_held,
        wallet_id: None,
        label: None,
        fingerprint: None,
        import_type: ImportType::Ufvk,
        view_mode: ViewMode::Full,
        network: Network::Mainnet,
        birthday_height: 0,
        indexer_uri: "".to_string(),
        notifications_enabled: true,
        fiat_enabled: false,
        discreet: false,
    }
}

// ---------------------------------------------------------------------------
// Passphrases
// ---------------------------------------------------------------------------

/// Constant-time byte comparison, so re-auth doesn't leak the passphrase through
/// early-exit timing. Differing lengths short-circuit, which only reveals length.
pub fn ct_eq(a: &[u8], b: &[u8]) -> (r: bool)
    ensures
        r == (a@ == b@),
{
    if a.len() != b.len() {
        return false;
    }
    let mut acc: u8 = 0;
    let mut i: usize = 0;
    assert(a@.take(0) =~= b@.take(0));
    while i < a.len()
        invariant
            i <= a@.len(),
            a@.len() == b@.len(),
            acc == 0 <==> a@.take(i as int) == b@.take(i as int),
        decreases a@.len() - i,
    {
        let (x, y): (u8, u8) = (a[i], b[i]);
        let ghost before = acc;
        acc = acc | (x ^ y);
        proof {
            assert((before | (x ^ y)) == 0 <==> before == 0 && x == y) by (bit_vector);
            let (p, q) = (a@.take(i + 1), b@.take(i + 1));
            assert(p =~= a@.take(i as int).push(x));
            assert(q =~= b@.take(i as int).push(y));
            if p == q {
                assert(p[i as int] == q[i as int]);
                assert(p.drop_last() =~= a@.take(i as int));
                assert(q.drop_last() =~= b@.take(i as int));
            }
        }
        i = i + 1;
    }
    assert(a@.take(a@.len() as int) =~= a@);
    assert(b@.take(b@.len() as int) =~= b@);
    acc == 0
}

// ---------------------------------------------------------------------------
// Wallets on disk
// ---------------------------------------------------------------------------

/// A wallet on disk: its id, and what came of loading its metadata.
pub struct Found {
    pub id: String,
    pub meta: Result<Option<Meta>, String>,
}

/// What a [`WalletSummary`] shows.
pub struct SummaryView {
    pub id: Seq<char>,
    pub label: Seq<char>,
    pub fingerprint: Option<Seq<char>>,
    pub network: Network,
    pub birthday_height: u32,
    pub active: bool,
}

impl View for WalletSummary {
    type V = SummaryView;

    open spec fn view(&self) -> SummaryView {
        SummaryView {
            id: self.id@,
            label: self.label@,
            fingerprint: ipc::text_view(self.fingerprint),
            network: self.network,
            birthday_height: self.birthday_height,
            active: self.active,
        }
    }
}

/// What a wallet is called: the name it was given, else the beginning of its
/// fingerprint, else the beginning of its id.
pub open spec fn display_name(
    label: Option<Seq<char>>,
    fingerprint: Option<Seq<char>>,
    id: Seq<char>,
) -> Seq<char> {
    let short = match fingerprint {
        Some(f) => text::first_chars(f, SHORT_ID as nat),
        None => text::first_chars(id, SHORT_ID as nat),
    };
    match label {
        Some(l) => if text::trimmed(l).len() > 0 {
            text::trimmed(l)
        } else {
            short
        },
        None => short,
    }
}

/// The summary of a wallet.
pub open spec fn summary_of(id: Seq<char>, meta: Meta, active: Option<Seq<char>>) -> SummaryView {
    SummaryView {
        id,
        label: display_name(
            ipc::text_view(meta.label),
            ipc::text_view(meta.fingerprint),
            id,
        ),
        fingerprint: ipc::text_view(meta.fingerprint),
        network: meta.network,
        birthday_height: meta.birthday_height,
        active: active == Some(id),
    }
}

/// The summaries of the wallets whose metadata is there, in their order.
pub open spec fn summaries(found: Seq<Found>, active: Option<Seq<char>>) -> Seq<SummaryView>
    decreases found.len(),
{
    if found.len() == 0 {
        seq![]
    } else {
        let before = summaries(found.drop_last(), active);
        match found.last().meta {
            Ok(Some(meta)) => before.push(summary_of(found.last().id@, meta, active)),
            _ => before,
        }
    }
}

/// The error of the first wallet whose metadata could not be loaded.
pub open spec fn first_load_error(found: Seq<Found>) -> Option<Seq<char>>
    decreases found.len(),
{
    if found.len() == 0 {
        None
    } else {
        match first_load_error(found.drop_last()) {
            Some(e) => Some(e),
            None => match found.last().meta {
                Err(e) => Some(e@),
                Ok(_) => None,
            },
        }
    }
}

proof fn first_load_error_stays(found: Seq<Found>, n: int)
    requires
        0 <= n <= found.len(),
        first_load_error(found.take(n)) is Some,
    ensures
        first_load_error(found) == first_load_error(found.take(n)),
    decreases found.len(),
{
    if n == found.len() {
        assert(found.take(n) =~= found);
    } else {
        assert(found.drop_last().take(n) =~= found.take(n));
        first_load_error_stays(found.drop_last(), n);
    }
}

/// The views of a list of summaries.
pub open spec fn summary_views(v: Seq<WalletSummary>) -> Seq<SummaryView> {
    v.map_values(|s: WalletSummary| s@)
}

/// A wallet was asked for that is not there.
pub open spec fn no_wallet_with(id: Seq<char>) -> Seq<char> {
    "no wallet with id "@ + id
}

/// The metadata of a wallet that is asked for by its id, where it is there.
pub fn find_wallet(id: &str, loaded: Result<Option<Meta>, String>) -> (r: Result<Meta, String>)
    ensures
        match loaded {
            Err(e) => r == Err::<Meta, String>(e),
            Ok(Some(meta)) => r == Ok::<Meta, String>(meta),
            Ok(None) => r is Err && r->Err_0@ == no_wallet_with(id@),
        },
{
    match loaded {
        Err(e) => Err(e),
        Ok(Some(meta)) => Ok(meta),
        Ok(None) => {
            let mut e = "no wallet with id ".to_string();
            e.append(id);
            Err(e)
        },
    }
}

/// What a wallet is called.
fn name_of(meta: &Meta, id: &str) -> (r: String)
    ensures
        r@ == display_name(ipc::text_view(meta.label), ipc::text_view(meta.fingerprint), id@),
{
    proof {
        reveal_strlit("");
    }
    if let Some(label) = &meta.label {
        let trimmed = text::trim(label.as_str());
        if !text::same_text(trimmed.as_str(), "") {
            assert(trimmed@.len() == 0 ==> trimmed@ =~= ""@);
            return trimmed;
        }
    }
    match &meta.fingerprint {
        Some(f) => text::take_chars(f.as_str(), SHORT_ID),
        None => text::take_chars(id, SHORT_ID),
    }
}

// ---------------------------------------------------------------------------
// Reading the wallet
// ---------------------------------------------------------------------------

/// What came of asking the open wallet for its outputs.
pub enum NotesRead {
    /// Its lock was not to be had in time.
    Busy,
    Outputs(WalletOutputs),
}

/// What was read of the open wallet. What could not be read is `None`.
pub struct Snapshot {
    pub summaries: Option<Vec<TransactionSummary>>,
    pub balance: Option<AccountBalance>,
    /// The encoded address of each unified address the wallet lists, where it has one.
    pub unified: Vec<Option<String>>,
    /// The encoded address of the first transparent address the wallet lists.
    pub transparent: Option<String>,
}

/// What a [`WalletAddress`] shows.
pub struct AddressView {
    pub ua: Seq<char>,
    pub transparent: Option<Seq<char>>,
}

impl View for WalletAddress {
    type V = AddressView;

    open spec fn view(&self) -> AddressView {
        AddressView { ua: self.ua@, transparent: ipc::text_view(self.transparent) }
    }
}

/// The views of a list of addresses.
pub open spec fn address_views(v: Seq<WalletAddress>) -> Seq<AddressView> {
    v.map_values(|a: WalletAddress| a@)
}

/// The addresses to show: those of the list that are encoded, the one at its head with
/// the transparent address beside it.
pub open spec fn shown_addresses(
    unified: Seq<Option<String>>,
    transparent: Option<Seq<char>>,
) -> Seq<AddressView>
    decreases unified.len(),
{
    if unified.len() == 0 {
        seq![]
    } else {
        let before = shown_addresses(unified.drop_last(), transparent);
        match unified.last() {
            Some(ua) => before.push(
                AddressView {
                    ua: ua@,
                    transparent: if unified.len() == 1 {
                        transparent
                    } else {
                        None
                    },
                },
            ),
            None => before,
        }
    }
}

/// The views of a list of transactions.
pub open spec fn tx_views(v: Seq<Tx>) -> Seq<tx::TxView> {
    v.map_values(|t: Tx| t@)
}

/// A history on the wire: each transaction with the net change it brings.
pub open spec fn shown_history(history: Seq<TransactionSummary>) -> Seq<tx::TxView> {
    history.map_values(|s: TransactionSummary| s.shown(tx::net_of(s, history)))
}

/// A history on the wire.
pub fn map_history(summaries: &Vec<TransactionSummary>) -> (r: Vec<Tx>)
    requires
        tx::fits(summaries@),
    ensures
        tx_views(r@) == shown_history(summaries@),
{
    let spent_by = tx::spent_value_by_tx(summaries);
    let mut out: Vec<Tx> = Vec::new();
    let mut i: usize = 0;
    while i < summaries.len()
        invariant
            i <= summaries@.len(),
            tx::fits(summaries@),
            forall|k: Seq<char>| #[trigger] spent_by.value_of(k) == tx::lost(summaries@, k),
            tx_views(out@) == shown_history(summaries@).take(i as int),
        decreases summaries@.len() - i,
    {
        proof {
            assert(summaries@[i as int].gained() <= i64::MAX);
            assert(tx::lost(summaries@, summaries@[i as int].txid.text()) <= i64::MAX);
        }
        let shown = tx::map_tx(&summaries[i], &spent_by);
        let ghost before = out@;
        out.push(shown);
        i = i + 1;
        proof {
            assert(tx_views(out@) =~= tx_views(before).push(shown@));
            assert(shown_history(summaries@).take(i as int) =~= shown_history(summaries@).take(
                i - 1,
            ).push(shown@));
        }
    }
    assert(shown_history(summaries@).take(summaries@.len() as int) =~= shown_history(summaries@));
    out
}

fn map_addresses(unified: &Vec<Option<String>>, transparent: &Option<String>) -> (r: Vec<
    WalletAddress,
>)
    ensures
        address_views(r@) == shown_addresses(unified@, ipc::text_view(*transparent)),
{
    let mut out: Vec<WalletAddress> = Vec::new();
    let mut i: usize = 0;
    assert(unified@.take(0) =~= seq![]);
    assert(address_views(out@) =~= seq![]);
    while i < unified.len()
        invariant
            i <= unified@.len(),
            address_views(out@) == shown_addresses(
                unified@.take(i as int),
                ipc::text_view(*transparent),
            ),
        decreases unified@.len() - i,
    {
        assert(unified@.take(i + 1).drop_last() =~= unified@.take(i as int));
        let ghost before = out@;
        if let Some(ua) = &unified[i] {
            let address = WalletAddress {
                ua: ua.clone(),
                transparent: if i == 0 {
                    ipc::clone_text(transparent)
                } else {
                    None
                },
            };
            out.push(address);
            assert(address_views(out@) =~= address_views(before).push(address@));
        }
        i = i + 1;
    }
    assert(unified@.take(unified@.len() as int) =~= unified@);
    out
}

fn copy_notes(notes: &Vec<WalletNote>) -> (r: Vec<WalletNote>)
    ensures
        r@ == notes@,
{
    let mut out: Vec<WalletNote> = Vec::new();
    let mut i: usize = 0;
    while i < notes.len()
        invariant
            i <= notes@.len(),
            out@ == notes@.take(i as int),
        decreases notes@.len() - i,
    {
        out.push(notes[i].clone());
        i = i + 1;
        assert(notes@.take(i as int) =~= notes@.take(i - 1).push(notes@[i - 1]));
    }
    assert(notes@.take(notes@.len() as int) =~= notes@);
    out
}

// ---------------------------------------------------------------------------
// Opening the wallet
// ---------------------------------------------------------------------------

/// What the engine is to open.
#[derive(Debug)]
pub enum WalletConfig {
    /// The wallet file that is there.
    Read,
    /// A new wallet for a viewing key.
    Ufvk { ufvk: String, birthday: u32 },
}

/// How the engine is to open a wallet.
#[derive(Debug)]
pub struct ClientConfig {
    pub network: Network,
    pub indexer_uri: String,
    pub wallet_dir: Vec<u8>,
    pub wallet: WalletConfig,
}

/// How an unlock goes on.
#[derive(Debug, PartialEq, Eq)]
pub enum Unlock {
    /// The wallet was open and the session is unlocked.
    Done,
    /// The wallet is to be opened with the passphrase.
    Open,
}

/// Which wallet a sync is for.
#[derive(Debug, PartialEq, Eq)]
pub enum SyncPlan {
    /// The active one.
    Active,
    /// The one of this id, which is to be selected first.
    Select { id: String },
}

/// Whether a sync of the wallet of an id has to select it first. Without an id it is the
/// active one's.
pub open spec fn selects_first(active: Option<Seq<char>>, id: Option<Seq<char>>) -> bool {
    id is Some && active != id
}

/// The files to delete with a wallet. Each deletion may fail.
pub struct Removal {
    pub meta_file: Vec<u8>,
    pub wallet_dir: Vec<u8>,
    /// The wallet's own directory and the file that makes it the active one, where a
    /// wallet is active.
    pub active: Option<ActiveFiles>,
}

/// A wallet's own directory, and the file that makes it the active one.
pub struct ActiveFiles {
    pub dir: Vec<u8>,
    pub id_file: Vec<u8>,
}

/// A setting of the wallet that the daemon keeps at hand.
#[derive(Debug, Clone, Copy, PartialEq, Eq, Structural)]
pub enum Setting {
    Notifications,
    Fiat,
    Discreet,
}

/// A wallet's metadata with a setting on or off.
pub open spec fn with_setting(meta: Meta, setting: Setting, enabled: bool) -> Meta {
    match setting {
        Setting::Notifications => Meta { notifications_enabled: enabled, ..meta },
        Setting::Fiat => Meta { fiat_enabled: enabled, ..meta },
        Setting::Discreet => Meta { discreet: enabled, ..meta },
    }
}

/// Turn a setting on or off in a wallet's metadata.
fn apply_setting(meta: Meta, setting: Setting, enabled: bool) -> (r: Meta)
    ensures
        r == with_setting(meta, setting, enabled),
{
    let mut meta = meta;
    match setting {
        Setting::Notifications => {
            meta.notifications_enabled = enabled;
        },
        Setting::Fiat => {
            meta.fiat_enabled = enabled;
        },
        Setting::Discreet => {
            meta.discreet = enabled;
        },
    }
    meta
}

/// The name that a label gives a wallet: nothing where it is blank, and no more than so
/// many characters.
pub open spec fn label_of(label: Seq<char>) -> Option<Seq<char>> {
    if text::trimmed(label).len() == 0 {
        None
    } else {
        Some(text::first_chars(text::trimmed(label), LABEL_MAX as nat))
    }
}

/// Why a key is no good.
#[derive(Debug, PartialEq, Eq)]
pub enum UfvkError {
    Testnet,
    Malformed(String),
}

/// Fold the decoder's result into the wire verdict the GUI renders inline. A testnet or
/// malformed key is an `ok` result tagged by `kind`, not a daemon error.
pub fn parse_ufvk_result(decoded: Result<UfvkIdentity, UfvkError>) -> (r: ParseUfvkResult)
    ensures
        r == match decoded {
            Ok(identity) => ParseUfvkResult::Valid(identity),
            Err(UfvkError::Testnet) => ParseUfvkResult::Testnet,
            Err(UfvkError::Malformed(reason)) => ParseUfvkResult::Malformed { reason },
        },
{
    match decoded {
        Ok(identity) => ParseUfvkResult::Valid(identity),
        Err(UfvkError::Testnet) => ParseUfvkResult::Testnet,
        Err(UfvkError::Malformed(reason)) => ParseUfvkResult::Malformed { reason },
    }
}

/// The arguments of a removal: those sent, or the default where none or no good ones
/// were (an older client, or Start over), which drops the session passphrase.
pub fn remove_args(decoded: Option<RemoveArgs>) -> (r: RemoveArgs)
    ensures
        r.keep_session == match decoded {
            Some(args) => args.keep_session,
            None => false,
        },
{
    match decoded {
        Some(args) => args,
        None => RemoveArgs::default(),
    }
}

/// A selected wallet could not be opened.
pub fn open_failed(id: &str, error: &str) -> (r: String)
    ensures
        r@ == "failed to open wallet "@ + id@ + ": "@ + error@,
{
    let mut s = "failed to open wallet ".to_string();
    s.append(id);
    s.append(": ");
    s.append(error);
    s
}

/// The wallet could not be opened with a passphrase.
pub fn unlock_failed(error: &str) -> (r: String)
    ensures
        r@ == "unlock failed: "@ + error@,
{
    let mut s = "unlock failed: ".to_string();
    s.append(error);
    s
}

// ---------------------------------------------------------------------------
// The service
// ---------------------------------------------------------------------------

impl WalletService {
    /// Build the service for what is on disk. An encrypted wallet starts the session
    /// locked: its metadata is held but nothing is opened until the GUI sends the
    /// passphrase via `unlock`. The metadata of a plaintext one comes back: its wallet is
    /// to be opened, and [`Self::loaded`] told what came of it.
    pub fn load(
        paths: Paths,
        seen: Vec<String>,
        price_cache: PriceCache,
        meta: Result<Option<Meta>, String>,
    ) -> (r: Result<(Self, Option<Meta>), String>)
        ensures
            ({
                let fresh = State::fresh(paths@, notify::text_set(seen@), price_cache);
                match meta {
                    Err(e) => r == Err::<(Self, Option<Meta>), String>(e),
                    Ok(None) => r is Ok && r->Ok_0.0@ == fresh && r->Ok_0.1 is None,
                    Ok(Some(m)) => {
                        &&& r is Ok
                        &&& m.encrypted ==> r->Ok_0.1 is None && r->Ok_0.0@ == (State {
                            session_locked: true,
                            meta: Some(m),
                            ..fresh.with_settings(m)
                        })
                        &&& !m.encrypted ==> r->Ok_0.1 == Some(m) && r->Ok_0.0@
                            == fresh.with_settings(m)
                    },
                }
            }),
    {
        let meta = match meta {
            Ok(meta) => meta,
            Err(e) => return Err(e),
        };
        let mut service = WalletService {
            paths,
            client_open: false,
            meta: None,
            sync: SyncStatus::default(),
            txs: Vec::new(),
            balance: None,
            addresses: Vec::new(),
            notes: Vec::new(),
            notify: NotificationPolicy::load(seen),
            unreachable_notified: false,
            wrong_chain_notified: false,
            notifications_enabled: true,
            fiat_enabled: false,
            discreet: false,
            price_cache,
            generation: 0,
            following: false,
            session_locked: false,
            encrypted: false,
            subscribers: 0,
            session_passphrase: None,
            shutdown_armed: false,
        };
        match meta {
            None => Ok((service, None)),
            Some(meta) => {
                service.take_settings(&meta);
                if meta.encrypted {
                    service.session_locked = true;
                    service.meta = Some(meta);
                    Ok((service, None))
                } else {
                    Ok((service, Some(meta)))
                }
            },
        }
    }

    fn take_settings(&mut self, meta: &Meta)
        ensures
            final(self)@ == old(self)@.with_settings(*meta),
    {
        self.encrypted = meta.encrypted;
        self.notifications_enabled = meta.notifications_enabled;
        self.fiat_enabled = meta.fiat_enabled;
        self.discreet = meta.discreet;
    }

    /// Take what came of opening the wallet that was found on disk. Sync starts only when
    /// asked for.
    pub fn loaded(&mut self, meta: Meta, opened: bool)
        ensures
            final(self)@ == if opened {
                old(self)@.with_wallet(meta).in_sync_state(SyncState::Idle)
            } else {
                old(self)@
            },
    {
        if opened {
            self.client_open = true;
            self.meta = Some(meta);
            self.sync.state = SyncState::Idle;
        }
    }

    /// The wallets on disk.
    pub fn list_wallets(&self, active: &FileRead, found: &Result<Vec<Found>, String>) -> (r: Result<
        Vec<WalletSummary>,
        String,
    >)
        ensures
            match (paths::active_id(*active), *found) {
                (Err(e), _) => r is Err && r->Err_0@ == e,
                (Ok(_), Err(e)) => r is Err && r->Err_0 == e,
                (Ok(id), Ok(found)) => match first_load_error(found@) {
                    Some(e) => r is Err && r->Err_0@ == e,
                    None => r is Ok && summary_views(r->Ok_0@) == summaries(found@, id),
                },
            },
    {
        let id = match self.paths.read_active_id(active) {
            Err(e) => return Err(e),
            Ok(id) => id,
        };
        let wallets = match found {
            Err(e) => return Err(e.clone()),
            Ok(wallets) => wallets,
        };
        let mut out: Vec<WalletSummary> = Vec::new();
        let mut i: usize = 0;
        proof {
            assert(wallets@.take(0) =~= seq![]);
            assert(summary_views(out@) =~= seq![]);
        }
        while i < wallets.len()
            invariant
                i <= wallets@.len(),
                *found == Ok::<Vec<Found>, String>(*wallets),
                paths::active_id(*active) == Ok::<Option<Seq<char>>, Seq<char>>(
                    ipc::text_view(id),
                ),
                first_load_error(wallets@.take(i as int)) is None,
                summary_views(out@) == summaries(wallets@.take(i as int), ipc::text_view(id)),
            decreases wallets@.len() - i,
        {
            assert(wallets@.take(i + 1).drop_last() =~= wallets@.take(i as int));
            let wallet = &wallets[i];
            match &wallet.meta {
                Err(e) => {
                    proof {
                        first_load_error_stays(wallets@, i + 1);
                    }
                    return Err(e.clone());
                },
                Ok(None) => {},
                Ok(Some(meta)) => {
                    let ghost before = out@;
                    let summary = WalletSummary {
                        id: wallet.id.clone(),
                        label: name_of(meta, wallet.id.as_str()),
                        fingerprint: ipc::clone_text(&meta.fingerprint),
                        network: meta.network,
                        birthday_height: meta.birthday_height,
                        active: match &id {
                            Some(id) => text::same_text(id.as_str(), wallet.id.as_str()),
                            None => false,
                        },
                    };
                    out.push(summary);
                    assert(summary_views(out@) =~= summary_views(before).push(summary@));
                },
            }
            i = i + 1;
        }
        assert(wallets@.take(wallets@.len() as int) =~= wallets@);
        Ok(out)
    }

    /// Switch the active wallet: the present one makes way. The new one is then to be
    /// made the active one on disk, and [`Self::wallet_selected`] called.
    pub fn select_wallet(&mut self, id: &str, loaded: Result<Option<Meta>, String>) -> (r: Result<
        Meta,
        String,
    >)
        ensures
            match loaded {
                Err(e) => r == Err::<Meta, String>(e) && final(self)@ == old(self)@,
                Ok(None) => r is Err && r->Err_0@ == no_wallet_with(id@) && final(self)@ == old(self)@,
                Ok(Some(meta)) => r == Ok::<Meta, String>(meta) && final(self)@ == old(self)@.switching(),
            },
    {
        let meta = match find_wallet(id, loaded) {
            Err(e) => return Err(e),
            Ok(meta) => meta,
        };
        self.generation = self.generation.wrapping_add(1);
        self.following = false;
        self.client_open = false;
        self.clear_read_caches();
        Ok(meta)
    }

    /// The new wallet is the active one on disk, and brings the transactions seen of it.
    /// Returns its metadata where it is to be opened; [`Self::wallet_opened`] is then
    /// called once it is.
    pub fn wallet_selected(&mut self, meta: Meta, seen: Vec<String>) -> (r: Option<Meta>)
        ensures
            final(self)@ == old(self)@.selected(meta, notify::text_set(seen@)),
            r == if meta.encrypted {
                None
            } else {
                Some(meta)
            },
    {
        self.take_settings(&meta);
        self.unreachable_notified = false;
        self.wrong_chain_notified = false;
        self.sync = SyncStatus::default();
        self.notify = NotificationPolicy::load(seen);
        if meta.encrypted {
            self.session_locked = true;
            self.meta = Some(meta);
            None
        } else {
            self.session_locked = false;
            Some(meta)
        }
    }

    /// The selected wallet is open.
    pub fn wallet_opened(&mut self, meta: Meta)
        ensures
            final(self)@ == old(self)@.with_wallet(meta),
    {
        self.client_open = true;
        self.meta = Some(meta);
    }

    /// Start tip-follow sync for the active wallet (user-triggered): the loop of before
    /// retires, and a new one is to be started.
    pub fn sync_wallet(&mut self) -> (r: Result<SyncStatus, String>)
        ensures
            match r {
                Err(e) => !old(self).client_open && e@ == "wallet is locked or not loaded"@
                    && final(self)@ == old(self)@,
                Ok(status) => old(self).client_open && final(self)@ == old(self)@.tip_following() && status == final(self).sync,
            },
    {
        if !self.client_open {
            return Err("wallet is locked or not loaded".to_string());
        }
        self.generation = self.generation.wrapping_add(1);
        self.unreachable_notified = false;
        self.wrong_chain_notified = false;
        self.sync.state = SyncState::Syncing;
        self.following = true;
        Ok(self.sync.clone())
    }

    /// Which wallet a sync is for: the one of the id that was sent, which is to be
    /// selected first unless it is the active one, or else the active one.
    pub fn sync_plan(&self, active: &FileRead, id: Option<String>) -> (r: SyncPlan)
        ensures
            r == if selects_first(paths::active_id_or_none(*active), ipc::text_view(id)) {
                SyncPlan::Select { id: id->0 }
            } else {
                SyncPlan::Active
            },
    {
        let id = match id {
            Some(id) => id,
            None => return SyncPlan::Active,
        };
        if let Ok(Some(now)) = self.paths.read_active_id(active) {
            if text::same_text(now.as_str(), id.as_str()) {
                return SyncPlan::Active;
            }
        }
        SyncPlan::Select { id }
    }

    /// What a request asks for, or why it is refused.
    pub fn handle(&self, method: &str, params: &serde_json::Value) -> (r: Result<Demand, String>)
        ensures
            ({
                let txid = json::text_at(*params, "txid"@);
                let ufvk = json::text_at(*params, "ufvk"@);
                let id = json::text_at(*params, "id"@);
                match r {
                    Err(e) => gate::refusal(self.session_locked, method@, txid, ufvk) == Some(e@),
                    Ok(d) => gate::refusal(self.session_locked, method@, txid, ufvk) is None
                        && exists|m: gate::Method|
                        (#[trigger] m.name()) == method@ && gate::demanded(m, txid, ufvk, id, d),
                }
            }),
    {
        gate::demand(self.session_locked, method, params)
    }

    /// How the engine is to open a wallet of this service.
    pub fn client_config(
        &self,
        active: &FileRead,
        network: Network,
        indexer_uri: &str,
        default_uri: &str,
        wallet: WalletConfig,
    ) -> (r: ClientConfig)
        ensures
            r.network == network,
            r.indexer_uri@ == uri::uri_or_default(
                uri::is_uri(indexer_uri@),
                indexer_uri@,
                default_uri@,
            ),
            r.wallet_dir@ == self.paths@.active(paths::active_id_or_none(*active)).wallet_dir,
            r.wallet == wallet,
    {
        let scoped = self.paths.scoped_paths(active);
        ClientConfig {
            network,
            indexer_uri: uri::connect_uri(indexer_uri, default_uri),
            wallet_dir: scoped.wallet_dir,
            wallet,
        }
    }

    /// The wallet as the GUI sees it.
    pub fn wallet_state(&self, active: &FileRead) -> (r: WalletState)
        ensures
            shows_state(r, self@, paths::active_id_or_none(*active)),
    {
        match &self.meta {
            Some(m) => WalletState {
                exists: true,
                locked: self.session_locked,
                session_held: self.session_passphrase.is_some(),
                wallet_id: match self.paths.read_active_id(active) {
                    Ok(id) => id,
                    Err(_) => None,
                },
                label: ipc::clone_text(&m.label),
                fingerprint: ipc::clone_text(&m.fingerprint),
                import_type: m.import_type,
                view_mode: m.view_mode,
                network: m.network,
                birthday_height: m.birthday_height,
                indexer_uri: m.indexer_uri.clone(),
                notifications_enabled: m.notifications_enabled,
                fiat_enabled: m.fiat_enabled,
                discreet: m.discreet,
            },
            None => no_wallet_state(self.session_passphrase.is_some()),
        }
    }

    /// The balance, nothing where none has been read yet.
    pub fn get_balance(&self) -> (r: Balance)
        ensures
            r == match self.balance {
                Some(b) => b,
                None => Balance::none(),
            },
    {
        match &self.balance {
            Some(b) => b.clone(),
            None => Balance::default(),
        }
    }

    /// Where a transaction stands in the cached history.
    pub open spec fn tx_at(self, txid: Seq<char>, i: int) -> bool {
        &&& 0 <= i < self.txs@.len()
        &&& self.txs@[i].txid@ == txid
        &&& forall|k: int| 0 <= k < i ==> (#[trigger] self.txs@[k]).txid@ != txid
    }

    /// The cached transaction of this txid, if there is one.
    pub fn get_transaction(&self, txid: &str) -> (r: Option<&Tx>)
        ensures
            match r {
                Some(found) => exists|i: int|
                    #[trigger] self.tx_at(txid@, i) && *found == self.txs@[i],
                None => forall|k: int|
                    0 <= k < self.txs@.len() ==> (#[trigger] self.txs@[k]).txid@ != txid@,
            },
    {
        match self.find_tx(txid) {
            Some(i) => {
                assert(self.tx_at(txid@, i as int));
                Some(&self.txs[i])
            },
            None => None,
        }
    }

    /// Where the cached transaction of this txid stands, if there is one.
    pub fn find_tx(&self, txid: &str) -> (r: Option<usize>)
        ensures
            match r {
                Some(i) => self.tx_at(txid@, i as int),
                None => forall|k: int|
                    0 <= k < self.txs@.len() ==> (#[trigger] self.txs@[k]).txid@ != txid@,
            },
    {
        let mut i: usize = 0;
        while i < self.txs.len()
            invariant
                i <= self.txs@.len(),
                forall|k: int| 0 <= k < i ==> (#[trigger] self.txs@[k]).txid@ != txid@,
            decreases self.txs@.len() - i,
        {
            if text::same_text(self.txs[i].txid.as_str(), txid) {
                return Some(i);
            }
            i = i + 1;
        }
        None
    }

    /// Every received output the Wallet controls, across pools, with its spend state
    /// resolved: live off the wallet when its lock frees in time, and the last-built
    /// list otherwise. Nothing when no wallet is open.
    pub fn collect_notes(&mut self, read: NotesRead) -> (r: Vec<WalletNote>)
        ensures
            !old(self).client_open ==> r@.len() == 0 && final(self)@ == old(self)@,
            old(self).client_open ==> match read {
                NotesRead::Busy => r@ == old(self).notes@ && final(self)@ == old(self)@,
                NotesRead::Outputs(outputs) => notes::row_views(r@) == outputs.rows() && final(self)@ == (State { notes: r@, ..old(self)@ }),
            },
    {
        if !self.client_open {
            return Vec::new();
        }
        match read {
            NotesRead::Busy => copy_notes(&self.notes),
            NotesRead::Outputs(outputs) => {
                let rows = notes::note_rows(&outputs);
                self.notes = copy_notes(&rows);
                rows
            },
        }
    }

    /// Rebuild the read caches (transactions, balance, addresses) from the wallet. A
    /// read that failed leaves the previous snapshot in place. The notes are then to be
    /// collected.
    pub fn refresh_snapshot(&mut self, snapshot: Snapshot)
        requires
            snapshot.summaries matches Some(history) ==> tx::fits(history@),
        ensures
            !old(self).client_open ==> final(self)@ == old(self)@,
            old(self).client_open ==> {
                &&& final(self)@ == (State {
                    txs: final(self)@.txs,
                    balance: final(self)@.balance,
                    addresses: final(self)@.addresses,
                    ..old(self)@
                })
                &&& match snapshot.summaries {
                    Some(history) => tx_views(final(self).txs@) == shown_history(history@),
                    None => final(self).txs@ == old(self).txs@,
                }
                &&& match snapshot.balance {
                    Some(bal) => final(self).balance is Some && notes::shows_balance(
                        final(self).balance->0,
                        bal,
                    ),
                    None => final(self).balance == old(self).balance,
                }
                &&& address_views(final(self).addresses@) == shown_addresses(
                    snapshot.unified@,
                    ipc::text_view(snapshot.transparent),
                )
            },
    {
        if !self.client_open {
            return;
        }
        if let Some(history) = &snapshot.summaries {
            self.txs = map_history(history);
        }
        if let Some(bal) = &snapshot.balance {
            self.balance = Some(notes::map_balance(bal));
        }
        self.addresses = map_addresses(&snapshot.unified, &snapshot.transparent);
    }

    fn clear_read_caches(&mut self)
        ensures
            final(self)@ == old(self)@.uncached(),
    {
        self.txs = Vec::new();
        self.balance = None;
        self.addresses = Vec::new();
        self.notes = Vec::new();
    }

    /// Give a wallet a name: its metadata, to be saved in its own file, whether it is the
    /// active one or not. [`Self::label_saved`] is then called.
    pub fn set_wallet_label(
        &self,
        id: &str,
        label: &str,
        loaded: Result<Option<Meta>, String>,
    ) -> (r: Result<MetaSave, String>)
        ensures
            match loaded {
                Err(e) => r == Err::<MetaSave, String>(e),
                Ok(None) => r is Err && r->Err_0@ == no_wallet_with(id@),
                Ok(Some(meta)) => {
                    &&& r is Ok
                    &&& r->Ok_0.file@ == self.paths@.scoped(id@).meta_file
                    &&& r->Ok_0.meta == (Meta { label: r->Ok_0.meta.label, ..meta })
                    &&& ipc::text_view(r->Ok_0.meta.label) == label_of(label@)
                },
            },
    {
        let mut meta = match find_wallet(id, loaded) {
            Err(e) => return Err(e),
            Ok(meta) => meta,
        };
        proof {
            reveal_strlit("");
        }
        let trimmed = text::trim(label);
        meta.label =
        if text::same_text(trimmed.as_str(), "") {
            None
        } else {
            assert(trimmed@.len() == 0 ==> trimmed@ =~= ""@);
            Some(text::take_chars(trimmed.as_str(), LABEL_MAX))
        };
        let own = self.paths.for_wallet(id);
        Ok(MetaSave { file: own.meta_file, meta })
    }

    /// A wallet's name was saved: the metadata at hand follows where it is the active
    /// one.
    pub fn label_saved(&mut self, id: &str, active: &FileRead, meta: Meta) -> (r: Result<(), String>)
        ensures
            match paths::active_id(*active) {
                Err(e) => r is Err && r->Err_0@ == e && final(self)@ == old(self)@,
                Ok(now) => r is Ok && final(self)@ == if now == Some(id@) {
                    State { meta: Some(meta), ..old(self)@ }
                } else {
                    old(self)@
                },
            },
    {
        match self.paths.read_active_id(active) {
            Err(e) => Err(e),
            Ok(Some(now)) => {
                if text::same_text(now.as_str(), id) {
                    self.meta = Some(meta);
                }
                Ok(())
            },
            Ok(None) => Ok(()),
        }
    }

    /// Clear the GUI session lock once the passphrase checks out. Two ways: a warm
    /// re-entry when the wallet is already open, verified offline against the held
    /// session passphrase; and a cold open after a restart, which decrypts the file. A
    /// wrong passphrase is rejected in both; a plaintext wallet has none to check.
    pub fn unlock(&mut self, passphrase: &str) -> (r: Result<Unlock, String>)
        ensures
            match r {
                Ok(Unlock::Done) => old(self).client_open && old(self)@.reenters(passphrase@)
                    && final(self)@ == (State { session_locked: false, ..old(self)@ }),
                Ok(Unlock::Open) => !old(self).client_open && old(self).meta is Some && final(self)@ == old(self)@,
                Err(e) => {
                    &&& final(self)@ == old(self)@
                    &&& old(self).client_open ==> !old(self)@.reenters(passphrase@) && e@
                        == "incorrect passphrase"@
                    &&& !old(self).client_open ==> old(self).meta is None && e@
                        == "no wallet to unlock"@
                },
            },
    {
        if self.client_open {
            let encrypted = match &self.meta {
                Some(m) => m.encrypted,
                None => false,
            };
            if !encrypted || self.verify_passphrase(passphrase) {
                self.session_locked = false;
                return Ok(Unlock::Done);
            }
            return Err("incorrect passphrase".to_string());
        }
        if self.meta.is_none() {
            return Err("no wallet to unlock".to_string());
        }
        Ok(Unlock::Open)
    }

    /// The wallet was opened with the passphrase. The price loop is to be woken: it was
    /// parked while locked.
    pub fn unlocked(&mut self, passphrase: String)
        ensures
            final(self)@ == old(self)@.unlocked(passphrase),
    {
        self.client_open = true;
        self.session_passphrase = Some(passphrase);
        self.session_locked = false;
        self.sync.state = SyncState::Idle;
        self.generation = self.generation.wrapping_add(1);
        self.following = false;
    }

    /// The metadata at hand, to be saved in the file of the active wallet, where there is
    /// any.
    pub fn to_save(&self, active: &FileRead) -> (r: Option<MetaSave>)
        ensures
            match r {
                Some(save) => self@.saved_by(paths::active_id_or_none(*active), save),
                None => self.meta is None,
            },
    {
        match &self.meta {
            Some(meta) => {
                let scoped = self.paths.scoped_paths(active);
                Some(MetaSave { file: scoped.meta_file, meta: meta.clone() })
            },
            None => None,
        }
    }

    fn set_setting(&mut self, setting: Setting, enabled: bool)
        ensures
            final(self)@ == match old(self).meta {
                Some(meta) => State { meta: Some(with_setting(meta, setting, enabled)), ..old(self)@ },
                None => old(self)@,
            },
    {
        if let Some(meta) = self.meta.take() {
            self.meta = Some(apply_setting(meta, setting, enabled));
        }
    }

    /// Toggle whether transaction and scan-complete toasts fire: the metadata is to be
    /// saved, and [`Self::setting_saved`] called. The "Indexer unreachable" alert is
    /// independent and keeps firing either way.
    pub fn set_notifications(&mut self, active: &FileRead, enabled: bool) -> (r: Result<MetaSave, String>)
        ensures
            match old(self).meta {
                Some(meta) => {
                    &&& r is Ok
                    &&& final(self)@ == (State {
                        meta: Some(with_setting(meta, Setting::Notifications, enabled)),
                        ..old(self)@
                    })
                    &&& final(self)@.saved_by(paths::active_id_or_none(*active), r->Ok_0)
                },
                None => r is Err && r->Err_0@ == "no wallet to set notifications for"@ && final(self)@ == old(self)@,
            },
    {
        self.set_setting(Setting::Notifications, enabled);
        match self.to_save(active) {
            Some(save) => Ok(save),
            None => Err("no wallet to set notifications for".to_string()),
        }
    }

    /// Turn fiat price display on or off: the metadata is to be saved, and
    /// [`Self::setting_saved`] called. Enabling records the user's consent to the price
    /// egress.
    pub fn set_fiat_enabled(&mut self, active: &FileRead, enabled: bool) -> (r: Result<MetaSave, String>)
        ensures
            match old(self).meta {
                Some(meta) => {
                    &&& r is Ok
                    &&& final(self)@ == (State {
                        meta: Some(with_setting(meta, Setting::Fiat, enabled)),
                        ..old(self)@
                    })
                    &&& final(self)@.saved_by(paths::active_id_or_none(*active), r->Ok_0)
                },
                None => r is Err && r->Err_0@ == "no wallet to set fiat display for"@ && final(self)@ == old(self)@,
            },
    {
        self.set_setting(Setting::Fiat, enabled);
        match self.to_save(active) {
            Some(save) => Ok(save),
            None => Err("no wallet to set fiat display for".to_string()),
        }
    }

    /// Turn Discreet mode on or off: the metadata is to be saved, and
    /// [`Self::setting_saved`] called. The GUI does its own masking; the daemon's side
    /// of the deal is redacting notification text.
    pub fn set_discreet(&mut self, active: &FileRead, enabled: bool) -> (r: Result<MetaSave, String>)
        ensures
            match old(self).meta {
                Some(meta) => {
                    &&& r is Ok
                    &&& final(self)@ == (State {
                        meta: Some(with_setting(meta, Setting::Discreet, enabled)),
                        ..old(self)@
                    })
                    &&& final(self)@.saved_by(paths::active_id_or_none(*active), r->Ok_0)
                },
                None => r is Err && r->Err_0@ == "no wallet to set discreet mode for"@ && final(self)@ == old(self)@,
            },
    {
        self.set_setting(Setting::Discreet, enabled);
        match self.to_save(active) {
            Some(save) => Ok(save),
            None => Err("no wallet to set discreet mode for".to_string()),
        }
    }

    /// A setting was saved and is in force from now on. Returns whether the price loop
    /// is to be woken, so that the first value lands without waiting out the interval.
    pub fn setting_saved(&mut self, setting: Setting, enabled: bool) -> (r: bool)
        ensures
            r == (setting == Setting::Fiat && enabled),
            final(self)@ == match setting {
                Setting::Notifications => State { notifications_enabled: enabled, ..old(self)@ },
                Setting::Fiat => State { fiat_enabled: enabled, ..old(self)@ },
                Setting::Discreet => State { discreet: enabled, ..old(self)@ },
            },
    {
        match setting {
            Setting::Notifications => {
                self.notifications_enabled = enabled;
                false
            },
            Setting::Fiat => {
                self.fiat_enabled = enabled;
                enabled
            },
            Setting::Discreet => {
                self.discreet = enabled;
                false
            },
        }
    }

    /// Wipe the current Wallet from memory. `keep_session` retains the in-memory
    /// passphrase so a Replace lands in onboarding without re-collecting it; Start over
    /// passes false and the passphrase is dropped. The prices are public and stay. The
    /// files that [`Self::removal`] names are then to be deleted.
    pub fn remove(&mut self, keep_session: bool)
        ensures
            final(self)@ == old(self)@.wiped(keep_session),
    {
        self.generation = self.generation.wrapping_add(1);
        self.following = false;
        self.session_locked = false;
        self.encrypted = false;
        self.fiat_enabled = false;
        self.discreet = false;
        self.client_open = false;
        self.meta = None;
        if !keep_session {
            self.session_passphrase = None;
        }
        self.sync = SyncStatus::default();
        self.clear_read_caches();
        self.notify.reset();
    }

    /// The files of the active wallet.
    pub fn removal(&self, active: &FileRead) -> (r: Removal)
        ensures
            ({
                let id = paths::active_id_or_none(*active);
                let scoped = self.paths@.active(id);
                &&& r.meta_file@ == scoped.meta_file
                &&& r.wallet_dir@ == scoped.wallet_dir
                &&& match id {
                    Some(id) => r.active is Some && r.active->0.dir@ == self.paths.platform.within(
                        self.paths@.wallets_dir,
                        id,
                    ) && r.active->0.id_file@ == self.paths@.active_id_file,
                    None => r.active is None,
                }
            }),
    {
        let scoped = self.paths.scoped_paths(active);
        let own = match self.paths.read_active_id(active) {
            Ok(Some(id)) => Some(
                ActiveFiles {
                    dir: self.paths.platform.join(&self.paths.wallets_dir, id.as_str()),
                    id_file: paths::copy_path(&self.paths.active_id_file),
                },
            ),
            _ => None,
        };
        Removal { meta_file: scoped.meta_file, wallet_dir: scoped.wallet_dir, active: own }
    }

    /// Re-authenticate a passphrase against the held session passphrase, the one that
    /// opened the current Wallet. Used by the Replace modal before it wipes anything.
    /// False when nothing is held.
    pub fn verify_passphrase(&self, passphrase: &str) -> (r: bool)
        ensures
            r == self@.knows_passphrase(passphrase@),
    {
        match &self.session_passphrase {
            Some(held) => {
                proof {
                    encode_utf8_decode_utf8(held@);
                    encode_utf8_decode_utf8(passphrase@);
                }
                ct_eq(held.as_str().as_bytes(), passphrase.as_bytes())
            },
            None => false,
        }
    }

    /// Arm the GUI session lock without disturbing the open wallet. Sign Out calls
    /// this: the sync loop keeps running so notifications survive, but the next GUI
    /// session must re-authenticate before any wallet read.
    pub fn lock_session(&mut self)
        ensures
            final(self)@ == (State { session_locked: true, ..old(self)@ }),
    {
        self.session_locked = true;
    }

    /// Whether the GUI session is locked. Read by the IPC layer to gate pushed events.
    pub fn session_locked(&self) -> (r: bool)
        ensures
            r == self.session_locked,
    {
        self.session_locked
    }

    /// A GUI event subscriber connected.
    pub fn subscriber_joined(&mut self)
        ensures
            final(self)@ == (State {
                subscribers: old(self).subscribers.wrapping_add(1),
                ..old(self)@
            }),
    {
        self.subscribers = self.subscribers.wrapping_add(1);
    }

    /// A GUI event subscriber disconnected. When the last one leaves, an encrypted
    /// wallet re-arms the session lock so the next GUI session re-authenticates. The
    /// wallet stays open and syncing. Plaintext wallets hold no passphrase, so they
    /// don't relock.
    pub fn subscriber_left(&mut self)
        ensures
            final(self)@ == (State {
                subscribers: old(self).subscribers.wrapping_sub(1),
                session_locked: old(self).session_locked || (old(self).subscribers == 1 && old(self).encrypted),
                ..old(self)@
            }),
    {
        let before: usize = self.subscribers;
        self.subscribers = before.wrapping_sub(1);
        if before == 1 && self.encrypted {
            self.session_locked = true;
        }
    }

    /// Arm the one-shot signal that wakes the host when `shutdown` is received.
    pub fn arm_shutdown(&mut self)
        ensures
            final(self)@ == (State { shutdown_armed: true, ..old(self)@ }),
    {
        self.shutdown_armed = true;
    }

    /// Use up the signal: whether the host is to be woken. Later calls are no-ops.
    pub fn shutdown(&mut self) -> (r: bool)
        ensures
            r == old(self).shutdown_armed,
            final(self)@ == (State { shutdown_armed: false, ..old(self)@ }),
    {
        let armed = self.shutdown_armed;
        self.shutdown_armed = false;
        armed
    }

    /// The height that the Initial scan ends at.
    pub fn scan_target(&self) -> (r: u32)
        ensures
            r == self@.target(),
    {
        match &self.meta {
            Some(m) => m.scan_target_height,
            None => 0,
        }
    }

    /// Whether the price loop may fetch.
    pub fn may_fetch_prices(&self) -> (r: bool)
        ensures
            r == price::may_fetch(self.fiat_enabled, self.session_locked, self.meta is Some),
    {
        self.fiat_enabled && !self.session_locked && self.meta.is_some()
    }
}

// ---------------------------------------------------------------------------
// Laws of the service
// ---------------------------------------------------------------------------

/// A removed wallet leaves nothing to read: no transaction, balance, address or note of
/// it, and no metadata.
pub proof fn a_removed_wallet_leaves_nothing(s: State, keep_session: bool)
    ensures
        ({
            let after = s.wiped(keep_session);
            &&& after.txs.len() == 0
            &&& after.balance is None
            &&& after.addresses.len() == 0
            &&& after.notes.len() == 0
            &&& after.meta is None
            &&& !after.client_open
            &&& after.notify == notify::Policy::fresh()
            &&& after.sync == SyncStatus::fresh()
        }),
{
}

/// Replace keeps the session's passphrase, which then still verifies; Start over drops
/// it, and nothing verifies.
pub proof fn only_replace_keeps_the_passphrase(s: State, passphrase: Seq<char>)
    ensures
        s.wiped(true).knows_passphrase(passphrase) == s.knows_passphrase(passphrase),
        !s.wiped(false).knows_passphrase(passphrase),
{
}

/// Locking the session keeps the wallet open and its passphrase held, so that
/// background sync survives, and the one passphrase that opens it again is the one that
/// opened it.
pub proof fn a_locked_session_reopens_with_its_passphrase(s: State, passphrase: Seq<char>)
    requires
        s.meta is Some,
        s.meta->0.encrypted,
    ensures
        ({
            let locked = State { session_locked: true, ..s };
            &&& locked.client_open == s.client_open
            &&& locked.session_passphrase == s.session_passphrase
            &&& locked.generation == s.generation
            &&& locked.reenters(passphrase) == s.knows_passphrase(passphrase)
        }),
{
}

/// A wallet is opened by the passphrase it was imported or unlocked with, and by no
/// other.
pub proof fn the_passphrase_of_the_import_unlocks(
    s: State,
    meta: Meta,
    passphrase: String,
    tried: Seq<char>,
)
    requires
        meta.encrypted,
    ensures
        s.imported(meta, passphrase).reenters(tried) <==> tried == passphrase@,
        s.unlocked(passphrase).knows_passphrase(tried) <==> tried == passphrase@,
{
}

/// Importing, unlocking, selecting, removing and asking for a sync each retire the sync
/// loop that ran before.
pub proof fn a_change_of_wallet_retires_the_loop(
    s: State,
    meta: Meta,
    passphrase: String,
    keep_session: bool,
)
    ensures
        s.imported(meta, passphrase).generation != s.generation,
        s.unlocked(passphrase).generation != s.generation,
        s.switching().generation != s.generation,
        s.wiped(keep_session).generation != s.generation,
        s.tip_following().generation != s.generation,
{
}

/// No sync begins until it is asked for: loading, importing, unlocking or selecting a
/// wallet leaves it idle, and so does a change of its server. An open wallet syncs when
/// told to, and goes on doing so through a change of server.
pub proof fn no_sync_until_asked(
    s: State,
    meta: Meta,
    passphrase: String,
    seen: Set<Seq<char>>,
    keep_session: bool,
)
    ensures
        !s.following ==> s.on_new_server().sync.state == SyncState::Idle,
        !s.on_new_server().following <==> !s.following,
        s.tip_following().on_new_server().sync.state == SyncState::Syncing,
        !State::fresh(s.paths, seen, s.price_cache).with_settings(meta).with_wallet(meta).following,
        !s.imported(meta, passphrase).following,
        !s.unlocked(passphrase).following,
        !s.switching().selected(meta, seen).with_wallet(meta).following,
        !s.wiped(keep_session).following,
        s.with_wallet(meta).in_sync_state(SyncState::Idle).sync.state == SyncState::Idle,
        s.imported(meta, passphrase).sync.state == SyncState::Idle,
        s.unlocked(passphrase).sync.state == SyncState::Idle,
        s.switching().selected(meta, seen).sync.state == SyncState::Idle,
        s.tip_following().sync.state == SyncState::Syncing,
{
}

/// A sync with an id is of that wallet: where it is not the active one it is selected
/// first, which makes it the wallet at hand, and then it is the one that follows the tip.
/// Once it is the active one, or without an id, nothing is selected.
pub proof fn the_wallet_asked_for_is_synced(
    s: State,
    meta: Meta,
    seen: Set<Seq<char>>,
    active: Option<Seq<char>>,
    id: Seq<char>,
)
    ensures
        selects_first(active, Some(id)) <==> active != Some(id),
        !selects_first(Some(id), Some(id)),
        !selects_first(active, None),
        ({
            let after = s.switching().selected(meta, seen).with_wallet(meta).tip_following();
            &&& after.meta == Some(meta)
            &&& after.client_open
            &&& after.following
            &&& after.sync.state == SyncState::Syncing
            &&& after.generation != s.switching().generation
        }),
{
}

/// A fresh import starts private: no prices are fetched and notifications are as
/// before any choice, whatever the wallet before it had chosen.
pub proof fn a_fresh_import_starts_private(s: State, meta: Meta, passphrase: String)
    ensures
        ({
            let after = s.imported(meta, passphrase);
            &&& !price::may_fetch(
                after.fiat_enabled,
                after.session_locked,
                after.meta is Some,
            )
            &&& !after.discreet
            &&& after.notifications_enabled
        }),
{
}

/// No operation on the wallet leaves a sync status with two causes.
pub proof fn statuses_keep_one_cause(
    s: State,
    meta: Meta,
    passphrase: String,
    keep_session: bool,
    seen: Set<Seq<char>>,
    state: SyncState,
)
    requires
        s.sync.one_cause(),
    ensures
        s.imported(meta, passphrase).sync.one_cause(),
        s.unlocked(passphrase).sync.one_cause(),
        s.switching().selected(meta, seen).sync.one_cause(),
        s.on_new_server().sync.one_cause(),
        s.wiped(keep_session).sync.one_cause(),
        s.in_sync_state(state).sync.one_cause(),
{
}

/// A wallet's name is never blank and never longer than allowed, and a name that is
/// short and has no white space around it is kept as it is.
pub proof fn labels_are_trimmed_and_short(label: Seq<char>)
    ensures
        label_of(label) matches Some(name) ==> 0 < name.len() <= LABEL_MAX,
        0 < label.len() <= LABEL_MAX && text::trimmed(label) == label ==> label_of(label) == Some(
            label,
        ),
{
    assert(label.take(label.len() as int) =~= label);
}

// ---------------------------------------------------------------------------
// What each operation changes, and what it leaves alone
// ---------------------------------------------------------------------------

/// A generation that was bumped: the next one, and the first again behind the last.
pub open spec fn is_next_generation(before: u64, after: u64) -> bool {
    after == if before == 0xffff_ffff_ffff_ffff {
        0
    } else {
        before + 1
    }
}

/// A daemon that has just started knows its paths, the transactions seen and the prices,
/// and nothing of a wallet: none is open, none is locked, and no passphrase is held.
pub proof fn a_fresh_daemon_knows_no_wallet(
    layout: paths::Layout,
    seen: Set<Seq<char>>,
    prices: PriceCache,
)
    ensures
        ({
            let s = State::fresh(layout, seen, prices);
            &&& s.paths == layout
            &&& s.price_cache == prices
            &&& s.notify.seen == seen
            &&& !s.notify.live
            &&& !s.client_open
            &&& s.meta is None
            &&& s.sync == SyncStatus::fresh()
            &&& s.txs.len() == 0 && s.balance is None && s.addresses.len() == 0 && s.notes.len()
                == 0
            &&& !s.unreachable_notified && !s.wrong_chain_notified
            &&& s.notifications_enabled && !s.fiat_enabled && !s.discreet
            &&& s.generation == 0 && !s.following
            &&& !s.session_locked && !s.encrypted && s.session_passphrase is None
            &&& s.subscribers == 0 && !s.shutdown_armed
        }),
{
}

/// A wallet's own settings come into force with it, each as its metadata has it, and
/// nothing else changes; opening it makes it the wallet at hand.
pub proof fn a_wallet_brings_its_own_settings(s: State, meta: Meta)
    ensures
        ({
            let after = s.with_settings(meta);
            &&& after.encrypted == meta.encrypted
            &&& after.notifications_enabled == meta.notifications_enabled
            &&& after.fiat_enabled == meta.fiat_enabled
            &&& after.discreet == meta.discreet
            &&& after == (State {
                encrypted: after.encrypted,
                notifications_enabled: after.notifications_enabled,
                fiat_enabled: after.fiat_enabled,
                discreet: after.discreet,
                ..s
            })
        }),
        ({
            let after = s.with_wallet(meta);
            &&& after.client_open
            &&& after.meta == Some(meta)
            &&& after == (State { client_open: true, meta: after.meta, ..s })
        }),
{
}

/// While wallets are switched the present one is closed, its loop retired and every read
/// cache emptied; the session, its passphrase and the metadata stay until the other one is
/// there.
pub proof fn a_switch_closes_the_present_wallet(s: State)
    ensures
        ({
            let after = s.switching();
            &&& !after.client_open
            &&& !after.following
            &&& is_next_generation(s.generation, after.generation)
            &&& after.txs.len() == 0 && after.balance is None && after.addresses.len() == 0
                && after.notes.len() == 0
            &&& after == (State {
                client_open: after.client_open,
                following: after.following,
                generation: after.generation,
                txs: after.txs,
                balance: after.balance,
                addresses: after.addresses,
                notes: after.notes,
                ..s
            })
        }),
{
}

/// A selected wallet starts over with its own settings and what was seen of it: a fresh
/// status, both alerts armed, and its Initial scan not yet over. The session is locked
/// exactly where the wallet is encrypted, whose metadata is then at hand already. The
/// session's passphrase stays.
pub proof fn a_selected_wallet_starts_over(s: State, meta: Meta, seen: Set<Seq<char>>)
    ensures
        ({
            let after = s.selected(meta, seen);
            &&& after.sync == SyncStatus::fresh()
            &&& after.notify.seen == seen
            &&& !after.notify.live
            &&& after.session_locked == meta.encrypted
            &&& meta.encrypted ==> after.meta == Some(meta)
            &&& !meta.encrypted ==> after.meta == s.meta
            &&& after.encrypted == meta.encrypted
            &&& after.notifications_enabled == meta.notifications_enabled
            &&& after.fiat_enabled == meta.fiat_enabled
            &&& after.discreet == meta.discreet
            &&& !after.unreachable_notified && !after.wrong_chain_notified
            &&& after == (State {
                sync: after.sync,
                notify: after.notify,
                session_locked: after.session_locked,
                meta: after.meta,
                encrypted: after.encrypted,
                notifications_enabled: after.notifications_enabled,
                fiat_enabled: after.fiat_enabled,
                discreet: after.discreet,
                unreachable_notified: false,
                wrong_chain_notified: false,
                ..s
            })
        }),
{
}

/// An import leaves its own wallet open and unlocked, encrypted with its passphrase, which
/// the session then holds, with nothing seen and nothing synced, and with the choices of a
/// new user; the loop of before is retired. The prices, the subscribers and the paths stay.
pub proof fn an_import_is_the_wallet_at_hand(s: State, meta: Meta, passphrase: String)
    ensures
        ({
            let after = s.imported(meta, passphrase);
            &&& after.meta == Some(meta)
            &&& after.client_open
            &&& after.session_passphrase == Some(passphrase)
            &&& after.encrypted
            &&& !after.session_locked
            &&& after.notifications_enabled && !after.fiat_enabled && !after.discreet
            &&& after.sync == SyncStatus::fresh()
            &&& after.notify == notify::Policy::fresh()
            &&& !after.following
            &&& is_next_generation(s.generation, after.generation)
            &&& after == (State {
                meta: after.meta,
                client_open: true,
                session_passphrase: after.session_passphrase,
                encrypted: true,
                session_locked: false,
                notifications_enabled: true,
                fiat_enabled: false,
                discreet: false,
                sync: after.sync,
                notify: after.notify,
                following: false,
                generation: after.generation,
                ..s
            })
        }),
{
}

/// Unlocking opens the wallet at hand and holds the passphrase that opened it; its
/// metadata, settings and what was seen of it stay, and it is idle with the loop of before
/// retired.
pub proof fn unlocking_opens_the_wallet_at_hand(s: State, passphrase: String)
    ensures
        ({
            let after = s.unlocked(passphrase);
            &&& after.client_open
            &&& !after.session_locked
            &&& after.session_passphrase == Some(passphrase)
            &&& after.sync == (SyncStatus { state: SyncState::Idle, ..s.sync })
            &&& !after.following
            &&& is_next_generation(s.generation, after.generation)
            &&& after == (State {
                client_open: true,
                session_locked: false,
                session_passphrase: after.session_passphrase,
                sync: after.sync,
                following: false,
                generation: after.generation,
                ..s
            })
        }),
{
}

/// Removing a wallet leaves nothing of it: no metadata, no status, no seen transaction, no
/// cached read, no lock and no choice but that of notifications. Its passphrase goes too,
/// unless it is kept for the wallet that replaces it. The prices, the subscribers and the
/// paths stay.
pub proof fn a_removal_wipes_the_wallet_alone(s: State, keep_session: bool)
    ensures
        ({
            let after = s.wiped(keep_session);
            &&& after.meta is None && !after.client_open
            &&& !after.session_locked && !after.encrypted
            &&& !after.fiat_enabled && !after.discreet
            &&& after.sync == SyncStatus::fresh()
            &&& after.notify == notify::Policy::fresh()
            &&& after.txs.len() == 0 && after.balance is None && after.addresses.len() == 0
                && after.notes.len() == 0
            &&& keep_session ==> after.session_passphrase == s.session_passphrase
            &&& !keep_session ==> after.session_passphrase is None
            &&& !after.following
            &&& is_next_generation(s.generation, after.generation)
            &&& after == (State {
                meta: None,
                client_open: false,
                session_locked: false,
                encrypted: false,
                fiat_enabled: false,
                discreet: false,
                sync: after.sync,
                notify: after.notify,
                txs: after.txs,
                balance: None,
                addresses: after.addresses,
                notes: after.notes,
                session_passphrase: after.session_passphrase,
                following: false,
                generation: after.generation,
                ..s
            })
        }),
{
}

/// Asking for a sync starts a new loop and retires the one of before: the wallet follows
/// the tip and is syncing, with both alerts armed. Nothing else changes.
pub proof fn asking_for_a_sync_starts_a_new_loop(s: State)
    ensures
        ({
            let after = s.tip_following();
            &&& after.following
            &&& is_next_generation(s.generation, after.generation)
            &&& !after.unreachable_notified && !after.wrong_chain_notified
            &&& after.sync == (SyncStatus { state: SyncState::Syncing, ..s.sync })
            &&& after == (State {
                following: true,
                generation: after.generation,
                unreachable_notified: false,
                wrong_chain_notified: false,
                sync: after.sync,
                ..s
            })
        }),
{
}

/// A change of server clears the error and its cause and arms both alerts; the loop that
/// runs goes on running, and where none does the wallet is idle. What was synced stays.
pub proof fn a_new_server_gets_a_clean_slate(s: State)
    ensures
        ({
            let after = s.on_new_server();
            &&& after.sync.error is None && !after.sync.unreachable && !after.sync.wrong_chain
            &&& after.sync.state == SyncState::Syncing <==> s.following
            &&& after.sync.state == SyncState::Idle <==> !s.following
            &&& after.sync == (SyncStatus {
                state: after.sync.state,
                error: None,
                unreachable: false,
                wrong_chain: false,
                ..s.sync
            })
            &&& !after.unreachable_notified && !after.wrong_chain_notified
            &&& after == (State {
                sync: after.sync,
                unreachable_notified: false,
                wrong_chain_notified: false,
                ..s
            })
        }),
        s.rearmed() == (State { unreachable_notified: false, wrong_chain_notified: false, ..s }),
{
}

/// The Initial scan ends where the wallet's metadata says, and at once for a daemon that
/// has none.
pub proof fn the_target_is_the_wallets_own(s: State)
    ensures
        s.meta matches Some(m) ==> s.target() == m.scan_target_height,
        s.meta is None ==> s.target() == 0,
{
}

/// A passphrase is the session's exactly where the session holds it, letter for letter; a
/// wallet that is not encrypted needs none to be entered again.
pub proof fn only_the_held_passphrase_reenters(s: State, passphrase: Seq<char>)
    ensures
        s.knows_passphrase(passphrase) <==> s.session_passphrase is Some
            && s.session_passphrase->0@ == passphrase,
        s.reenters(passphrase) <==> (s.meta matches Some(m) && m.encrypted ==> s.session_passphrase
            is Some && s.session_passphrase->0@ == passphrase),
{
}

/// Saved metadata is the metadata at hand, in the active wallet's own file.
pub proof fn metadata_is_saved_as_it_is(s: State, active: Option<Seq<char>>, save: MetaSave)
    requires
        s.saved_by(active, save),
    ensures
        s.meta == Some(save.meta),
        active matches Some(id) ==> save.file@ == s.paths.scoped(id).meta_file,
        active is None ==> save.file@ == s.paths.meta_file,
{
}

/// The GUI sees the wallet at hand: each of its fields as its metadata has it, whether the
/// session is locked and whether a passphrase is held. Without a wallet it sees that there
/// is none.
pub proof fn the_gui_sees_the_wallet_at_hand(r: WalletState, s: State, active: Option<Seq<char>>)
    requires
        shows_state(r, s, active),
    ensures
        r.exists <==> s.meta is Some,
        r.session_held <==> s.session_passphrase is Some,
        s.meta matches Some(m) ==> {
            &&& r.locked == s.session_locked
            &&& ipc::text_view(r.wallet_id) == active
            &&& ipc::text_view(r.label) == ipc::text_view(m.label)
            &&& ipc::text_view(r.fingerprint) == ipc::text_view(m.fingerprint)
            &&& r.import_type == m.import_type
            &&& r.view_mode == m.view_mode
            &&& r.network == m.network
            &&& r.birthday_height == m.birthday_height
            &&& r.indexer_uri@ == m.indexer_uri@
            &&& r.notifications_enabled == m.notifications_enabled
            &&& r.fiat_enabled == m.fiat_enabled
            &&& r.discreet == m.discreet
        },
        s.meta is None ==> {
            &&& !r.locked
            &&& r.wallet_id is None && r.label is None && r.fingerprint is None
            &&& r.import_type == ImportType::Ufvk && r.view_mode == ViewMode::Full
            &&& r.network == Network::Mainnet && r.birthday_height == 0
            &&& r.indexer_uri@.len() == 0
            &&& r.notifications_enabled && !r.fiat_enabled && !r.discreet
        },
{
    reveal_strlit("");
}

/// Each wallet on disk whose metadata is there is one row of the list, behind those of the
/// wallets before it, and the row is its own: its id, network, birthday and fingerprint,
/// and active exactly where it is the active one. A wallet without metadata has none.
pub proof fn a_wallet_on_disk_is_one_row(
    rows: Seq<WalletSummary>,
    found: Seq<Found>,
    w: Found,
    active: Option<Seq<char>>,
)
    requires
        summary_views(rows) == summaries(found.push(w), active),
    ensures
        found.len() == 0 ==> summaries(found, active).len() == 0,
        match w.meta {
            Ok(Some(meta)) => {
                let row = rows.last();
                &&& rows.len() > 0
                &&& summary_views(rows.drop_last()) == summaries(found, active)
                &&& row.id@ == w.id@
                &&& row.network == meta.network
                &&& row.birthday_height == meta.birthday_height
                &&& ipc::text_view(row.fingerprint) == ipc::text_view(meta.fingerprint)
                &&& row.active <==> active == Some(w.id@)
                &&& row.label@ == display_name(
                    ipc::text_view(meta.label),
                    ipc::text_view(meta.fingerprint),
                    w.id@,
                )
            },
            _ => summary_views(rows) == summaries(found, active),
        },
{
    assert(found.push(w).drop_last() =~= found);
    assert(summary_views(rows).len() == rows.len());
    let (before, after) = (summaries(found, active), summaries(found.push(w), active));
    if let Ok(Some(meta)) = w.meta {
        assert(summary_views(rows.drop_last()) =~= after.drop_last());
        assert(after.drop_last() =~= before);
        assert(summary_views(rows)[rows.len() - 1] == rows.last()@);
    }
}

/// A wallet goes by the name it was given, without the white space around it; without one,
/// or with a blank one, by the first eight characters of its fingerprint, and without that
/// by those of its id.
pub proof fn a_wallet_goes_by_its_own_name(
    label: Option<Seq<char>>,
    fingerprint: Option<Seq<char>>,
    id: Seq<char>,
)
    ensures
        ({
            let name = display_name(label, fingerprint, id);
            let named = label matches Some(l) && !text::is_blank(l);
            let long = if fingerprint is Some {
                fingerprint->0
            } else {
                id
            };
            &&& named ==> name == text::trimmed(label->0)
            &&& !named ==> name == text::first_chars(long, 8)
        }),
{
}

/// The list of wallets fails exactly where the metadata of one could not be loaded, with
/// the words of the first such one.
pub proof fn the_first_load_error_is_told(found: Seq<Found>)
    ensures
        match first_load_error(found) {
            Some(e) => exists|i: int|
                #![trigger found[i]]
                0 <= i < found.len() && found[i].meta is Err && found[i].meta->Err_0@ == e
                    && forall|k: int| 0 <= k < i ==> (#[trigger] found[k]).meta is Ok,
            None => forall|k: int| 0 <= k < found.len() ==> (#[trigger] found[k]).meta is Ok,
        },
    decreases found.len(),
{
    if found.len() > 0 {
        let before = found.drop_last();
        the_first_load_error_is_told(before);
        assert(forall|k: int| 0 <= k < before.len() ==> #[trigger] found[k] == before[k]);
        if let Some(e) = first_load_error(before) {
            let i = choose|i: int|
                #![trigger before[i]]
                0 <= i < before.len() && before[i].meta is Err && before[i].meta->Err_0@ == e
                    && forall|k: int| 0 <= k < i ==> (#[trigger] before[k]).meta is Ok;
            assert(found[i] == before[i]);
        } else {
            assert(found[found.len() - 1] == found.last());
        }
    }
}

/// Every address that the wallet lists in full is shown once, in the wallet's order; the
/// transparent address stands beside the one at the head of the list and beside no other.
pub proof fn each_address_is_shown_once(
    rows: Seq<WalletAddress>,
    unified: Seq<Option<String>>,
    next: Option<String>,
    transparent: Option<Seq<char>>,
)
    requires
        address_views(rows) == shown_addresses(unified.push(next), transparent),
    ensures
        unified.len() == 0 ==> shown_addresses(unified, transparent).len() == 0,
        match next {
            Some(ua) => {
                &&& rows.len() > 0
                &&& address_views(rows.drop_last()) == shown_addresses(unified, transparent)
                &&& rows.last().ua@ == ua@
                &&& unified.len() == 0 ==> ipc::text_view(rows.last().transparent) == transparent
                &&& unified.len() > 0 ==> rows.last().transparent is None
            },
            None => address_views(rows) == shown_addresses(unified, transparent),
        },
{
    assert(unified.push(next).drop_last() =~= unified);
    assert(address_views(rows).len() == rows.len());
    let before = shown_addresses(unified, transparent);
    let after = shown_addresses(unified.push(next), transparent);
    if next is Some {
        assert(address_views(rows.drop_last()) =~= after.drop_last());
        assert(after.drop_last() =~= before);
        assert(address_views(rows)[rows.len() - 1] == rows.last()@);
    }
}

/// A setting that is turned on or off changes itself alone.
pub proof fn a_setting_changes_itself_alone(meta: Meta, setting: Setting, enabled: bool)
    ensures
        ({
            let after = with_setting(meta, setting, enabled);
            &&& setting == Setting::Notifications ==> after.notifications_enabled == enabled
                && after == (Meta { notifications_enabled: after.notifications_enabled, ..meta })
            &&& setting == Setting::Fiat ==> after.fiat_enabled == enabled && after == (Meta {
                fiat_enabled: after.fiat_enabled,
                ..meta
            })
            &&& setting == Setting::Discreet ==> after.discreet == enabled && after == (Meta {
                discreet: after.discreet,
                ..meta
            })
        }),
{
}

/// A label gives a wallet a name exactly where it is not blank: the beginning of it, up to
/// sixty-four characters, without the white space around it.
pub proof fn a_label_is_kept_from_its_start(label: Seq<char>)
    ensures
        label_of(label) is None <==> text::is_blank(label),
        label_of(label) matches Some(name) ==> name == text::first_chars(
            text::trimmed(label),
            64,
        ),
{
}

/// A history on the wire has each transaction once, in its order, with its own text and
/// with the net change it brings: the value of its notes and coins less that of the notes
/// and coins of the history that it spent in a block.
pub proof fn each_transaction_shows_its_net_change(
    txs: Seq<Tx>,
    history: Seq<TransactionSummary>,
    i: int,
)
    requires
        tx_views(txs) == shown_history(history),
        0 <= i < history.len(),
    ensures
        txs.len() == history.len(),
        txs[i].txid@ == history[i].txid.text(),
        txs[i]@ == history[i].shown(text::signed_value(txs[i].net_zat@)),
        text::signed_value(txs[i].net_zat@) == tx::outputs_sum(history[i], tx::in_any_state())
            - tx::history_sum(history, tx::by_tx(history[i].txid.text())),
{
    assert(tx_views(txs).len() == txs.len());
    assert(shown_history(history).len() == history.len());
    assert(tx_views(txs)[i] == txs[i]@);
    let net = tx::net_of(history[i], history);
    assert(shown_history(history)[i] == history[i].shown(net));
    tx::a_tx_tells_its_summary(txs[i], history[i], net);
    tx::what_is_gained_was_received(history[i]);
    tx::what_is_lost_was_spent(history, history[i].txid.text());
}

/// The sum of the net changes that the first transactions of a list show.
pub open spec fn shown_nets(txs: Seq<Tx>) -> int
    decreases txs.len(),
{
    if txs.len() == 0 {
        0
    } else {
        shown_nets(txs.drop_last()) + text::signed_value(txs.last().net_zat@)
    }
}

proof fn shown_nets_add_up(
    txs: Seq<Tx>,
    part: Seq<TransactionSummary>,
    history: Seq<TransactionSummary>,
)
    requires
        txs.len() == part.len(),
        forall|i: int|
            0 <= i < part.len() ==> text::signed_value((#[trigger] txs[i]).net_zat@)
                == tx::net_of(part[i], history),
    ensures
        shown_nets(txs) == tx::net_sum(part, history),
    decreases txs.len(),
{
    if txs.len() > 0 {
        let (t, p) = (txs.drop_last(), part.drop_last());
        assert forall|i: int| 0 <= i < p.len() implies text::signed_value(
            (#[trigger] t[i]).net_zat@,
        ) == tx::net_of(p[i], history) by {
            assert(t[i] == txs[i] && p[i] == part[i]);
        }
        shown_nets_add_up(t, p, history);
        assert(txs[txs.len() - 1] == txs.last());
    }
}

/// What the GUI reads adds up to the balance: the net changes that the transactions of a
/// whole history show come to the value of exactly those notes and coins, in every pool,
/// that no block holds a spend of.
pub proof fn the_shown_history_ends_on_the_balance(
    txs: Seq<Tx>,
    history: Seq<TransactionSummary>,
)
    requires
        tx_views(txs) == shown_history(history),
        tx::distinct_txids(history),
        tx::spends_known_in(history, history),
    ensures
        shown_nets(txs) == tx::history_sum(history, tx::in_no_block()),
{
    assert(tx_views(txs).len() == txs.len());
    assert(shown_history(history).len() == history.len());
    assert forall|i: int| 0 <= i < history.len() implies text::signed_value(
        (#[trigger] txs[i]).net_zat@,
    ) == tx::net_of(history[i], history) by {
        assert(tx_views(txs)[i] == txs[i]@);
        let net = tx::net_of(history[i], history);
        assert(shown_history(history)[i] == history[i].shown(net));
        tx::a_tx_tells_its_summary(txs[i], history[i], net);
    }
    shown_nets_add_up(txs, history, history);
    tx::the_history_ends_on_what_is_unspent(history);
}

// ---------------------------------------------------------------------------
// What the service hands out
// ---------------------------------------------------------------------------

/// The history that is built of what the wallet reports adds up to the balance.
pub proof fn the_history_built_ends_on_the_balance(
    history: Vec<TransactionSummary>,
    txs: Vec<Tx>,
)
    requires
        call_ensures(map_history, (&history,), txs),
        tx::distinct_txids(history@),
        tx::spends_known_in(history@, history@),
    ensures
        txs@.len() == history@.len(),
        shown_nets(txs@) == tx::history_sum(history@, tx::in_no_block()),
{
    assert(tx_views(txs@).len() == txs@.len());
    assert(shown_history(history@).len() == history@.len());
    the_shown_history_ends_on_the_balance(txs@, history@);
}

/// The state handed to the GUI is that of the wallet at hand, and a daemon whose session is
/// locked says so.
pub proof fn the_state_handed_out_is_the_wallets(
    service: WalletService,
    active: FileRead,
    r: WalletState,
)
    requires
        call_ensures(WalletService::wallet_state, (&service, &active), r),
    ensures
        shows_state(r, service@, paths::active_id_or_none(active)),
        r.exists <==> service.meta is Some,
        service.meta is Some ==> r.locked == service.session_locked,
        service.meta matches Some(m) ==> r.network == m.network && r.birthday_height
            == m.birthday_height && r.indexer_uri@ == m.indexer_uri@ && r.discreet == m.discreet
            && r.fiat_enabled == m.fiat_enabled && r.notifications_enabled
            == m.notifications_enabled,
        r.session_held <==> service.session_passphrase is Some,
{
    the_gui_sees_the_wallet_at_hand(r, service@, paths::active_id_or_none(active));
}

/// A wallet is opened where it lies, on its own network, from its own server wherever that
/// is an address at all, and as it was asked for.
pub proof fn a_wallet_is_opened_where_it_lies(
    service: WalletService,
    active: FileRead,
    network: Network,
    indexer_uri: &str,
    default_uri: &str,
    wallet: WalletConfig,
    r: ClientConfig,
)
    requires
        call_ensures(
            WalletService::client_config,
            (&service, &active, network, indexer_uri, default_uri, wallet),
            r,
        ),
    ensures
        r.network == network,
        r.wallet == wallet,
        uri::is_uri(indexer_uri@) ==> r.indexer_uri@ == indexer_uri@,
        !uri::is_uri(indexer_uri@) ==> r.indexer_uri@ == default_uri@,
        paths::active_id_or_none(active) matches Some(id) ==> r.wallet_dir@
            == service.paths@.scoped(id).wallet_dir,
        paths::active_id_or_none(active) is None ==> r.wallet_dir@ == service.paths.wallet_dir@,
{
}

/// A name that was given to a wallet is saved in that wallet's own file, beside all the
/// rest of its metadata as it was.
pub proof fn a_name_is_saved_with_its_own_wallet(
    service: WalletService,
    id: &str,
    label: &str,
    meta: Meta,
    save: MetaSave,
)
    requires
        call_ensures(
            WalletService::set_wallet_label,
            (&service, id, label, Ok::<Option<Meta>, String>(Some(meta))),
            Ok::<MetaSave, String>(save),
        ),
    ensures
        save.file@ == service.paths@.scoped(id@).meta_file,
        save.meta == (Meta { label: save.meta.label, ..meta }),
        text::is_blank(label@) <==> save.meta.label is None,
        save.meta.label matches Some(name) ==> name@ == text::first_chars(
            text::trimmed(label@),
            64,
        ),
{
}

/// What is deleted with a wallet is that wallet's own: its metadata, its directory, and
/// where it is the active one the directory of its id and the file that names it.
pub proof fn only_the_active_wallet_is_deleted(
    service: WalletService,
    active: FileRead,
    r: Removal,
)
    requires
        call_ensures(WalletService::removal, (&service, &active), r),
    ensures
        match paths::active_id_or_none(active) {
            Some(id) => {
                &&& r.meta_file@ == service.paths@.scoped(id).meta_file
                &&& r.wallet_dir@ == service.paths@.scoped(id).wallet_dir
                &&& r.active is Some
                &&& r.active->0.dir@ == service.paths.platform.within(
                    service.paths.wallets_dir@,
                    id,
                )
                &&& r.active->0.id_file@ == service.paths.active_id_file@
            },
            None => r.meta_file@ == service.paths.meta_file@ && r.wallet_dir@
                == service.paths.wallet_dir@ && r.active is None,
        },
{
}

/// A sync selects a wallet first exactly where an id was sent that is not the active one's,
/// and then that very wallet.
pub proof fn a_sync_selects_the_wallet_asked_for(
    service: WalletService,
    active: FileRead,
    id: Option<String>,
    plan: SyncPlan,
)
    requires
        call_ensures(WalletService::sync_plan, (&service, &active, id), plan),
    ensures
        plan is Select <==> id is Some && paths::active_id_or_none(active) != Some(id->0@),
        plan matches SyncPlan::Select { id: chosen } ==> chosen@ == id->0@,
{
}

/// A passphrase is verified exactly where it is the one the session holds.
pub proof fn only_the_held_passphrase_verifies(
    service: WalletService,
    passphrase: &str,
    r: bool,
)
    requires
        call_ensures(WalletService::verify_passphrase, (&service, passphrase), r),
    ensures
        r <==> service.session_passphrase is Some && service.session_passphrase->0@ == passphrase@,
{
}

/// What is said of the service is said of what it holds.
pub proof fn a_service_is_what_it_holds(service: WalletService)
    ensures
        service@.paths == service.paths@,
        service@.client_open == service.client_open,
        service@.meta == service.meta,
        service@.sync == service.sync,
        service@.txs == service.txs@,
        service@.balance == service.balance,
        service@.addresses == service.addresses@,
        service@.notes == service.notes@,
        service@.notify == service.notify@,
        service@.unreachable_notified == service.unreachable_notified,
        service@.wrong_chain_notified == service.wrong_chain_notified,
        service@.notifications_enabled == service.notifications_enabled,
        service@.fiat_enabled == service.fiat_enabled,
        service@.discreet == service.discreet,
        service@.price_cache == service.price_cache,
        service@.generation == service.generation,
        service@.following == service.following,
        service@.session_locked == service.session_locked,
        service@.encrypted == service.encrypted,
        service@.subscribers == service.subscribers,
        service@.session_passphrase == service.session_passphrase,
        service@.shutdown_armed == service.shutdown_armed,
{
}

// ---------------------------------------------------------------------------
// What a call changes
// ---------------------------------------------------------------------------

/// The notes handed out are those of the open wallet's outputs, or the last ones that were
/// built where its lock is not to be had; without an open wallet there are none. What was
/// built is kept for the next time, and nothing else changes.
pub proof fn the_notes_are_live_or_the_last_ones(read: NotesRead)
    ensures
        forall|m: &mut WalletService, r: Vec<WalletNote>| #[trigger]
            call_ensures(WalletService::collect_notes, (m, read), r) ==> {
                let (before, after) = (*m, *final(m));
                &&& !before.client_open ==> r@.len() == 0 && after@ == before@
                &&& before.client_open && read is Busy ==> r@ == before.notes@ && after@ == before@
                &&& before.client_open ==> (read matches NotesRead::Outputs(outputs) ==> {
                    &&& notes::row_views(r@) == outputs.rows()
                    &&& after.notes@ == r@
                })
                &&& after@ == (State { notes: after.notes@, ..before@ })
            },
{
}

/// A snapshot replaces what it could read of an open wallet, and leaves what it could not
/// as it was; a closed one is left alone. Nothing but the cached reads changes.
pub proof fn a_failed_read_keeps_the_last_one(snapshot: Snapshot)
    ensures
        forall|m: &mut WalletService| #[trigger]
            call_ensures(WalletService::refresh_snapshot, (m, snapshot), ()) ==> {
                let (before, after) = (*m, *final(m));
                &&& !before.client_open ==> after@ == before@
                &&& snapshot.summaries is None ==> after.txs@ == before.txs@
                &&& before.client_open ==> (snapshot.summaries matches Some(history) ==> tx_views(
                    after.txs@,
                ) == shown_history(history@))
                &&& snapshot.balance is None ==> after.balance == before.balance
                &&& before.client_open ==> (snapshot.balance matches Some(bal)
                    ==> after.balance is Some && notes::shows_balance(after.balance->0, bal))
                &&& before.client_open ==> address_views(after.addresses@) == shown_addresses(
                    snapshot.unified@,
                    ipc::text_view(snapshot.transparent),
                )
                &&& after@ == (State {
                    txs: after.txs@,
                    balance: after.balance,
                    addresses: after.addresses@,
                    ..before@
                })
            },
{
}

/// The session opens by its passphrase alone: with the wallet open, the lock falls exactly
/// where the passphrase is the one held, or the wallet needs none; a wallet that is not
/// open is to be opened with it, and stays locked until then. Nothing else changes.
pub proof fn the_session_opens_by_its_passphrase(passphrase: &str)
    ensures
        forall|m: &mut WalletService, r: Result<Unlock, String>| #[trigger]
            call_ensures(WalletService::unlock, (m, passphrase), r) ==> {
                let (before, after) = (*m, *final(m));
                let right = (before.meta matches Some(meta) && meta.encrypted)
                    ==> before.session_passphrase is Some && before.session_passphrase->0@
                    == passphrase@;
                &&& r == Ok::<Unlock, String>(Unlock::Done) <==> before.client_open && right
                &&& r == Ok::<Unlock, String>(Unlock::Open) <==> !before.client_open
                    && before.meta is Some
                &&& r == Ok::<Unlock, String>(Unlock::Done) ==> !after.session_locked
                &&& r != Ok::<Unlock, String>(Unlock::Done) ==> after@ == before@
                &&& after@ == (State { session_locked: after.session_locked, ..before@ })
            },
{
}

/// A sync starts exactly where a wallet is open; refused, it changes nothing.
pub proof fn only_an_open_wallet_is_synced()
    ensures
        forall|m: &mut WalletService, r: Result<SyncStatus, String>| #[trigger]
            call_ensures(WalletService::sync_wallet, (m,), r) ==> {
                let (before, after) = (*m, *final(m));
                &&& r is Ok <==> before.client_open
                &&& r is Err ==> after@ == before@
                &&& r matches Ok(status) ==> {
                    &&& status.state == SyncState::Syncing
                    &&& after.following
                    &&& after.generation != before.generation
                    &&& after.meta == before.meta && after.client_open
                }
            },
{
}

/// Selecting a wallet that is there closes the present one, and asking for one that is not
/// there changes nothing.
pub proof fn only_a_wallet_that_is_there_is_selected(
    id: &str,
    loaded: Result<Option<Meta>, String>,
)
    ensures
        forall|m: &mut WalletService, r: Result<Meta, String>| #[trigger]
            call_ensures(WalletService::select_wallet, (m, id, loaded), r) ==> {
                let (before, after) = (*m, *final(m));
                &&& r is Ok <==> loaded is Ok && loaded->Ok_0 is Some
                &&& r is Ok ==> r->Ok_0 == loaded->Ok_0->0 && !after.client_open
                    && !after.following && after.txs@.len() == 0 && after.notes@.len() == 0
                    && after.balance is None
                &&& r is Err ==> after@ == before@
            },
{
}

/// The wallet that was selected and opened is the one at hand, with its own settings; an
/// encrypted one is locked and awaits its passphrase.
pub proof fn the_selected_wallet_is_at_hand(meta: Meta, seen: Vec<String>)
    ensures
        forall|m: &mut WalletService, r: Option<Meta>| #[trigger]
            call_ensures(WalletService::wallet_selected, (m, meta, seen), r) ==> {
                let after = *final(m);
                &&& r is Some <==> !meta.encrypted
                &&& r matches Some(to_open) ==> to_open == meta
                &&& after.session_locked == meta.encrypted
                &&& meta.encrypted ==> after.meta == Some(meta)
                &&& after.notifications_enabled == meta.notifications_enabled
                    && after.fiat_enabled == meta.fiat_enabled && after.discreet == meta.discreet
                    && after.encrypted == meta.encrypted
                &&& after.notify@.seen == notify::text_set(seen@) && !after.notify@.live
                &&& after.sync == SyncStatus::fresh()
            },
        forall|m: &mut WalletService| #[trigger]
            call_ensures(WalletService::wallet_opened, (m, meta), ()) ==> (*final(m)).client_open
                && (*final(m)).meta == Some(meta),
        forall|m: &mut WalletService, opened: bool| #[trigger]
            call_ensures(WalletService::loaded, (m, meta, opened), ()) ==> {
                let (before, after) = (*m, *final(m));
                &&& opened ==> after.client_open && after.meta == Some(meta) && after.sync.state
                    == SyncState::Idle && after.following == before.following
                &&& !opened ==> after@ == before@
            },
{
}

/// The choice of notifications goes into the metadata first, which is saved in the active
/// wallet's file; nothing else changes. Without a wallet there is nothing to set.
pub proof fn the_choice_of_notifications_is_saved(active: FileRead, enabled: bool)
    ensures
        forall|m: &mut WalletService, r: Result<MetaSave, String>| #[trigger]
            call_ensures(WalletService::set_notifications, (m, &active, enabled), r) ==> {
                let (before, after) = (*m, *final(m));
                &&& r is Ok <==> before.meta is Some
                &&& r is Ok ==> r->Ok_0.meta == (Meta { notifications_enabled: enabled, ..before.meta->0 })
                    && after.meta == Some(r->Ok_0.meta) && r->Ok_0.file@ == before.paths@.active(
                    paths::active_id_or_none(active),
                ).meta_file
                &&& after@ == (State { meta: after.meta, ..before@ })
            },
{
}

/// The choice of prices goes into the metadata first, which is saved in the active wallet's
/// file; nothing else changes. Without a wallet there is nothing to set.
pub proof fn the_choice_of_prices_is_saved(active: FileRead, enabled: bool)
    ensures
        forall|m: &mut WalletService, r: Result<MetaSave, String>| #[trigger]
            call_ensures(WalletService::set_fiat_enabled, (m, &active, enabled), r) ==> {
                let (before, after) = (*m, *final(m));
                &&& r is Ok <==> before.meta is Some
                &&& r is Ok ==> r->Ok_0.meta == (Meta { fiat_enabled: enabled, ..before.meta->0 })
                    && after.meta == Some(r->Ok_0.meta) && r->Ok_0.file@ == before.paths@.active(
                    paths::active_id_or_none(active),
                ).meta_file
                &&& after@ == (State { meta: after.meta, ..before@ })
            },
{
}

/// The choice of Discreet mode goes into the metadata first, which is saved in the active
/// wallet's file; nothing else changes. Without a wallet there is nothing to set.
pub proof fn the_choice_of_discreet_mode_is_saved(active: FileRead, enabled: bool)
    ensures
        forall|m: &mut WalletService, r: Result<MetaSave, String>| #[trigger]
            call_ensures(WalletService::set_discreet, (m, &active, enabled), r) ==> {
                let (before, after) = (*m, *final(m));
                &&& r is Ok <==> before.meta is Some
                &&& r is Ok ==> r->Ok_0.meta == (Meta { discreet: enabled, ..before.meta->0 })
                    && after.meta == Some(r->Ok_0.meta) && r->Ok_0.file@ == before.paths@.active(
                    paths::active_id_or_none(active),
                ).meta_file
                &&& after@ == (State { meta: after.meta, ..before@ })
            },
{
}

/// A setting comes into force once it is saved, itself alone; prices that were turned on are
/// fetched at once.
pub proof fn a_saved_setting_comes_into_force(setting: Setting, enabled: bool)
    ensures
        forall|m: &mut WalletService, r: bool| #[trigger]
            call_ensures(WalletService::setting_saved, (m, setting, enabled), r) ==> {
                let (before, after) = (*m, *final(m));
                &&& setting is Notifications ==> after@ == (State {
                    notifications_enabled: enabled,
                    ..before@
                })
                &&& setting is Fiat ==> after@ == (State { fiat_enabled: enabled, ..before@ })
                &&& setting is Discreet ==> after@ == (State { discreet: enabled, ..before@ })
                &&& r <==> setting is Fiat && enabled
            },
{
}

/// A saved name comes to hand exactly where it is the active wallet's.
pub proof fn a_saved_name_comes_to_hand_where_active(id: &str, active: FileRead, meta: Meta)
    ensures
        forall|m: &mut WalletService, r: Result<(), String>| #[trigger]
            call_ensures(WalletService::label_saved, (m, id, &active, meta), r) ==> {
                let (before, after) = (*m, *final(m));
                &&& r is Ok <==> !(active is Failed)
                &&& paths::active_id_or_none(active) == Some(id@) ==> after.meta == Some(meta)
                &&& paths::active_id_or_none(active) != Some(id@) ==> after@ == before@
                &&& after@ == (State { meta: after.meta, ..before@ })
            },
{
}

/// The lock is armed by a sign-out, and when the last subscriber of an encrypted wallet
/// leaves; neither closes the wallet. A shutdown is signalled once.
pub proof fn the_lock_is_armed_when_the_gui_leaves()
    ensures
        forall|m: &mut WalletService| #[trigger]
            call_ensures(WalletService::lock_session, (m,), ()) ==> (*final(m))@ == (State {
                session_locked: true,
                ..(*m)@
            }),
        forall|m: &mut WalletService| #[trigger]
            call_ensures(WalletService::subscriber_joined, (m,), ()) && (*m).subscribers
                < usize::MAX ==> (*final(m)).subscribers == (*m).subscribers + 1,
        forall|m: &mut WalletService| #[trigger]
            call_ensures(WalletService::subscriber_left, (m,), ()) ==> {
                let (before, after) = (*m, *final(m));
                &&& before.subscribers > 0 ==> after.subscribers == before.subscribers - 1
                &&& after.session_locked <==> before.session_locked || (before.subscribers == 1
                    && before.encrypted)
                &&& after.client_open == before.client_open && after.session_passphrase
                    == before.session_passphrase && after.following == before.following
            },
        forall|m: &mut WalletService, r: bool| #[trigger]
            call_ensures(WalletService::shutdown, (m,), r) ==> {
                let (before, after) = (*m, *final(m));
                r == before.shutdown_armed && !after.shutdown_armed
            },
        forall|m: &mut WalletService| #[trigger]
            call_ensures(WalletService::arm_shutdown, (m,), ()) ==> (*final(m)).shutdown_armed,
{
}

/// An unlocked wallet is open under the passphrase that opened it, and a removed one is
/// gone, with its passphrase unless it is to be kept.
pub proof fn unlocking_and_removing_do_as_told(passphrase: String, keep_session: bool)
    ensures
        forall|m: &mut WalletService| #[trigger]
            call_ensures(WalletService::unlocked, (m, passphrase), ()) ==> {
                let (before, after) = (*m, *final(m));
                &&& after.client_open && !after.session_locked
                &&& after.session_passphrase == Some(passphrase)
                &&& after.meta == before.meta && after.sync.state == SyncState::Idle
                    && !after.following && after.generation != before.generation
            },
        forall|m: &mut WalletService| #[trigger]
            call_ensures(WalletService::remove, (m, keep_session), ()) ==> {
                let (before, after) = (*m, *final(m));
                &&& after.meta is None && !after.client_open && !after.session_locked
                &&& after.txs@.len() == 0 && after.balance is None && after.notes@.len() == 0
                    && after.addresses@.len() == 0
                &&& keep_session ==> after.session_passphrase == before.session_passphrase
                &&& !keep_session ==> after.session_passphrase is None
                &&& !after.following && after.generation != before.generation
                &&& after.price_cache == before.price_cache
            },
{
}

/// A daemon that starts with a wallet on disk brings it up as it is: an encrypted one
/// locked and unopened, a plaintext one to be opened; and none of it where its metadata
/// could not be read.
pub proof fn a_wallet_on_disk_comes_up_as_it_is(
    layout: Paths,
    seen: Vec<String>,
    prices: PriceCache,
    meta: Result<Option<Meta>, String>,
    r: Result<(WalletService, Option<Meta>), String>,
)
    requires
        call_ensures(WalletService::load, (layout, seen, prices, meta), r),
    ensures
        r is Ok <==> meta is Ok,
        r is Ok ==> {
            let s = r->Ok_0.0;
            let to_open = r->Ok_0.1;
            &&& !s.client_open && !s.following && s.session_passphrase is None
            &&& s.paths@ == layout@ && s.price_cache == prices && s.notify@.seen
                == notify::text_set(seen@)
            &&& meta->Ok_0 matches Some(m) ==> {
                &&& s.session_locked == m.encrypted && s.encrypted == m.encrypted
                &&& m.encrypted ==> s.meta == Some(m) && to_open is None
                &&& !m.encrypted ==> to_open == Some(m)
                &&& s.notifications_enabled == m.notifications_enabled && s.fiat_enabled
                    == m.fiat_enabled && s.discreet == m.discreet
            }
            &&& meta->Ok_0 is None ==> s.meta is None && to_open is None && !s.session_locked
        },
{
}

/// A cached transaction is found by its txid, the first one where there are several.
pub proof fn a_cached_transaction_is_found(service: WalletService, txid: &str, r: Option<usize>)
    requires
        call_ensures(WalletService::find_tx, (&service, txid), r),
    ensures
        r matches Some(i) ==> {
            &&& i < service.txs@.len() && service.txs@[i as int].txid@ == txid@
            &&& forall|k: int| 0 <= k < i ==> (#[trigger] service.txs@[k]).txid@ != txid@
        },
        r is None ==> forall|k: int|
            0 <= k < service.txs@.len() ==> (#[trigger] service.txs@[k]).txid@ != txid@,
{
}

/// The balance handed out is the one last read, and none before; prices may be fetched for
/// an unlocked wallet whose user asked for them; a wallet's Initial scan ends where its
/// metadata says.
pub proof fn what_is_at_hand_is_handed_out(
    service: WalletService,
    balance: Balance,
    fetch: bool,
    locked: bool,
    target: u32,
)
    requires
        call_ensures(WalletService::get_balance, (&service,), balance),
        call_ensures(WalletService::may_fetch_prices, (&service,), fetch),
        call_ensures(WalletService::session_locked, (&service,), locked),
        call_ensures(WalletService::scan_target, (&service,), target),
    ensures
        service.balance matches Some(b) ==> balance == b,
        service.balance is None ==> balance.orchard is None && balance.sapling is None
            && balance.transparent is None && balance.ironwood is None,
        fetch <==> service.fiat_enabled && !service.session_locked && service.meta is Some,
        locked == service.session_locked,
        service.meta matches Some(m) ==> target == m.scan_target_height,
        service.meta is None ==> target == 0,
{
}

/// A wallet that is asked for is found exactly where its metadata loads, and one that is not
/// there is refused by its id.
pub proof fn a_missing_wallet_is_refused_by_its_id(
    id: &str,
    loaded: Result<Option<Meta>, String>,
    r: Result<Meta, String>,
)
    requires
        call_ensures(find_wallet, (id, loaded), r),
    ensures
        r is Ok <==> loaded is Ok && loaded->Ok_0 is Some,
        r is Ok ==> r->Ok_0 == loaded->Ok_0->0,
        loaded matches Err(e) ==> r is Err && r->Err_0@ == e@,
        loaded is Ok && loaded->Ok_0 is None ==> r is Err && r->Err_0@ == "no wallet with id "@
            + id@,
{
}

/// The list of wallets is that of those whose metadata is there, and fails where the active
/// one cannot be told or some metadata cannot be loaded.
pub proof fn the_wallets_listed_are_those_found(
    service: WalletService,
    active: FileRead,
    found: Vec<Found>,
    r: Result<Vec<WalletSummary>, String>,
)
    requires
        call_ensures(
            WalletService::list_wallets,
            (&service, &active, &Ok::<Vec<Found>, String>(found)),
            r,
        ),
    ensures
        r is Ok <==> !(active is Failed) && forall|k: int|
            0 <= k < found@.len() ==> (#[trigger] found@[k]).meta is Ok,
        r is Ok ==> summary_views(r->Ok_0@) == summaries(
            found@,
            paths::active_id_or_none(active),
        ),
{
    the_first_load_error_is_told(found@);
}

/// A key is told to be valid, of a testnet, or malformed and why, as it was decoded; a
/// session's passphrase is kept on removal only where that was asked for.
pub proof fn decoded_requests_are_taken_as_decoded(
    decoded: Result<UfvkIdentity, UfvkError>,
    verdict: ParseUfvkResult,
    sent: Option<RemoveArgs>,
    args: RemoveArgs,
)
    requires
        call_ensures(parse_ufvk_result, (decoded,), verdict),
        call_ensures(remove_args, (sent,), args),
    ensures
        decoded matches Ok(identity) ==> verdict == ParseUfvkResult::Valid(identity),
        decoded matches Err(UfvkError::Testnet) ==> verdict is Testnet,
        decoded matches Err(UfvkError::Malformed(reason)) ==> verdict is Malformed
            && verdict->reason@ == reason@,
        args.keep_session <==> sent is Some && sent->0.keep_session,
{
}

/// Two byte strings compare as equal exactly where they are.
pub proof fn only_equal_bytes_compare_equal(a: &[u8], b: &[u8], r: bool)
    requires
        call_ensures(ct_eq, (a, b), r),
    ensures
        r <==> a@.len() == b@.len() && forall|i: int| 0 <= i < a@.len() ==> a@[i] == b@[i],
{
    if a@.len() == b@.len() && forall|i: int| 0 <= i < a@.len() ==> a@[i] == b@[i] {
        assert(a@ =~= b@);
    }
}

} // verus!
