//! The wire protocol between the daemon and the GUI client.
//!
//! Transport is a local socket carrying newline-delimited JSON: one [`Request`] per
//! line from the client, one [`Response`] per line back, matched by `id`. After a
//! client sends `subscribeEvents`, the daemon also pushes [`SyncEvent`] lines down
//! that same connection as the wallet scans. A pushed event carries `event`; a reply
//! carries `ok`/`id`, so a reader tells them apart without a wrapper frame.
//!
//! A floating-point figure is carried by its bits ([`Real`]): it is computed and read
//! outside this library, which only passes it on.

use vstd::prelude::*;

use crate::clock::Duration;

verus! {

/// Whether a flag that defaults to false stays off the wire.
pub fn is_false(b: &bool) -> (r: bool)
    ensures
        r == !*b,
{
    !*b
}

/// A copy of an optional text.
pub fn clone_text(o: &Option<String>) -> (r: Option<String>)
    ensures
        r == *o,
{
    match o {
        Some(s) => Some(s.clone()),
        None => None,
    }
}

/// The view of an optional text.
pub open spec fn text_view(o: Option<String>) -> Option<Seq<char>> {
    match o {
        Some(s) => Some(s@),
        None => None,
    }
}

#[derive(Debug)]
pub struct Request {
    pub id: u64,
    pub method: String,
    pub params: serde_json::Value,
}

#[derive(Debug)]
pub struct Response {
    pub id: u64,
    pub ok: bool,
    pub result: Option<serde_json::Value>,
    pub error: Option<String>,
}

impl Response {
    /// A reply carries a result exactly when it is `ok`, and an error otherwise.
    pub open spec fn wf(self) -> bool {
        &&& self.ok == (self.result is Some)
        &&& self.ok == (self.error is None)
    }

    pub fn ok(id: u64, result: serde_json::Value) -> (r: Self)
        ensures
            r == (Response { id, ok: true, result: Some(result), error: None }),
            r.wf(),
    {
        Response { id, ok: true, result: Some(result), error: None }
    }

    pub fn err(id: u64, error: String) -> (r: Self)
        ensures
            r == (Response { id, ok: false, result: None, error: Some(error) }),
            r.wf(),
    {
        Response { id, ok: false, result: None, error: Some(error) }
    }
}

#[derive(Debug, Clone, Copy, PartialEq, Eq, Structural)]
pub enum Network {
    Mainnet,
    Regtest,
}

impl Network {
    /// The variant's name.
    pub open spec fn name(self) -> Seq<char> {
        match self {
            Network::Mainnet => "Mainnet"@,
            Network::Regtest => "Regtest"@,
        }
    }

    pub fn name_text(&self) -> (r: &'static str)
        ensures
            r@ == self.name(),
    {
        match self {
            Network::Mainnet => "Mainnet",
            Network::Regtest => "Regtest",
        }
    }
}

#[derive(Debug, Clone, Copy, PartialEq, Eq, Structural)]
pub enum ImportType {
    Ufvk,
    Seed,
}

#[derive(Debug, Clone, Copy, PartialEq, Eq, Structural)]
pub enum ViewMode {
    Full,
    IncomingOnly,
}

#[derive(Debug)]
pub struct WalletState {
    pub exists: bool,
    /// True when the wallet file is encrypted and the daemon hasn't been given the
    /// passphrase yet, so the GUI must collect it via `unlock` before anything works.
    pub locked: bool,
    /// True when the daemon holds the session passphrase in memory. Lets onboarding
    /// tell a post-Replace empty-but-unlocked daemon from a cold one and skip Set
    /// Password.
    pub session_held: bool,
    /// Active wallet id under `wallets/<id>/`. `None` when no wallet exists.
    pub wallet_id: Option<String>,
    /// Optional user-facing name. `None` when unset (GUI falls back to short fingerprint).
    /// Masked in the UI when Discreet mode is on.
    pub label: Option<String>,
    /// The current Wallet's fingerprint, the value that seeds its LifeHash. `None`
    /// for a wallet imported before fingerprints were persisted, or when no wallet
    /// exists.
    pub fingerprint: Option<String>,
    pub import_type: ImportType,
    pub view_mode: ViewMode,
    pub network: Network,
    pub birthday_height: u32,
    /// The Indexer this Wallet syncs against, editable from Settings. Empty when no
    /// wallet exists.
    pub indexer_uri: String,
    /// Whether transaction and scan-complete notifications fire. Toggled from
    /// Settings; the "Indexer unreachable" alert is independent of this.
    pub notifications_enabled: bool,
    /// Whether fiat (USD) price display is enabled. Off until the user consents to the
    /// third-party price egress. Gates the price refresh loop, so nothing is fetched
    /// while false.
    pub fiat_enabled: bool,
    /// Whether Discreet mode is on. The GUI masks sensitive values; the daemon redacts
    /// new-transaction notification text.
    pub discreet: bool,
}

#[derive(Debug)]
pub struct WalletSummary {
    pub id: String,
    /// Resolved display name: custom label, or short fingerprint when unset.
    pub label: String,
    pub fingerprint: Option<String>,
    pub network: Network,
    pub birthday_height: u32,
    pub active: bool,
}

#[derive(Debug)]
pub struct SelectWalletArgs {
    pub id: String,
}

#[derive(Debug)]
pub struct SyncWalletArgs {
    /// Optional; defaults to the active wallet.
    pub id: Option<String>,
}

#[derive(Debug)]
pub struct SetWalletLabelArgs {
    pub id: String,
    /// Empty string clears the custom name (back to short fingerprint).
    pub label: String,
}

#[derive(Debug, PartialEq, Eq)]
pub struct WalletAddress {
    pub ua: String,
    pub transparent: Option<String>,
}

/// The network a UFVK declares. Distinct from [`Network`]: a key can be testnet,
/// which is rejected, so the decode result carries only the two it accepts.
#[derive(Debug, Clone, Copy, PartialEq, Eq, Structural)]
pub enum UfvkNetwork {
    Mainnet,
    Regtest,
}

impl UfvkNetwork {
    /// The variant's name.
    pub open spec fn name(self) -> Seq<char> {
        self.network().name()
    }

    /// The network that a key on this one belongs to.
    pub open spec fn network(self) -> Network {
        match self {
            UfvkNetwork::Mainnet => Network::Mainnet,
            UfvkNetwork::Regtest => Network::Regtest,
        }
    }

    pub fn to_network(&self) -> (r: Network)
        ensures
            r == self.network(),
    {
        match self {
            UfvkNetwork::Mainnet => Network::Mainnet,
            UfvkNetwork::Regtest => Network::Regtest,
        }
    }
}

/// A value pool a UFVK can view. Unknown and experimental typecodes are dropped
/// rather than surfaced. Ironwood is the post-NU6.3 shielded pool; the same Orchard
/// FVK views it.
#[derive(Debug, Clone, Copy, PartialEq, Eq, Structural)]
pub enum Pool {
    Orchard,
    Sapling,
    Transparent,
    Ironwood,
}

/// What a successful UFVK decode tells the GUI: the network it is bound to, a
/// stable fingerprint that seeds its LifeHash, and the pools it can watch.
#[derive(Debug, PartialEq, Eq)]
pub struct UfvkIdentity {
    pub network: UfvkNetwork,
    pub fingerprint: String,
    pub pools: Vec<Pool>,
}

/// The verdict of a `parseUfvk` request. A testnet or malformed key is a decode
/// outcome the GUI renders inline, not a transport failure, so it rides back as
/// an `ok` result tagged by `kind` rather than a daemon error.
#[derive(Debug, PartialEq, Eq)]
pub enum ParseUfvkResult {
    Valid(UfvkIdentity),
    Testnet,
    Malformed { reason: String },
}

/// How the user chose a Wallet's Birthday at import. The daemon's resolver is the
/// single source of truth that turns this into a starting block height, so the GUI
/// sends the raw choice and never pre-resolves. `Date` is mainnet only and carries
/// unix seconds for midnight UTC of the picked day; `Default` is blank.
#[derive(Debug, Clone, Copy, PartialEq, Eq, Structural)]
pub enum BirthdayInput {
    Height(u32),
    Date(i64),
    Default,
}

#[derive(Debug)]
pub struct ImportUfvkArgs {
    pub ufvk: String,
    pub birthday: BirthdayInput,
    pub indexer_uri: String,
    pub network: Network,
    /// Global passphrase that encrypts the wallet at rest. It is never persisted, the
    /// Argon2 verifier lives in the wallet file's header. Omitted on a post-Replace
    /// import, where the daemon reuses the session passphrase it held across the wipe.
    pub passphrase: Option<String>,
}

#[derive(Debug)]
pub struct SetIndexerArgs {
    pub indexer_uri: String,
}

#[derive(Debug)]
pub struct SetNotificationsArgs {
    pub enabled: bool,
}

#[derive(Debug)]
pub struct SetFiatEnabledArgs {
    pub enabled: bool,
}

#[derive(Debug)]
pub struct SetDiscreetArgs {
    pub enabled: bool,
}

/// How much a reconciled price can be trusted. `High` means two or more providers agreed
/// on the point; `Low` means it came from a single source (e.g. the bundled pre-2020 tail).
#[derive(Debug, Clone, Copy, PartialEq, Eq, Structural)]
pub enum Confidence {
    High,
    Low,
}

/// A 64-bit floating-point number, carried by its bits.
#[derive(Debug, Clone, Copy, PartialEq, Eq, Structural)]
pub struct Real {
    pub bits: u64,
}

/// One reconciled daily price mark in USD, keyed by UTC date. `diverged` is set when the
/// contributing sources spread beyond the reconciliation threshold, so the UI can flag it.
#[derive(Debug, PartialEq, Eq)]
pub struct PricePoint {
    /// UTC `YYYY-MM-DD`.
    pub date: String,
    pub usd_per_zec: Real,
    pub confidence: Confidence,
    pub diverged: bool,
}

impl Clone for PricePoint {
    fn clone(&self) -> (r: Self)
        ensures
            r == *self,
    {
        PricePoint {
            date: self.date.clone(),
            usd_per_zec: self.usd_per_zec,
            confidence: self.confidence,
            diverged: self.diverged,
        }
    }
}

/// The current reconciled spot price. `fetched_at` (unix seconds) lets the GUI show
/// staleness; `stale` is set when it's serving a last-known value after a failed refresh.
#[derive(Debug, PartialEq, Eq)]
pub struct PriceSpot {
    pub usd_per_zec: Real,
    pub fetched_at: u64,
    /// Which providers contributed to this reconciled value.
    pub sources: Vec<String>,
    pub stale: bool,
    pub diverged: bool,
}

#[derive(Debug)]
pub struct UnlockArgs {
    pub passphrase: String,
}

#[derive(Debug)]
pub struct VerifyPassphraseArgs {
    pub passphrase: String,
}

#[derive(Debug)]
pub struct RemoveArgs {
    /// Keep the in-memory session passphrase across the wipe. Replace sets this so
    /// onboarding can skip Set Password; Start over leaves it false and drops the
    /// passphrase.
    pub keep_session: bool,
}

impl Default for RemoveArgs {
    fn default() -> (r: Self)
        ensures
            !r.keep_session,
    {
        RemoveArgs { keep_session: false }
    }
}

#[derive(Debug, Clone, Copy, PartialEq, Eq, Structural)]
pub enum SyncState {
    Idle,
    Syncing,
    Error,
}

/// What the scanner is doing right now, derived from the latest batch lifecycle
/// event. Drives the progress label; `None` until the first event arrives.
#[derive(Debug, Clone, Copy, PartialEq, Eq, Structural)]
pub enum SyncPhase {
    Scanning,
    Committing,
}

#[derive(Debug, PartialEq, Eq)]
pub struct SyncStatus {
    pub state: SyncState,
    pub synced_height: u32,
    pub chain_tip: u32,
    pub percent: u8,
    pub phase: Option<SyncPhase>,
    /// Shielded notes scanned in the sync window (progress numerator).
    pub scanned_outputs: Option<u64>,
    /// Total notes to scan in the window (progress denominator).
    pub total_outputs: Option<u64>,
    /// Estimated seconds to completion from the observed scan rate.
    pub eta_seconds: Option<u64>,
    pub error: Option<String>,
    /// Set only when the failure was a connectivity failure to the Indexer, so the
    /// GUI can offer "Change server". Off (and absent from the wire) otherwise.
    pub unreachable: bool,
    /// Set only when the Indexer is serving a chain that doesn't carry this Wallet's
    /// Anchor. Mutually exclusive with `unreachable`: a verdict exists only when the
    /// server answered.
    pub wrong_chain: bool,
    pub last_synced_at: Option<u64>,
}

impl SyncStatus {
    /// The status before anything has been synced.
    pub open spec fn fresh() -> SyncStatus {
        SyncStatus {
            state: SyncState::Idle,
            synced_height: 0,
            chain_tip: 0,
            percent: 0,
            phase: None,
            scanned_outputs: None,
            total_outputs: None,
            eta_seconds: None,
            error: None,
            unreachable: false,
            wrong_chain: false,
            last_synced_at: None,
        }
    }

    /// A failure has one cause: an Indexer that did not answer is not on a wrong chain.
    pub open spec fn one_cause(self) -> bool {
        !(self.unreachable && self.wrong_chain)
    }
}

impl Default for SyncStatus {
    fn default() -> (r: Self)
        ensures
            r == SyncStatus::fresh(),
    {
        SyncStatus {
            state: SyncState::Idle,
            synced_height: 0,
            chain_tip: 0,
            percent: 0,
            phase: None,
            scanned_outputs: None,
            total_outputs: None,
            eta_seconds: None,
            error: None,
            unreachable: false,
            wrong_chain: false,
            last_synced_at: None,
        }
    }
}

impl Clone for SyncStatus {
    fn clone(&self) -> (r: Self)
        ensures
            r == *self,
    {
        SyncStatus {
            state: self.state,
            synced_height: self.synced_height,
            chain_tip: self.chain_tip,
            percent: self.percent,
            phase: self.phase,
            scanned_outputs: self.scanned_outputs,
            total_outputs: self.total_outputs,
            eta_seconds: self.eta_seconds,
            error: clone_text(&self.error),
            unreachable: self.unreachable,
            wrong_chain: self.wrong_chain,
            last_synced_at: self.last_synced_at,
        }
    }
}

/// Where a single scan range is in its lifecycle: decrypting (`Scanning`), queued
/// behind the serialized commit stage (`Waiting`), or holding the wallet lock and
/// writing (`Committing`).
#[derive(Debug, Clone, Copy, PartialEq, Eq, Structural)]
pub enum BatchPhase {
    Scanning,
    Waiting,
    Committing,
}

/// One in-flight scan range. The GUI keys on `id` and animates the active bar
/// from `phase_started_at_ms` against `expected_secs`, so it advances smoothly
/// between pushes.
#[derive(Debug, PartialEq, Eq)]
pub struct BatchProgress {
    pub id: String,
    pub start: u32,
    pub end: u32,
    pub priority: String,
    pub outputs: u64,
    pub phase: BatchPhase,
    pub phase_started_at_ms: u64,
    /// Estimated duration of the active phase from measured throughput; `None`
    /// while waiting, where no work is progressing.
    pub expected_secs: Option<Real>,
}

/// The commit phase split into its sub-phases. Mirrors the scanner's own breakdown for
/// the full per-batch diagnostic; the wire shows each in seconds.
#[derive(Debug, Clone, Copy, PartialEq, Eq)]
pub struct CommitBreakdown {
    pub checkpoints: Duration,
    pub frontiers: Duration,
    pub insert_tree: Duration,
    pub spend_fetch: Duration,
    pub spend_cpu: Duration,
    pub cleanup: Duration,
    pub other: Duration,
}

/// Measured wall-clock cost of a committed batch; the wire shows each in seconds.
#[derive(Debug, Clone, Copy, PartialEq, Eq)]
pub struct BatchTiming {
    pub total_secs: Duration,
    pub wait_secs: Duration,
    pub fetch_secs: Duration,
    pub decryption_secs: Duration,
    pub tree_secs: Duration,
    pub commit_secs: Duration,
    pub commit: CommitBreakdown,
}

/// A finished scan range with its measured timing, for the recent-batches log.
#[derive(Debug, PartialEq, Eq)]
pub struct BatchSummary {
    pub id: String,
    pub start: u32,
    pub end: u32,
    pub priority: String,
    pub outputs: u64,
    pub timing: BatchTiming,
}

/// A line the daemon pushes to a subscribed client as the wallet scans. Tagged by
/// `event`, so a reader distinguishes it from a request [`Response`] (which carries
/// `ok`/`id`) on the shared connection.
#[derive(Debug, PartialEq, Eq)]
pub enum SyncEvent {
    /// A fresh snapshot: the overall bar/phase/counts/ETA plus the active batches.
    Progress { status: SyncStatus, batches: Vec<BatchProgress> },
    /// A scan range committed; the GUI appends it to the recent-batches log.
    BatchDone { batch: BatchSummary },
    /// A newly committed transaction the GUI should fold into balance and history.
    Transaction { txid: String, kind: TxKind, value_zat: String, received: bool },
    /// The round reached the chain tip; `status` is the terminal idle snapshot.
    Finished { status: SyncStatus },
    /// The round failed; the GUI shows the message and waits for the next round.
    /// `unreachable` is set only for a connectivity failure to the Indexer, gating
    /// the "Change server" CTA. `wrong_chain` is set when the Indexer is serving a
    /// chain without this Wallet's Anchor; the two are mutually exclusive.
    Error { message: String, unreachable: bool, wrong_chain: bool },
    /// A refreshed spot price, pushed so the live balance figures and the chart tip move
    /// without the GUI polling. Only sent while fiat is enabled.
    PriceUpdate { spot: PriceSpot },
}

#[derive(Debug, PartialEq, Eq)]
pub struct PoolBalance {
    pub confirmed: String,
    pub total: String,
}

impl Clone for PoolBalance {
    fn clone(&self) -> (r: Self)
        ensures
            r == *self,
    {
        PoolBalance { confirmed: self.confirmed.clone(), total: self.total.clone() }
    }
}

fn clone_pool(o: &Option<PoolBalance>) -> (r: Option<PoolBalance>)
    ensures
        r == *o,
{
    match o {
        Some(b) => Some(b.clone()),
        None => None,
    }
}

#[derive(Debug, PartialEq, Eq)]
pub struct Balance {
    pub orchard: Option<PoolBalance>,
    pub sapling: Option<PoolBalance>,
    pub transparent: Option<PoolBalance>,
    pub ironwood: Option<PoolBalance>,
}

impl Balance {
    /// The balance of a wallet that holds nothing in any pool.
    pub open spec fn none() -> Balance {
        Balance { orchard: None, sapling: None, transparent: None, ironwood: None }
    }
}

impl Default for Balance {
    fn default() -> (r: Self)
        ensures
            r == Balance::none(),
    {
        Balance { orchard: None, sapling: None, transparent: None, ironwood: None }
    }
}

impl Clone for Balance {
    fn clone(&self) -> (r: Self)
        ensures
            r == *self,
    {
        Balance {
            orchard: clone_pool(&self.orchard),
            sapling: clone_pool(&self.sapling),
            transparent: clone_pool(&self.transparent),
            ironwood: clone_pool(&self.ironwood),
        }
    }
}

#[derive(Debug, Clone, Copy, PartialEq, Eq, Structural)]
pub enum TxKind {
    Received,
    Sent,
}

#[derive(Debug, Clone, Copy, PartialEq, Eq, Structural)]
pub enum TxStatus {
    Confirmed,
    Pending,
}

/// Which side of a transaction an output sits on. A Sent transaction still
/// produces a Received change note, so one transaction can carry both.
#[derive(Debug, Clone, Copy, PartialEq, Eq, Structural)]
pub enum NoteDirection {
    Received,
    Sent,
}

/// One output within a transaction: a shielded Note or a transparent UTXO,
/// reusing [`Pool`] to say which. Identified within its transaction by `pool` and
/// `output_index`, since there is no per-note id upstream. Only shielded notes
/// carry a `memo`; only Sent outputs carry a `recipient`.
#[derive(Debug, PartialEq, Eq)]
pub struct Note {
    pub pool: Pool,
    pub direction: NoteDirection,
    pub output_index: u32,
    pub value_zat: String,
    pub memo: Option<String>,
    pub recipient: Option<String>,
}

/// The lifecycle of one of the Wallet's own received outputs, for the notes debug
/// view. `Pending` is a note still in an unconfirmed transaction. `Spent` is one
/// whose spend has been seen (confirmed or in flight). `Unspent` is a confirmed,
/// still-spendable note.
#[derive(Debug, Clone, Copy, PartialEq, Eq, Structural)]
pub enum NoteStatus {
    Unspent,
    Spent,
    Pending,
}

/// One received output the Wallet controls, flattened across pools with its spend
/// state resolved, for the notes debug view. Where [`Note`] is an output within a
/// single transaction's detail, this is a wallet-wide row: it carries the
/// confirming `height`, the `txid` it landed in, whether it's `change`, and the
/// height it was spent at when that spend is confirmed. `height` and `spent_height`
/// are `None` when unknown (an unconfirmed note, or an in-flight spend). Values are
/// zatoshi strings, matching the rest of the wire.
#[derive(Debug, PartialEq, Eq)]
pub struct WalletNote {
    pub idx: u32,
    pub pool: Pool,
    pub value_zat: String,
    pub status: NoteStatus,
    pub height: Option<u32>,
    pub txid: String,
    pub change: bool,
    pub spent_height: Option<u32>,
}

impl Clone for WalletNote {
    fn clone(&self) -> (r: Self)
        ensures
            r == *self,
    {
        WalletNote {
            idx: self.idx,
            pool: self.pool,
            value_zat: self.value_zat.clone(),
            status: self.status,
            height: self.height,
            txid: self.txid.clone(),
            change: self.change,
            spent_height: self.spent_height,
        }
    }
}

#[derive(Debug, PartialEq, Eq)]
pub struct Tx {
    pub txid: String,
    /// Unix seconds.
    pub datetime: u64,
    pub block_height: Option<u32>,
    pub kind: TxKind,
    pub value_zat: String,
    /// Signed net balance change in zatoshis (received +, sent/shield/self −).
    /// Distinct from `value_zat`, which is the display amount.
    pub net_zat: String,
    pub status: TxStatus,
    /// The transaction's outputs the Wallet can see, both directions, carried so
    /// the GUI can show per-note Pool/value/memo and the has-memo indicator.
    pub notes: Vec<Note>,
}

/// A status before any sync is idle at block zero and reports nothing: no progress, no
/// error, no cause, no last sync.
pub proof fn a_fresh_status_reports_nothing()
    ensures
        SyncStatus::fresh().state == SyncState::Idle,
        SyncStatus::fresh().synced_height == 0,
        SyncStatus::fresh().chain_tip == 0,
        SyncStatus::fresh().percent == 0,
        SyncStatus::fresh().phase is None,
        SyncStatus::fresh().scanned_outputs is None,
        SyncStatus::fresh().total_outputs is None,
        SyncStatus::fresh().eta_seconds is None,
        SyncStatus::fresh().error is None,
        !SyncStatus::fresh().unreachable,
        !SyncStatus::fresh().wrong_chain,
        SyncStatus::fresh().last_synced_at is None,
{
}

/// A key belongs to the network it is on, and each network goes by its own name.
pub proof fn networks_keep_their_names(key: UfvkNetwork)
    ensures
        key is Mainnet <==> key.network() is Mainnet,
        key is Regtest <==> key.network() is Regtest,
        Network::Mainnet.name() == "Mainnet"@,
        Network::Regtest.name() == "Regtest"@,
        key.name() == key.network().name(),
{
}

/// A text that is there is seen as it is, and one that is not as none.
pub proof fn a_text_is_seen_as_it_is(s: String)
    ensures
        text_view(Some(s)) == Some(s@),
        text_view(None) is None,
{
}

/// A wallet that holds nothing has no balance in any pool.
pub proof fn no_balance_is_none_in_each_pool()
    ensures
        Balance::none().orchard is None,
        Balance::none().sapling is None,
        Balance::none().transparent is None,
        Balance::none().ironwood is None,
{
}

/// A reply bears the number of its request, and either its result or its error.
pub proof fn a_reply_is_a_result_or_an_error(
    id: u64,
    result: serde_json::Value,
    good: Response,
    error: String,
    bad: Response,
)
    requires
        call_ensures(Response::ok, (id, result), good),
        call_ensures(Response::err, (id, error), bad),
    ensures
        good.id == id && good.ok && good.result == Some(result) && good.error is None,
        bad.id == id && !bad.ok && bad.result is None && bad.error is Some && bad.error->0@
            == error@,
{
}

} // verus!
