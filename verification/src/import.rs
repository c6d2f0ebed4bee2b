//! Pointing a wallet at an Indexer: the import of a viewing key, and a change of server.
//!
//! Both ask the Indexer first, and touch nothing until its answers are in.

use vstd::prelude::*;
use vstd::string::*;
use vstd::utf8::*;

use crate::chain;
use crate::chain::{ChainObservation, ChainVerdict};
use crate::ipc;
use crate::ipc::{
    ImportType, ImportUfvkArgs, Network, SyncState, SyncStatus, UfvkIdentity, ViewMode,
};
use crate::paths;
use crate::paths::{FileRead, Meta, NewDir, Paths};
use crate::service;
use crate::service::{MetaSave, WalletConfig, WalletService};
use crate::text;
use crate::transport;
use crate::uri;

verus! {

broadcast use vstd::string::group_string_axioms;

// ---------------------------------------------------------------------------
// Importing a viewing key
// ---------------------------------------------------------------------------

/// An import that may go ahead. The Indexer is to be asked for its tip.
pub struct Import {
    /// The wallet's id: the key's fingerprint.
    pub id: String,
    pub ufvk: String,
    pub network: Network,
    pub indexer_uri: String,
    /// What will encrypt the wallet at rest.
    pub passphrase: String,
}

/// An import whose Indexer has told its tip. It is to be asked for the block at
/// [`Anchoring::asks_for`].
pub struct Anchoring {
    pub import: Import,
    pub birthday: u32,
    pub tip: u32,
}

/// An import that has all it needs: [`Prepared::on_disk`] is to be done, then the wallet
/// built, then the metadata saved.
pub struct Prepared {
    pub import: Import,
    pub meta: Meta,
}

/// What an import does on disk before the wallet is built.
pub struct DiskPlan {
    /// The directory to remove, if it is there: a re-import of the same key overwrites its
    /// wallet.
    pub wipe: Vec<u8>,
    pub dirs: Vec<NewDir>,
    /// The file that makes the wallet the active one, and its bytes.
    pub active_file: Vec<u8>,
    pub active_id: Vec<u8>,
}

/// The key and the request name different networks.
pub open spec fn networks_differ(key: Seq<char>, requested: Seq<char>) -> Seq<char> {
    "the key is "@ + key + " but the import requested "@ + requested
}

/// The passphrase of an import: the one sent, or else the one held across a Replace.
pub open spec fn import_passphrase(sent: Option<String>, held: Option<String>) -> Option<String> {
    match sent {
        Some(p) => Some(p),
        None => held,
    }
}

/// Why an import is refused before the Indexer is asked, if it is. The network is
/// derived from the key, never trusted from the client.
pub open spec fn import_refusal(
    args: ImportUfvkArgs,
    identity: Result<UfvkIdentity, String>,
    held: Option<String>,
    valid_uri: bool,
) -> Option<Seq<char>> {
    match identity {
        Err(e) => Some(e@),
        Ok(identity) => if identity.network.network() != args.network {
            Some(networks_differ(identity.network.name(), args.network.name()))
        } else if import_passphrase(args.passphrase, held) is None {
            Some("no session passphrase held for this import"@)
        } else if !valid_uri {
            Some("invalid indexer uri"@)
        } else {
            None
        },
    }
}

/// The server has no block to anchor to.
pub open spec fn no_anchor_block(height: u32) -> Seq<char> {
    "that server has no block at height "@ + text::decimal(height as nat)
}

/// The metadata of a fresh import.
pub open spec fn is_import_meta(
    meta: Meta,
    import: Import,
    birthday: u32,
    tip: u32,
    anchor_hash: String,
) -> bool {
    meta == (Meta {
        network: import.network,
        indexer_uri: import.indexer_uri,
        import_type: ImportType::Ufvk,
        view_mode: ViewMode::Full,
        birthday_height: birthday,
        scan_target_height: tip,
        encrypted: true,
        fingerprint: Some(import.id),
        label: None,
        notifications_enabled: true,
        fiat_enabled: false,
        discreet: false,
        anchor_height: chain::anchor_at(birthday, tip),
        anchor_hash: Some(anchor_hash),
    })
}

/// Whether an import is the one that was asked for.
pub open spec fn is_admitted(
    import: Import,
    args: ImportUfvkArgs,
    identity: UfvkIdentity,
    held: Option<String>,
) -> bool {
    &&& import.id == identity.fingerprint
    &&& import.ufvk == args.ufvk
    &&& import.network == args.network
    &&& import.indexer_uri == args.indexer_uri
    &&& Some(import.passphrase) == import_passphrase(args.passphrase, held)
}

impl Import {
    /// The Indexer was asked for its tip, which is pinned as the end of the Initial scan.
    /// The wallet's birthday is settled too.
    pub fn with_tip(self, birthday: u32, tip: Result<u32, String>) -> (r: Result<Anchoring, String>)
        ensures
            match tip {
                Err(e) => r == Err::<Anchoring, String>(e),
                Ok(tip) => r == Ok::<Anchoring, String>(Anchoring { import: self, birthday, tip }),
            },
    {
        match tip {
            Err(e) => Err(e),
            Ok(tip) => Ok(Anchoring { import: self, birthday, tip }),
        }
    }
}

impl Anchoring {
    /// The height of the block to anchor to.
    pub fn asks_for(&self) -> (r: u32)
        ensures
            r == chain::anchor_at(self.birthday, self.tip),
    {
        chain::anchor_height(self.birthday, self.tip)
    }

    /// The Indexer was asked for the block to anchor to. Every later round verifies it, so
    /// a swapped chain is refused instead of ground through.
    pub fn with_block(self, block: Result<Option<String>, String>) -> (r: Result<Prepared, String>)
        ensures
            match block {
                Err(e) => r == Err::<Prepared, String>(e),
                Ok(None) => r is Err && r->Err_0@ == no_anchor_block(
                    chain::anchor_at(self.birthday, self.tip),
                ),
                Ok(Some(hash)) => r is Ok && r->Ok_0.import == self.import && is_import_meta(
                    r->Ok_0.meta,
                    self.import,
                    self.birthday,
                    self.tip,
                    hash,
                ),
            },
            r matches Ok(prepared) ==> {
                &&& prepared.import.ufvk@ == self.import.ufvk@
                &&& prepared.import.id@ == self.import.id@
                &&& prepared.import.passphrase@ == self.import.passphrase@
                &&& prepared.meta.network == self.import.network
                &&& prepared.meta.indexer_uri@ == self.import.indexer_uri@
                &&& prepared.meta.birthday_height == self.birthday
                &&& prepared.meta.scan_target_height == self.tip
                &&& prepared.meta.anchor_hash == block->Ok_0
            },
    {
        let anchor_height: u32 = self.asks_for();
        let anchor_hash = match block {
            Err(e) => return Err(e),
            Ok(None) => {
                let mut e = "that server has no block at height ".to_string();
                let height = text::u64_text(anchor_height as u64);
                e.append(height.as_str());
                return Err(e);
            },
            Ok(Some(hash)) => hash,
        };
        let meta = Meta {
            network: self.import.network,
            indexer_uri: self.import.indexer_uri.clone(),
            import_type: ImportType::Ufvk,
            view_mode: ViewMode::Full,
            birthday_height: self.birthday,
            scan_target_height: self.tip,
            encrypted: true,
            fingerprint: Some(self.import.id.clone()),
            label: None,
            notifications_enabled: true,
            fiat_enabled: false,
            discreet: false,
            anchor_height,
            anchor_hash: Some(anchor_hash),
        };
        Ok(Prepared { import: self.import, meta })
    }
}

impl Prepared {
    /// What is done on disk before the wallet is built. Only the wallet's own directory is
    /// touched, and the file that names the active one.
    pub fn on_disk(&self, paths: &Paths) -> (r: DiskPlan)
        ensures
            ({
                let own = paths@.scoped(self.import.id@);
                &&& r.wipe@ == own.wallet_dir
                &&& r.dirs@.len() == 2
                &&& r.dirs@[0].path@ == paths@.wallets_dir
                &&& r.dirs@[0].failure@ == "creating wallets dir "@ + transport::lossy_text(
                    paths@.wallets_dir,
                )
                &&& r.dirs@[1].path@ == own.wallet_dir
                &&& r.dirs@[1].failure@ == "creating wallet dir "@ + transport::lossy_text(
                    own.wallet_dir,
                )
                &&& r.active_file@ == paths@.active_id_file
                &&& r.active_id@ == encode_utf8(self.import.id@)
            }),
    {
        let own = paths.for_wallet(self.import.id.as_str());
        let dirs = own.ensure_dirs();
        let (active_file, active_id) = paths.write_active_id(self.import.id.as_str());
        DiskPlan { wipe: own.wallet_dir, dirs, active_file, active_id }
    }

    /// The new wallet's metadata, to be saved once the wallet is built, in the file of the
    /// active wallet, which it is by then.
    pub fn to_save(&self, paths: &Paths, active: &FileRead) -> (r: MetaSave)
        ensures
            r.meta == self.meta,
            r.file@ == paths@.active(paths::active_id_or_none(*active)).meta_file,
    {
        let scoped = paths.scoped_paths(active);
        MetaSave { file: scoped.meta_file, meta: self.meta.clone() }
    }

    /// What the engine is to build.
    pub fn wallet_config(&self) -> (r: WalletConfig)
        ensures
            r == (WalletConfig::Ufvk {
                ufvk: self.import.ufvk,
                birthday: self.meta.birthday_height,
            }),
    {
        WalletConfig::Ufvk {
            ufvk: self.import.ufvk.clone(),
            birthday: self.meta.birthday_height,
        }
    }
}

/// The wallet could not be built.
pub fn creation_failed(error: &str) -> (r: String)
    ensures
        r@ == "client creation failed: "@ + error@,
{
    let mut s = "client creation failed: ".to_string();
    s.append(error);
    s
}

impl WalletService {
    /// Whether an import may go ahead, judged before the Indexer is asked and before
    /// anything is written, and given whether the Indexer's address is a URI. Testnet and
    /// malformed keys are refused, and any disagreement between the key and the requested
    /// network. A first onboarding sends the passphrase; a post-Replace import omits it
    /// and reuses the one held across the wipe.
    pub fn admit_import(
        &self,
        args: ImportUfvkArgs,
        identity: Result<UfvkIdentity, String>,
        valid_uri: bool,
    ) -> (r: Result<Import, String>)
        ensures
            match import_refusal(args, identity, self.session_passphrase, valid_uri) {
                Some(e) => r is Err && r->Err_0@ == e,
                None => r is Ok && is_admitted(
                    r->Ok_0,
                    args,
                    identity->Ok_0,
                    self.session_passphrase,
                ),
            },
            r matches Ok(import) ==> {
                &&& import.ufvk@ == args.ufvk@
                &&& import.id@ == identity->Ok_0.fingerprint@
                &&& import.network == args.network
                &&& import.indexer_uri@ == args.indexer_uri@
                &&& import.passphrase@ == (if args.passphrase is Some {
                    args.passphrase->0@
                } else {
                    self.session_passphrase->0@
                })
            },
    {
        let identity = match identity {
            Err(e) => return Err(e),
            Ok(identity) => identity,
        };
        let key_network = identity.network.to_network();
        if key_network != args.network {
            let mut e = "the key is ".to_string();
            e.append(key_network.name_text());
            e.append(" but the import requested ");
            e.append(args.network.name_text());
            return Err(e);
        }
        let passphrase = match (args.passphrase, &self.session_passphrase) {
            (Some(p), _) => p,
            (None, Some(held)) => held.clone(),
            (None, None) => {
                return Err("no session passphrase held for this import".to_string());
            },
        };
        if !valid_uri {
            return Err("invalid indexer uri".to_string());
        }
        Ok(
            Import {
                id: identity.fingerprint,
                ufvk: args.ufvk,
                network: args.network,
                indexer_uri: args.indexer_uri,
                passphrase,
            },
        )
    }

    /// Whether the import of a viewing key may go ahead. The Indexer is then asked for
    /// its tip ([`Import::with_tip`]) and for the block to anchor to.
    pub fn import_ufvk(
        &self,
        args: ImportUfvkArgs,
        identity: Result<UfvkIdentity, String>,
    ) -> (r: Result<Import, String>)
        ensures
            match import_refusal(
                args,
                identity,
                self.session_passphrase,
                uri::is_uri(args.indexer_uri@),
            ) {
                Some(e) => r is Err && r->Err_0@ == e,
                None => r is Ok && is_admitted(
                    r->Ok_0,
                    args,
                    identity->Ok_0,
                    self.session_passphrase,
                ),
            },
            r matches Ok(import) ==> {
                &&& import.ufvk@ == args.ufvk@
                &&& import.id@ == identity->Ok_0.fingerprint@
                &&& import.network == args.network
                &&& import.indexer_uri@ == args.indexer_uri@
                &&& import.passphrase@ == (if args.passphrase is Some {
                    args.passphrase->0@
                } else {
                    self.session_passphrase->0@
                })
            },
    {
        let valid = uri::parses(args.indexer_uri.as_str());
        self.admit_import(args, identity, valid)
    }

    /// The wallet was built, is open, and its metadata is saved.
    pub fn imported(&mut self, prepared: Prepared)
        ensures
            final(self)@ == old(self)@.imported(prepared.meta, prepared.import.passphrase),
    {
        self.meta = Some(prepared.meta);
        self.client_open = true;
        self.session_passphrase = Some(prepared.import.passphrase);
        self.encrypted = true;
        self.notifications_enabled = true;
        self.fiat_enabled = false;
        self.discreet = false;
        self.session_locked = false;
        self.sync = SyncStatus::default();
        self.notify.reset();
        self.generation = self.generation.wrapping_add(1);
        self.following = false;
    }
}

/// A fresh import is anchored to the chain it was made on: that chain matches from then
/// on, however much longer it has grown.
pub proof fn an_import_matches_its_chain(
    meta: Meta,
    import: Import,
    birthday: u32,
    tip: u32,
    anchor_hash: String,
    tip_now: u32,
)
    requires
        is_import_meta(meta, import, birthday, tip, anchor_hash),
        1 <= tip <= tip_now,
    ensures
        chain::verdict(
            meta.anchor_height,
            ipc::text_view(meta.anchor_hash),
            meta.scan_target_height,
            tip_now,
            Some(anchor_hash@),
        ) is Match,
{
}

// ---------------------------------------------------------------------------
// Judging a server
// ---------------------------------------------------------------------------

/// What a server is judged by: the Wallet's Anchor, and how far it has been scanned.
pub struct Probe {
    pub anchor_height: u32,
    pub anchor_hash: Option<String>,
    pub scan_target_height: u32,
}

impl Probe {
    /// What a wallet's server is judged by.
    pub open spec fn of(meta: Meta) -> Probe {
        Probe {
            anchor_height: meta.anchor_height,
            anchor_hash: meta.anchor_hash,
            scan_target_height: meta.scan_target_height,
        }
    }

    /// What a wallet's server is judged by.
    pub fn of_meta(meta: &Meta) -> (r: Self)
        ensures
            r == Probe::of(*meta),
    {
        Probe {
            anchor_height: meta.anchor_height,
            anchor_hash: ipc::clone_text(&meta.anchor_hash),
            scan_target_height: meta.scan_target_height,
        }
    }

    /// The height whose block the server is to be asked for: that of the Anchor, where
    /// there is one.
    pub fn asks_for(&self) -> (r: Option<u32>)
        ensures
            r == if self.anchor_hash is Some {
                Some(self.anchor_height)
            } else {
                None
            },
    {
        if self.anchor_hash.is_some() {
            Some(self.anchor_height)
        } else {
            None
        }
    }

    /// The verdict on what a server reported.
    pub open spec fn verdict(self, obs: ChainObservation) -> chain::Verdict {
        chain::verdict(
            self.anchor_height,
            ipc::text_view(self.anchor_hash),
            self.scan_target_height,
            obs.tip,
            ipc::text_view(obs.anchor_block_hash),
        )
    }

    /// The verdict on what a server reported.
    pub fn judge(&self, obs: &ChainObservation) -> (r: ChainVerdict)
        ensures
            r@ == self.verdict(*obs),
    {
        let expected = match &self.anchor_hash {
            Some(hash) => Some(hash.as_str()),
            None => None,
        };
        chain::chain_verdict(self.anchor_height, expected, self.scan_target_height, obs)
    }
}

/// A change of server that may go ahead. The candidate is to be asked for its tip, and for
/// the block at [`Probe::asks_for`] where its chain covers that.
pub struct IndexerChange {
    pub indexer_uri: String,
    pub probe: Probe,
}

/// A change of server whose candidate was accepted. The wallet is to be connected to it.
pub struct Accepted {
    pub indexer_uri: String,
}

/// A candidate server is on another chain.
pub open spec fn other_chain(detail: Seq<char>) -> Seq<char> {
    "that server is serving a different chain than this Wallet synced: "@ + detail + "."@
}

impl IndexerChange {
    /// The candidate was asked who it is. It may be switched to if it answered and serves
    /// the Wallet's chain, as far as that can be told.
    pub fn observed(self, observed: Result<ChainObservation, String>) -> (r: Result<
        Accepted,
        String,
    >)
        ensures
            match observed {
                Err(e) => r == Err::<Accepted, String>(e),
                Ok(obs) => match self.probe.verdict(obs) {
                    chain::Verdict::WrongChain { detail } => r is Err && r->Err_0@ == other_chain(
                        detail,
                    ),
                    _ => r == Ok::<Accepted, String>(Accepted { indexer_uri: self.indexer_uri }),
                },
            },
    {
        let obs = match observed {
            Err(e) => return Err(e),
            Ok(obs) => obs,
        };
        match self.probe.judge(&obs) {
            ChainVerdict::WrongChain { detail } => {
                let mut e =
                    "that server is serving a different chain than this Wallet synced: ".to_string();
                e.append(detail.as_str());
                e.append(".");
                Err(e)
            },
            _ => Ok(Accepted { indexer_uri: self.indexer_uri }),
        }
    }
}

// ---------------------------------------------------------------------------
// Changing the server
// ---------------------------------------------------------------------------

/// Why a change of server is refused before the server is asked, if it is.
pub open spec fn indexer_refusal(s: service::State, valid_uri: bool) -> Option<Seq<char>> {
    if s.meta is None {
        Some("no wallet to set the indexer for"@)
    } else if s.session_locked {
        Some("wallet is locked; unlock before changing the indexer"@)
    } else if !valid_uri {
        Some("invalid indexer uri"@)
    } else {
        None
    }
}

impl WalletService {
    /// Whether the running Wallet may be pointed at a different Indexer, given whether
    /// its address is a URI, and what the candidate is judged by.
    pub fn admit_indexer(&self, indexer_uri: String, valid_uri: bool) -> (r: Result<
        IndexerChange,
        String,
    >)
        ensures
            match indexer_refusal(self@, valid_uri) {
                Some(e) => r is Err && r->Err_0@ == e,
                None => r == Ok::<IndexerChange, String>(
                    IndexerChange { indexer_uri, probe: Probe::of(self.meta->0) },
                ),
            },
    {
        let meta = match &self.meta {
            None => return Err("no wallet to set the indexer for".to_string()),
            Some(meta) => meta,
        };
        if self.session_locked {
            return Err("wallet is locked; unlock before changing the indexer".to_string());
        }
        if !valid_uri {
            return Err("invalid indexer uri".to_string());
        }
        Ok(IndexerChange { indexer_uri, probe: Probe::of_meta(meta) })
    }

    /// Whether the running Wallet may be pointed at a different Indexer, and what the
    /// candidate is judged by. It is probed and judged ([`IndexerChange::observed`])
    /// before anything changes.
    pub fn set_indexer(&self, indexer_uri: String) -> (r: Result<IndexerChange, String>)
        ensures
            match indexer_refusal(self@, uri::is_uri(indexer_uri@)) {
                Some(e) => r is Err && r->Err_0@ == e,
                None => r == Ok::<IndexerChange, String>(
                    IndexerChange { indexer_uri, probe: Probe::of(self.meta->0) },
                ),
            },
    {
        let valid = uri::parses(indexer_uri.as_str());
        self.admit_indexer(indexer_uri, valid)
    }

    /// Whether the wallet is open, so that its Indexer can be changed.
    pub fn can_retarget(&self) -> (r: Result<(), String>)
        ensures
            match r {
                Ok(()) => self.client_open,
                Err(e) => !self.client_open && e@ == "no wallet to set the indexer for"@,
            },
    {
        if self.client_open {
            Ok(())
        } else {
            Err("no wallet to set the indexer for".to_string())
        }
    }

    /// The wallet is connected to the new Indexer: it is recorded, only now, so that a
    /// rejected address never sticks. Returns the metadata to save, where there is any;
    /// [`Self::indexer_saved`] is then called.
    pub fn retargeted(&mut self, active: &FileRead, accepted: Accepted) -> (r: Option<MetaSave>)
        ensures
            match old(self).meta {
                Some(meta) => {
                    &&& final(self)@ == (service::State {
                        meta: Some(Meta { indexer_uri: accepted.indexer_uri, ..meta }),
                        ..old(self)@
                    })
                    &&& r is Some
                    &&& final(self)@.saved_by(paths::active_id_or_none(*active), r->0)
                },
                None => r is None && final(self)@ == old(self)@,
            },
    {
        if let Some(taken) = self.meta.take() {
            let mut meta = taken;
            meta.indexer_uri = accepted.indexer_uri;
            self.meta = Some(meta);
        }
        self.to_save(active)
    }

    /// The change of server is saved. A switch starts a fresh episode, so a dead or wrong
    /// new Indexer notifies too. Returns whether a sync loop is running and is to be
    /// woken, so that its new round starts now; a wallet that nobody asked to sync stays
    /// idle.
    pub fn indexer_saved(&mut self) -> (r: bool)
        ensures
            r == old(self).following,
            final(self)@ == old(self)@.on_new_server(),
            final(self).sync.one_cause(),
    {
        self.sync.state =
        if self.following {
            SyncState::Syncing
        } else {
            SyncState::Idle
        };
        self.sync.error = None;
        self.sync.unreachable = false;
        self.sync.wrong_chain = false;
        self.unreachable_notified = false;
        self.wrong_chain_notified = false;
        self.following
    }
}

/// A server that carries the Wallet's Anchor is accepted, and one with another block in
/// its place is not.
pub proof fn only_the_anchored_chain_is_accepted(probe: Probe, obs: ChainObservation)
    requires
        probe.anchor_hash is Some,
        obs.tip >= probe.anchor_height,
    ensures
        !(probe.verdict(obs) is WrongChain) <==> ipc::text_view(obs.anchor_block_hash)
            == ipc::text_view(probe.anchor_hash),
{
}

// ---------------------------------------------------------------------------
// From the request to the engine
// ---------------------------------------------------------------------------

/// What was asked for is what is built: the engine gets the very key that the request
/// carried and the birthday that was settled, and the wallet's metadata bears the network
/// and the server of the request, the key's fingerprint, the tip as the end of the Initial
/// scan, and the block that the server was asked for as its Anchor. It is encrypted, with
/// the passphrase that was sent, or else with the one that the session held.
pub proof fn what_was_asked_for_is_imported(
    args: ImportUfvkArgs,
    identity: UfvkIdentity,
    held: Option<String>,
    prepared: Prepared,
    birthday: u32,
    tip: u32,
    hash: String,
    config: WalletConfig,
)
    requires
        is_admitted(prepared.import, args, identity, held),
        is_import_meta(prepared.meta, prepared.import, birthday, tip, hash),
        config == (WalletConfig::Ufvk {
            ufvk: prepared.import.ufvk,
            birthday: prepared.meta.birthday_height,
        }),
    ensures
        config->ufvk@ == args.ufvk@,
        config->birthday == birthday,
        prepared.import.id@ == identity.fingerprint@,
        args.passphrase matches Some(sent) ==> prepared.import.passphrase@ == sent@,
        args.passphrase is None ==> held is Some && prepared.import.passphrase@ == held->0@,
        prepared.meta.network == args.network,
        prepared.meta.indexer_uri@ == args.indexer_uri@,
        prepared.meta.import_type == ImportType::Ufvk,
        prepared.meta.view_mode == ViewMode::Full,
        prepared.meta.birthday_height == birthday,
        prepared.meta.scan_target_height == tip,
        prepared.meta.encrypted,
        ipc::text_view(prepared.meta.fingerprint) == Some(identity.fingerprint@),
        prepared.meta.label is None,
        prepared.meta.notifications_enabled,
        !prepared.meta.fiat_enabled,
        !prepared.meta.discreet,
        ipc::text_view(prepared.meta.anchor_hash) == Some(hash@),
        1 <= birthday <= tip ==> prepared.meta.anchor_height == birthday,
        1 <= tip < birthday ==> prepared.meta.anchor_height == tip,
        birthday == 0 || tip == 0 ==> prepared.meta.anchor_height == 1,
{
}

/// An import goes ahead exactly where the key decodes, is on the network that was asked
/// for, there is a passphrase to encrypt with, and the server's address is a URI. A key
/// that does not decode is refused with the decoder's own words, one of the other network
/// with both their names.
pub proof fn only_a_sound_import_goes_ahead(
    args: ImportUfvkArgs,
    identity: Result<UfvkIdentity, String>,
    held: Option<String>,
    valid_uri: bool,
)
    ensures
        import_refusal(args, identity, held, valid_uri) is None <==> {
            &&& identity is Ok
            &&& identity->Ok_0.network is Mainnet <==> args.network is Mainnet
            &&& args.passphrase is Some || held is Some
            &&& valid_uri
        },
        identity matches Err(e) ==> import_refusal(args, identity, held, valid_uri) == Some(e@),
        identity matches Ok(key) ==> {
            &&& key.network is Mainnet && args.network is Regtest ==> import_refusal(
                args,
                identity,
                held,
                valid_uri,
            ) == Some("the key is "@ + "Mainnet"@ + " but the import requested "@ + "Regtest"@)
            &&& key.network is Regtest && args.network is Mainnet ==> import_refusal(
                args,
                identity,
                held,
                valid_uri,
            ) == Some("the key is "@ + "Regtest"@ + " but the import requested "@ + "Mainnet"@)
            &&& (key.network is Mainnet <==> args.network is Mainnet) && args.passphrase is None
                && held is None ==> import_refusal(args, identity, held, valid_uri) == Some(
                "no session passphrase held for this import"@,
            )
            &&& (key.network is Mainnet <==> args.network is Mainnet) && (args.passphrase is Some
                || held is Some) && !valid_uri ==> import_refusal(args, identity, held, valid_uri)
                == Some("invalid indexer uri"@)
        },
{
}

/// A server is judged by the wallet's own Anchor: it matches exactly where its chain
/// reaches the Anchor's height and has the Anchor's block there. Without an Anchor the end
/// of the Initial scan decides, which a server may lag behind by a hundred blocks.
pub proof fn a_server_is_judged_by_the_wallets_own_anchor(meta: Meta, obs: ChainObservation)
    ensures
        ({
            let v = Probe::of(meta).verdict(obs);
            match meta.anchor_hash {
                Some(hash) => {
                    &&& v is Match <==> obs.tip >= meta.anchor_height && obs.anchor_block_hash is Some
                        && obs.anchor_block_hash->0@ == hash@
                    &&& !(v is Match) ==> v is WrongChain
                },
                None => {
                    &&& v is WrongChain <==> obs.tip + 100 < meta.scan_target_height
                    &&& !(v is WrongChain) ==> v is Unanchored
                },
            }
        }),
        Probe::of(meta).anchor_height == meta.anchor_height,
        Probe::of(meta).anchor_hash == meta.anchor_hash,
        Probe::of(meta).scan_target_height == meta.scan_target_height,
{
}

/// A change of server may go ahead exactly where there is a wallet, its session is not
/// locked, and the address is a URI; what is in the way is told in this order.
pub proof fn only_an_unlocked_wallet_changes_its_server(s: service::State, valid_uri: bool)
    ensures
        indexer_refusal(s, valid_uri) is None <==> s.meta is Some && !s.session_locked && valid_uri,
        s.meta is None ==> indexer_refusal(s, valid_uri) == Some(
            "no wallet to set the indexer for"@,
        ),
        s.meta is Some && s.session_locked ==> indexer_refusal(s, valid_uri) == Some(
            "wallet is locked; unlock before changing the indexer"@,
        ),
        s.meta is Some && !s.session_locked && !valid_uri ==> indexer_refusal(s, valid_uri) == Some(
            "invalid indexer uri"@,
        ),
{
}

/// From the request to the engine: where the import is admitted, the Indexer tells its tip
/// and has the block, the engine is to build the very key that the request carried, from
/// the birthday that was settled.
pub proof fn the_key_sent_reaches_the_engine(
    service: WalletService,
    args: ImportUfvkArgs,
    identity: Result<UfvkIdentity, String>,
    import: Import,
    birthday: u32,
    tip: Result<u32, String>,
    anchoring: Anchoring,
    block: Result<Option<String>, String>,
    prepared: Prepared,
    config: WalletConfig,
)
    requires
        call_ensures(
            WalletService::import_ufvk,
            (&service, args, identity),
            Ok::<Import, String>(import),
        ),
        call_ensures(
            Import::with_tip,
            (import, birthday, tip),
            Ok::<Anchoring, String>(anchoring),
        ),
        call_ensures(
            Anchoring::with_block,
            (anchoring, block),
            Ok::<Prepared, String>(prepared),
        ),
        call_ensures(Prepared::wallet_config, (&prepared,), config),
    ensures
        config is Ufvk,
        config->ufvk@ == args.ufvk@,
        config->birthday == birthday,
{
}

/// An import that was built is the wallet at hand, under its own passphrase, and idle.
pub proof fn the_import_built_is_at_hand(prepared: Prepared)
    ensures
        forall|m: &mut WalletService| #[trigger]
            call_ensures(WalletService::imported, (m, prepared), ()) ==> {
                let (before, after) = (*m, *final(m));
                &&& after.meta == Some(prepared.meta) && after.client_open
                &&& after.session_passphrase is Some && after.session_passphrase->0@
                    == prepared.import.passphrase@
                &&& after.encrypted && !after.session_locked
                &&& !after.following && after.generation != before.generation
                &&& after.notifications_enabled && !after.fiat_enabled && !after.discreet
                &&& after.sync == SyncStatus::fresh()
            },
{
}

/// A change of server goes from the request to the metadata: the very address that was asked
/// for, once its server is accepted, replaces that of the wallet at hand and nothing else,
/// and is saved in the active wallet's file.
pub proof fn the_server_asked_for_is_the_wallets(
    service: WalletService,
    indexer_uri: String,
    change: IndexerChange,
    observed: Result<ChainObservation, String>,
    accepted: Accepted,
    active: FileRead,
)
    requires
        call_ensures(
            WalletService::set_indexer,
            (&service, indexer_uri),
            Ok::<IndexerChange, String>(change),
        ),
        call_ensures(
            IndexerChange::observed,
            (change, observed),
            Ok::<Accepted, String>(accepted),
        ),
    ensures
        service.meta is Some && !service.session_locked && uri::is_uri(indexer_uri@),
        observed is Ok,
        service.meta->0.anchor_hash matches Some(hash) ==> observed->Ok_0.tip
            >= service.meta->0.anchor_height && observed->Ok_0.anchor_block_hash is Some
            && observed->Ok_0.anchor_block_hash->0@ == hash@,
        forall|m: &mut WalletService, r: Option<MetaSave>| #[trigger]
            call_ensures(WalletService::retargeted, (m, &active, accepted), r) ==> {
                let (before, after) = (*m, *final(m));
                &&& r is Some <==> before.meta is Some
                &&& before.meta matches Some(meta) ==> {
                    &&& r->0.meta.indexer_uri@ == indexer_uri@
                    &&& r->0.meta == (Meta { indexer_uri: r->0.meta.indexer_uri, ..meta })
                    &&& after.meta == Some(r->0.meta)
                    &&& r->0.file@ == before.paths@.active(
                        paths::active_id_or_none(active),
                    ).meta_file
                }
                &&& after@ == (service::State { meta: after.meta, ..before@ })
            },
{
    a_server_is_judged_by_the_wallets_own_anchor(service.meta->0, observed->Ok_0);
}

/// An import on disk touches its own wallet's directory and the file that names the active
/// one, which it then is.
pub proof fn an_import_touches_its_own_directory(
    prepared: Prepared,
    layout: Paths,
    plan: DiskPlan,
    active: FileRead,
    save: MetaSave,
)
    requires
        call_ensures(Prepared::on_disk, (&prepared, &layout), plan),
        call_ensures(Prepared::to_save, (&prepared, &layout, &active), save),
    ensures
        plan.wipe@ == layout@.scoped(prepared.import.id@).wallet_dir,
        plan.active_file@ == layout.active_id_file@,
        plan.active_id@ == encode_utf8(prepared.import.id@),
        plan.dirs@.len() == 2,
        plan.dirs@[0].path@ == layout.wallets_dir@,
        plan.dirs@[1].path@ == layout@.scoped(prepared.import.id@).wallet_dir,
        save.meta == prepared.meta,
        paths::active_id_or_none(active) == Some(prepared.import.id@) ==> save.file@
            == layout@.scoped(prepared.import.id@).meta_file,
{
}

/// A server without the block to anchor to is refused with the height that was asked for,
/// and one that cannot be reached with its own error.
pub proof fn a_server_without_the_block_is_refused(
    anchoring: Anchoring,
    asked: u32,
    block: Result<Option<String>, String>,
    r: Result<Prepared, String>,
)
    requires
        call_ensures(Anchoring::asks_for, (&anchoring,), asked),
        call_ensures(Anchoring::with_block, (anchoring, block), r),
    ensures
        r is Ok <==> block is Ok && block->Ok_0 is Some,
        block matches Err(e) ==> r is Err && r->Err_0@ == e@,
        block is Ok && block->Ok_0 is None ==> r is Err && r->Err_0@
            == "that server has no block at height "@ + text::decimal(asked as nat),
        r is Ok ==> r->Ok_0.meta.anchor_height == asked,
        1 <= anchoring.birthday <= anchoring.tip ==> asked == anchoring.birthday,
        1 <= anchoring.tip <= anchoring.birthday ==> asked == anchoring.tip,
{
}

/// A candidate on another chain is refused with what is wrong about it, one that does not
/// answer with its own error, and any other is accepted under the address it was asked at.
pub proof fn a_candidate_is_refused_for_its_chain(
    change: IndexerChange,
    observed: Result<ChainObservation, String>,
    r: Result<Accepted, String>,
)
    requires
        call_ensures(IndexerChange::observed, (change, observed), r),
    ensures
        observed matches Err(e) ==> r is Err && r->Err_0@ == e@,
        observed matches Ok(obs) ==> (r is Err <==> change.probe.verdict(obs) is WrongChain),
        observed matches Ok(obs) ==> (change.probe.verdict(obs) matches chain::Verdict::WrongChain {
            detail,
        } ==> r->Err_0@ == "that server is serving a different chain than this Wallet synced: "@
            + detail + "."@),
        r matches Ok(accepted) ==> accepted.indexer_uri@ == change.indexer_uri@,
{
}

/// A saved change of server wakes the loop exactly where one runs.
pub proof fn a_saved_change_wakes_a_running_loop()
    ensures
        forall|m: &mut WalletService, r: bool| #[trigger]
            call_ensures(WalletService::indexer_saved, (m,), r) ==> {
                let (before, after) = (*m, *final(m));
                &&& r == before.following && after.following == before.following
                &&& after.sync.state is Syncing <==> before.following
                &&& after.sync.error is None && !after.sync.unreachable && !after.sync.wrong_chain
                &&& !after.unreachable_notified && !after.wrong_chain_notified
                &&& after.meta == before.meta
            },
{
}

} // verus!
