//! Filesystem layout and persisted import metadata.
//!
//! Layout (multi-wallet ready):
//!
//! ```text
//! $PENDRAKE_DATA_DIR/
//!   active_wallet_id      # which wallet is selected
//!   daemon.sock
//!   price_cache.json      # shared; public ZEC/USD only
//!   wallets/
//!     <id>/
//!       meta.json
//!       wallet/           # the engine's wallet dir
//!       notified.json     # per-wallet seen-set
//! ```
//!
//! A legacy single-wallet tree (`meta.json` + `wallet/` at the data root) is
//! migrated once into `wallets/<id>/` on startup. `meta.json` is plaintext and holds
//! nothing secret; the viewing key lives only inside the encrypted wallet file.
//!
//! A path is the byte string the operating system knows it by. This module says where
//! things are and what is to be done with them; reading, writing and moving is the
//! caller's, who hands back what came of it.

use vstd::prelude::*;
use vstd::string::*;
use vstd::utf8::*;

use crate::ipc;
use crate::ipc::{ImportType, Network, ViewMode};
use crate::text;
use crate::transport;
use crate::transport::Platform;

verus! {

broadcast use vstd::string::group_string_axioms;

// ---------------------------------------------------------------------------
// The layout
// ---------------------------------------------------------------------------

pub struct Paths {
    /// The system whose paths these are.
    pub platform: Platform,
    pub root: Vec<u8>,
    pub socket: Vec<u8>,
    /// Reconciled spot + daily price series. Shared across wallets.
    pub price_cache_file: Vec<u8>,
    /// `$root/wallets`.
    pub wallets_dir: Vec<u8>,
    /// File holding the active wallet id (one line).
    pub active_id_file: Vec<u8>,
    /// Set when this `Paths` is scoped to a wallet via [`Self::for_wallet`].
    pub wallet_id: Option<String>,
    /// The engine's wallet directory for the active (or scoped) wallet.
    pub wallet_dir: Vec<u8>,
    pub meta_file: Vec<u8>,
    /// Txids already notified for this wallet.
    pub notified_file: Vec<u8>,
}

/// What a [`Paths`] says.
#[verifier::ext_equal]
pub struct Layout {
    pub platform: Platform,
    pub root: Seq<u8>,
    pub socket: Seq<u8>,
    pub price_cache_file: Seq<u8>,
    pub wallets_dir: Seq<u8>,
    pub active_id_file: Seq<u8>,
    pub wallet_id: Option<Seq<char>>,
    pub wallet_dir: Seq<u8>,
    pub meta_file: Seq<u8>,
    pub notified_file: Seq<u8>,
}

impl View for Paths {
    type V = Layout;

    open spec fn view(&self) -> Layout {
        Layout {
            platform: self.platform,
            root: self.root@,
            socket: self.socket@,
            price_cache_file: self.price_cache_file@,
            wallets_dir: self.wallets_dir@,
            active_id_file: self.active_id_file@,
            wallet_id: ipc::text_view(self.wallet_id),
            wallet_dir: self.wallet_dir@,
            meta_file: self.meta_file@,
            notified_file: self.notified_file@,
        }
    }
}

impl Layout {
    /// The layout under a data root, scoped to no wallet. The wallet's own files then
    /// bear their legacy names at the root.
    pub open spec fn rooted(platform: Platform, root: Seq<u8>) -> Layout {
        Layout {
            platform,
            root,
            socket: platform.within(root, "daemon.sock"@),
            price_cache_file: platform.within(root, "price_cache.json"@),
            wallets_dir: platform.within(root, "wallets"@),
            active_id_file: platform.within(root, "active_wallet_id"@),
            wallet_id: None,
            wallet_dir: platform.within(root, "wallet"@),
            meta_file: platform.within(root, "meta.json"@),
            notified_file: platform.within(root, "notified.json"@),
        }
    }

    /// The layout scoped to one wallet under `wallets/<id>/`.
    pub open spec fn scoped(self, id: Seq<char>) -> Layout {
        let dir = self.platform.within(self.wallets_dir, id);
        Layout {
            wallet_id: Some(id),
            wallet_dir: self.platform.within(dir, "wallet"@),
            meta_file: self.platform.within(dir, "meta.json"@),
            notified_file: self.platform.within(dir, "notified.json"@),
            ..self
        }
    }

    /// The layout scoped to the active wallet, if there is one.
    pub open spec fn active(self, id: Option<Seq<char>>) -> Layout {
        match id {
            Some(id) => self.scoped(id),
            None => self,
        }
    }
}

/// A copy of a path.
pub fn copy_path(path: &Vec<u8>) -> (r: Vec<u8>)
    ensures
        r@ == path@,
{
    let mut out: Vec<u8> = Vec::new();
    let mut i: usize = 0;
    while i < path.len()
        invariant
            i <= path@.len(),
            out@ == path@.take(i as int),
        decreases path@.len() - i,
    {
        out.push(path[i]);
        i = i + 1;
        assert(path@.take(i as int) =~= path@.take(i - 1).push(path@[i - 1]));
    }
    assert(path@.take(path@.len() as int) =~= path@);
    out
}

impl Clone for Paths {
    fn clone(&self) -> (r: Self)
        ensures
            r@ == self@,
    {
        Paths {
            platform: self.platform,
            root: copy_path(&self.root),
            socket: copy_path(&self.socket),
            price_cache_file: copy_path(&self.price_cache_file),
            wallets_dir: copy_path(&self.wallets_dir),
            active_id_file: copy_path(&self.active_id_file),
            wallet_id: ipc::clone_text(&self.wallet_id),
            wallet_dir: copy_path(&self.wallet_dir),
            meta_file: copy_path(&self.meta_file),
            notified_file: copy_path(&self.notified_file),
        }
    }
}

/// The data root: the override where one is given, else a directory of the service's own
/// in the per-user data directory.
pub open spec fn data_root(
    platform: Platform,
    data_dir_override: Option<Seq<u8>>,
    data_dir: Option<Seq<u8>>,
) -> Option<Seq<u8>> {
    match (data_dir_override, data_dir) {
        (Some(dir), _) => Some(dir),
        (None, Some(dir)) => Some(platform.within(dir, "pendrake-watch"@)),
        (None, None) => None,
    }
}

/// The view of an optional path.
pub open spec fn bytes_view(o: Option<Vec<u8>>) -> Option<Seq<u8>> {
    match o {
        Some(v) => Some(v@),
        None => None,
    }
}

/// The data root, which client and daemon each find for themselves.
pub fn find_data_root(
    platform: Platform,
    data_dir_override: Option<Vec<u8>>,
    data_dir: Option<Vec<u8>>,
) -> (r: Result<Vec<u8>, String>)
    ensures
        match data_root(platform, bytes_view(data_dir_override), bytes_view(data_dir)) {
            Some(root) => r is Ok && r->Ok_0@ == root,
            None => r is Err && r->Err_0@ == "could not determine OS data directory"@,
        },
{
    match data_dir_override {
        Some(dir) => Ok(dir),
        None => match data_dir {
            Some(dir) => Ok(platform.join(&dir, "pendrake-watch")),
            None => Err("could not determine OS data directory".to_string()),
        },
    }
}

/// A directory to create, and what a failure to do so is reported as.
pub struct NewDir {
    pub path: Vec<u8>,
    pub failure: String,
}

/// What came of reading a text file.
pub enum FileRead {
    Missing,
    /// It is there and could not be read.
    Failed,
    Text(String),
}

/// The id in the text of the active-id file: the text without the white space around
/// it, if anything is left.
pub open spec fn id_in(text: Seq<char>) -> Option<Seq<char>> {
    if text::trimmed(text).len() == 0 {
        None
    } else {
        Some(text::trimmed(text))
    }
}

/// The active wallet's id, where the file holding it could be read.
pub open spec fn active_id(read: FileRead) -> Result<Option<Seq<char>>, Seq<char>> {
    match read {
        FileRead::Missing => Ok(None),
        FileRead::Failed => Err("reading active_wallet_id"@),
        FileRead::Text(text) => Ok(id_in(text@)),
    }
}

/// The active wallet's id, taking a file that cannot be read for one that is missing.
pub open spec fn active_id_or_none(read: FileRead) -> Option<Seq<char>> {
    match active_id(read) {
        Ok(id) => id,
        Err(_) => None,
    }
}

/// The view of a read id.
pub open spec fn id_result(r: Result<Option<String>, String>) -> Result<
    Option<Seq<char>>,
    Seq<char>,
> {
    match r {
        Ok(id) => Ok(ipc::text_view(id)),
        Err(e) => Err(e@),
    }
}

/// An entry of the wallets directory.
pub struct DirEntry {
    pub name: Vec<u8>,
    pub is_dir: bool,
}

/// What came of listing a directory. An entry that could not be looked at is the error
/// it failed with.
pub enum Listing {
    Missing,
    Failed,
    Entries(Vec<Result<DirEntry, String>>),
}

/// The error of the first entry that could not be looked at.
pub open spec fn first_failure(entries: Seq<Result<DirEntry, String>>) -> Option<Seq<char>>
    decreases entries.len(),
{
    if entries.len() == 0 {
        None
    } else {
        match first_failure(entries.drop_last()) {
            Some(e) => Some(e),
            None => match entries.last() {
                Ok(_) => None,
                Err(e) => Some(e@),
            },
        }
    }
}

/// The names of the directories among the entries, in their order.
pub open spec fn dir_names(entries: Seq<Result<DirEntry, String>>) -> Seq<Seq<char>>
    decreases entries.len(),
{
    if entries.len() == 0 {
        seq![]
    } else {
        let before = dir_names(entries.drop_last());
        match entries.last() {
            Ok(entry) => if entry.is_dir {
                before.push(transport::lossy_text(entry.name@))
            } else {
                before
            },
            Err(_) => before,
        }
    }
}

/// The views of a list of texts.
pub open spec fn texts(v: Seq<String>) -> Seq<Seq<char>> {
    v.map_values(|s: String| s@)
}

/// Each text stands no later in the order of texts than the ones behind it.
pub open spec fn in_order(v: Seq<Seq<char>>) -> bool {
    forall|i: int, j: int| 0 <= i <= j < v.len() ==> text::text_le(#[trigger] v[i], #[trigger] v[j])
}

/// A file or directory to move.
pub struct Move {
    pub from: Vec<u8>,
    pub to: Vec<u8>,
}

/// What is found at the data root of a tree that may be a legacy one.
pub struct LegacyTree {
    /// Whether `meta.json` exists at the root.
    pub meta_exists: bool,
    /// The active-id file.
    pub active: FileRead,
    /// The `meta.json` at the root, as loaded.
    pub meta: Result<Option<Meta>, String>,
    /// Whether `wallet/` exists at the root.
    pub wallet_exists: bool,
    /// Whether `notified.json` exists at the root.
    pub notified_exists: bool,
}

/// How a legacy tree becomes a wallet under `wallets/<id>/`: create the directory, move
/// the wallet's directory, its metadata and, if that works, its seen-set, then make it
/// the active wallet.
pub struct Migration {
    pub id: String,
    pub dir: Vec<u8>,
    pub wallet: Option<Move>,
    pub meta: Move,
    pub notified: Option<Move>,
}

/// The id a legacy wallet gets: its fingerprint, or a fixed one where none is known.
pub open spec fn legacy_id(fingerprint: Option<Seq<char>>) -> Seq<char> {
    match fingerprint {
        Some(f) => if f.len() > 0 {
            f
        } else {
            "default"@
        },
        None => "default"@,
    }
}

/// A move between two paths.
pub open spec fn moves(m: Move, from: Seq<u8>, to: Seq<u8>) -> bool {
    m.from@ == from && m.to@ == to
}

/// A move between two paths that is due exactly under a condition.
pub open spec fn moves_if(m: Option<Move>, due: bool, from: Seq<u8>, to: Seq<u8>) -> bool {
    match m {
        Some(m) => due && moves(m, from, to),
        None => !due,
    }
}

impl Layout {
    /// Whether a tree is to be migrated, or why that cannot be told.
    pub open spec fn migrates(self, tree: LegacyTree) -> Result<Option<Meta>, Seq<char>> {
        if !tree.meta_exists {
            Ok(None)
        } else {
            match active_id(tree.active) {
                Err(e) => Err(e),
                Ok(Some(_)) => Ok(None),
                Ok(None) => match tree.meta {
                    Err(e) => Err(e@),
                    Ok(None) => Err("legacy meta.json missing after exists check"@),
                    Ok(Some(meta)) => Ok(Some(meta)),
                },
            }
        }
    }

    /// Whether a migration is the one that the tree asks for.
    pub open spec fn moved_by(self, tree: LegacyTree, meta: Meta, m: Migration) -> bool {
        let id = legacy_id(ipc::text_view(meta.fingerprint));
        let dest = self.scoped(id);
        &&& m.id@ == id
        &&& m.dir@ == self.platform.within(self.wallets_dir, id)
        &&& moves_if(
            m.wallet,
            tree.wallet_exists,
            self.platform.within(self.root, "wallet"@),
            dest.wallet_dir,
        )
        &&& moves(m.meta, self.platform.within(self.root, "meta.json"@), dest.meta_file)
        &&& moves_if(
            m.notified,
            tree.notified_exists,
            self.platform.within(self.root, "notified.json"@),
            dest.notified_file,
        )
    }
}

impl Paths {
    /// The paths of this process: under the override where one is given, else under the
    /// per-user data directory.
    pub fn resolve(
        platform: Platform,
        data_dir_override: Option<Vec<u8>>,
        data_dir: Option<Vec<u8>>,
    ) -> (r: Result<Self, String>)
        ensures
            match data_root(platform, bytes_view(data_dir_override), bytes_view(data_dir)) {
                Some(root) => r is Ok && r->Ok_0@ == Layout::rooted(platform, root),
                None => r is Err && r->Err_0@ == "could not determine OS data directory"@,
            },
    {
        match find_data_root(platform, data_dir_override, data_dir) {
            Ok(root) => Ok(Paths::with_root(platform, root)),
            Err(e) => Err(e),
        }
    }

    pub fn with_root(platform: Platform, root: Vec<u8>) -> (r: Self)
        ensures
            r@ == Layout::rooted(platform, root@),
    {
        let wallets_dir = platform.join(&root, "wallets");
        Paths {
            platform,
            socket: platform.join(&root, "daemon.sock"),
            price_cache_file: platform.join(&root, "price_cache.json"),
            active_id_file: platform.join(&root, "active_wallet_id"),
            wallets_dir,
            wallet_id: None,
            // Placeholders until `for_wallet` / migration; legacy names kept so
            // the migration can still see the old root files.
            wallet_dir: platform.join(&root, "wallet"),
            meta_file: platform.join(&root, "meta.json"),
            notified_file: platform.join(&root, "notified.json"),
            root,
        }
    }

    /// Scope paths to one wallet under `wallets/<id>/`.
    pub fn for_wallet(&self, id: &str) -> (r: Self)
        ensures
            r@ == self@.scoped(id@),
    {
        let dir = self.platform.join(&self.wallets_dir, id);
        Paths {
            platform: self.platform,
            root: copy_path(&self.root),
            socket: copy_path(&self.socket),
            price_cache_file: copy_path(&self.price_cache_file),
            wallets_dir: copy_path(&self.wallets_dir),
            active_id_file: copy_path(&self.active_id_file),
            wallet_id: Some(id.to_string()),
            wallet_dir: self.platform.join(&dir, "wallet"),
            meta_file: self.platform.join(&dir, "meta.json"),
            notified_file: self.platform.join(&dir, "notified.json"),
        }
    }

    /// The paths scoped to the wallet that the active-id file names, if it names one.
    pub fn scoped_paths(&self, active: &FileRead) -> (r: Self)
        ensures
            r@ == self@.active(active_id_or_none(*active)),
    {
        match self.read_active_id(active) {
            Ok(Some(id)) => self.for_wallet(id.as_str()),
            _ => self.clone(),
        }
    }

    /// The directories to create before anything is written: that of the wallets, and
    /// that of the wallet these paths are scoped to.
    pub fn ensure_dirs(&self) -> (r: Vec<NewDir>)
        ensures
            r@.len() == if self.wallet_id is Some {
                2int
            } else {
                1
            },
            r@[0].path@ == self.wallets_dir@,
            r@[0].failure@ == "creating wallets dir "@ + transport::lossy_text(self.wallets_dir@),
            self.wallet_id is Some ==> {
                &&& r@[1].path@ == self.wallet_dir@
                &&& r@[1].failure@ == "creating wallet dir "@ + transport::lossy_text(
                    self.wallet_dir@,
                )
            },
    {
        let mut dirs: Vec<NewDir> = Vec::new();
        let mut failure = "creating wallets dir ".to_string();
        let shown = transport::to_lossy_text(self.wallets_dir.as_slice());
        failure.append(shown.as_str());
        dirs.push(NewDir { path: copy_path(&self.wallets_dir), failure });
        if self.wallet_id.is_some() {
            let mut failure = "creating wallet dir ".to_string();
            let shown = transport::to_lossy_text(self.wallet_dir.as_slice());
            failure.append(shown.as_str());
            dirs.push(NewDir { path: copy_path(&self.wallet_dir), failure });
        }
        dirs
    }

    /// The active wallet's id, from what was read of the file holding it.
    pub fn read_active_id(&self, read: &FileRead) -> (r: Result<Option<String>, String>)
        ensures
            id_result(r) == active_id(*read),
    {
        match read {
            FileRead::Text(s) => {
                let id = text::trim(s.as_str());
                if text::same_text(id.as_str(), "") {
                    proof {
                        reveal_strlit("");
                    }
                    Ok(None)
                } else {
                    proof {
                        reveal_strlit("");
                        if id@.len() == 0 {
                            assert(id@ =~= ""@);
                        }
                    }
                    Ok(Some(id))
                }
            },
            FileRead::Missing => Ok(None),
            FileRead::Failed => Err("reading active_wallet_id".to_string()),
        }
    }

    /// What to write to make a wallet the active one: the file and its bytes.
    pub fn write_active_id(&self, id: &str) -> (r: (Vec<u8>, Vec<u8>))
        ensures
            r.0@ == self.active_id_file@,
            r.1@ == encode_utf8(id@),
    {
        let bytes = id.as_bytes();
        let mut out: Vec<u8> = Vec::new();
        let mut i: usize = 0;
        assert(out@ =~= bytes@.take(0));
        while i < bytes.len()
            invariant
                i <= bytes@.len(),
                out@ == bytes@.take(i as int),
            decreases bytes@.len() - i,
        {
            out.push(bytes[i]);
            i = i + 1;
            assert(bytes@.take(i as int) =~= bytes@.take(i - 1).push(bytes@[i - 1]));
        }
        assert(bytes@.take(bytes@.len() as int) =~= bytes@);
        (copy_path(&self.active_id_file), out)
    }

    /// The ids of the wallets on disk: the names of the directories among the wallets
    /// directory's entries, in order.
    pub fn list_wallet_ids(&self, listing: &Listing) -> (r: Result<Vec<String>, String>)
        ensures
            match *listing {
                Listing::Missing => r is Ok && r->Ok_0@.len() == 0,
                Listing::Failed => r is Err && r->Err_0@ == "reading wallets dir"@,
                Listing::Entries(entries) => match first_failure(entries@) {
                    Some(e) => r is Err && r->Err_0@ == e,
                    None => {
                        &&& r is Ok
                        &&& in_order(texts(r->Ok_0@))
                        &&& texts(r->Ok_0@).to_multiset() == dir_names(entries@).to_multiset()
                    },
                },
            },
    {
        let entries = match listing {
            Listing::Missing => return Ok(Vec::new()),
            Listing::Failed => return Err("reading wallets dir".to_string()),
            Listing::Entries(entries) => entries,
        };
        let mut ids: Vec<String> = Vec::new();
        let mut i: usize = 0;
        proof {
            assert(entries@.take(0) =~= seq![]);
            assert(texts(ids@) =~= seq![]);
        }
        while i < entries.len()
            invariant
                i <= entries@.len(),
                first_failure(entries@.take(i as int)) is None,
                in_order(texts(ids@)),
                texts(ids@).to_multiset() == dir_names(entries@.take(i as int)).to_multiset(),
                *listing == Listing::Entries(*entries),
            decreases entries@.len() - i,
        {
            proof {
                assert(entries@.take(i + 1).drop_last() =~= entries@.take(i as int));
                assert(entries@.take(i + 1).last() == entries@[i as int]);
            }
            match &entries[i] {
                Ok(entry) => {
                    if entry.is_dir {
                        let name = transport::to_lossy_text(entry.name.as_slice());
                        let ghost before = texts(ids@);
                        insert_in_order(&mut ids, name);
                        proof {
                            let names = dir_names(entries@.take(i as int));
                            vstd::seq_lib::to_multiset_build(names, name@);
                            vstd::seq_lib::to_multiset_build(before, name@);
                        }
                    }
                },
                Err(e) => {
                    proof {
                        first_failure_stays(entries@, i + 1);
                    }
                    return Err(e.clone());
                },
            }
            i = i + 1;
        }
        proof {
            assert(entries@.take(entries@.len() as int) =~= entries@);
        }
        Ok(ids)
    }

    /// Whether a legacy root-level wallet is to be moved into `wallets/<id>/`, and how.
    pub fn migrate_legacy_if_needed(&self, tree: &LegacyTree) -> (r: Result<
        Option<Migration>,
        String,
    >)
        ensures
            match self@.migrates(*tree) {
                Err(e) => r is Err && r->Err_0@ == e,
                Ok(None) => r is Ok && r->Ok_0 is None,
                Ok(Some(meta)) => r is Ok && r->Ok_0 is Some && self@.moved_by(
                    *tree,
                    meta,
                    r->Ok_0->0,
                ),
            },
    {
        if !tree.meta_exists {
            return Ok(None);
        }
        match self.read_active_id(&tree.active) {
            Err(e) => return Err(e),
            Ok(Some(_)) => return Ok(None),
            Ok(None) => {},
        }
        let meta = match &tree.meta {
            Err(e) => return Err(e.clone()),
            Ok(None) => return Err("legacy meta.json missing after exists check".to_string()),
            Ok(Some(meta)) => meta,
        };
        proof {
            reveal_strlit("");
        }
        let id = match &meta.fingerprint {
            Some(f) => if text::same_text(f.as_str(), "") {
                "default".to_string()
            } else {
                assert(f@.len() == 0 ==> f@ =~= ""@);
                f.clone()
            },
            None => "default".to_string(),
        };
        let dest = self.for_wallet(id.as_str());
        let wallet = if tree.wallet_exists {
            Some(Move { from: self.platform.join(&self.root, "wallet"), to: dest.wallet_dir })
        } else {
            None
        };
        let notified = if tree.notified_exists {
            Some(
                Move {
                    from: self.platform.join(&self.root, "notified.json"),
                    to: dest.notified_file,
                },
            )
        } else {
            None
        };
        let meta = Move { from: self.platform.join(&self.root, "meta.json"), to: dest.meta_file };
        let dir = self.platform.join(&self.wallets_dir, id.as_str());
        Ok(Some(Migration { id, dir, wallet, meta, notified }))
    }

    /// The IPC endpoint the server binds and clients connect to: the socket path on Unix,
    /// a named pipe on Windows. Derived from `root` so an override of the data directory
    /// keeps client and daemon in agreement.
    pub fn endpoint(&self) -> (r: String)
        ensures
            r@ == transport::endpoint_of(self.platform, self.root@),
    {
        transport::endpoint(self.platform, &self.root)
    }
}

proof fn first_failure_stays(entries: Seq<Result<DirEntry, String>>, n: int)
    requires
        0 <= n <= entries.len(),
        first_failure(entries.take(n)) is Some,
    ensures
        first_failure(entries) == first_failure(entries.take(n)),
    decreases entries.len(),
{
    if n == entries.len() {
        assert(entries.take(n) =~= entries);
    } else {
        assert(entries.drop_last().take(n) =~= entries.take(n));
        first_failure_stays(entries.drop_last(), n);
    }
}

/// Put a text in its place among texts that are in order.
fn insert_in_order(ids: &mut Vec<String>, name: String)
    requires
        in_order(texts(old(ids)@)),
    ensures
        in_order(texts(final(ids)@)),
        texts(final(ids)@).to_multiset() == texts(old(ids)@).to_multiset().insert(name@),
{
    let mut at: usize = ids.len();
    while at > 0 && text::text_before(name.as_str(), ids[at - 1].as_str())
        invariant
            at <= ids@.len(),
            in_order(texts(ids@)),
            ids@ == old(ids)@,
            forall|k: int|
                at <= k < ids@.len() ==> text::text_le(name@, (#[trigger] ids@[k])@),
        decreases at,
    {
        proof {
            text::text_le_total(name@, ids@[at - 1]@);
        }
        at = at - 1;
    }
    let ghost before = texts(ids@);
    proof {
        assert(before =~= texts(old(ids)@));
        if at > 0 {
            text::text_le_total(name@, ids@[at - 1]@);
        }
        assert forall|k: int| 0 <= k < at implies text::text_le(#[trigger] before[k], name@) by {
            assert(text::text_le(before[k], before[at - 1]));
            text::text_le_transitive(before[k], before[at - 1], name@);
        }
        assert forall|k: int| at <= k < before.len() implies text::text_le(
            name@,
            #[trigger] before[k],
        ) by {
            assert(before[k] == ids@[k]@);
        }
        text::text_le_total(name@, name@);
        vstd::seq_lib::to_multiset_insert(before, at as int, name@);
    }
    ids.insert(at, name);
    proof {
        assert(texts(ids@) =~= before.insert(at as int, name@));
    }
}

// ---------------------------------------------------------------------------
// Laws of the layout
// ---------------------------------------------------------------------------

/// The active id that was written is the one that is read, unless white space stands
/// around it or nothing is left without it.
pub proof fn a_written_id_is_read(id: Seq<char>, file: String)
    requires
        file@ == id,
        id.len() > 0,
        text::trimmed(id) == id,
    ensures
        active_id(FileRead::Text(file)) == Ok::<_, Seq<char>>(Some(id)),
{
}

/// A legacy tree is moved once: with the migrated wallet active, there is nothing more
/// to migrate.
pub proof fn a_migrated_tree_is_left_alone(
    layout: Layout,
    tree: LegacyTree,
    meta: Meta,
    m: Migration,
    later: LegacyTree,
    file: String,
)
    requires
        layout.moved_by(tree, meta, m),
        text::trimmed(m.id@).len() > 0,
        file@ == m.id@,
        later.active == FileRead::Text(file),
    ensures
        layout.migrates(later) == Ok::<Option<Meta>, Seq<char>>(None),
{
}

/// Whether bytes are one plain name: no separator is among them, nor what sets a drive off.
pub open spec fn is_name(platform: Platform, bytes: Seq<u8>) -> bool {
    &&& forall|k: int| 0 <= k < bytes.len() ==> !platform.separates(#[trigger] bytes[k])
    &&& platform == Platform::Windows ==> !bytes.contains(transport::COLON)
}

/// A plain name goes behind a path with a separator between, where the path ends in a plain
/// name itself.
proof fn name_within(platform: Platform, base: Seq<u8>, part: Seq<u8>)
    requires
        is_name(platform, part),
        base.len() > 0,
        !platform.separates(base.last()),
        base.last() != transport::COLON,
    ensures
        platform.joined(base, part) == base.push(platform.separator()) + part,
{
    if part.len() >= 2 {
        assert(part.contains(part[1]));
        assert(!platform.separates(part[0]));
    }
    if part.len() > 0 {
        assert(!platform.separates(part[0]));
    }
}

/// The names that the layout is made of are plain ones.
proof fn own_names(platform: Platform)
    ensures
        is_name(platform, encode_utf8("wallets"@)),
        encode_utf8("wallets"@).len() > 0,
        encode_utf8("wallets"@).last() == 's' as u8,
        is_name(platform, encode_utf8("meta.json"@)),
        is_name(platform, encode_utf8("wallet"@)),
        is_name(platform, encode_utf8("notified.json"@)),
{
    reveal_strlit("wallets");
    reveal_strlit("meta.json");
    reveal_strlit("wallet");
    reveal_strlit("notified.json");
    is_ascii_chars_encode_utf8("wallets"@);
    is_ascii_chars_encode_utf8("meta.json"@);
    is_ascii_chars_encode_utf8("wallet"@);
    is_ascii_chars_encode_utf8("notified.json"@);
}

/// The directory of the wallets ends in its own name.
proof fn wallets_end(platform: Platform, root: Seq<u8>)
    ensures
        ({
            let wallets = Layout::rooted(platform, root).wallets_dir;
            &&& wallets.len() > 0
            &&& wallets.last() == 's' as u8
        }),
{
    own_names(platform);
    let name = encode_utf8("wallets"@);
    assert(!platform.separates(name[0]));
    reveal_strlit("wallets");
    is_ascii_chars_encode_utf8("wallets"@);
    assert(name[1] == 'a' as u8);
    assert(platform.prefix_len(name) == 0);
    assert(platform.joined(root, name).last() == name.last());
}

/// The directory of a wallet with a plain name, and the files in it.
proof fn wallet_tree(platform: Platform, root: Seq<u8>, id: Seq<char>)
    requires
        encode_utf8(id).len() > 0,
        is_name(platform, encode_utf8(id)),
    ensures
        ({
            let layout = Layout::rooted(platform, root);
            let sep = seq![platform.separator()];
            let prefix = layout.wallets_dir.push(platform.separator());
            let dir = prefix + encode_utf8(id);
            let own = layout.scoped(id);
            &&& platform.within(layout.wallets_dir, id) == dir
            &&& own.meta_file == dir + sep + encode_utf8("meta.json"@)
            &&& own.wallet_dir == dir + sep + encode_utf8("wallet"@)
            &&& own.notified_file == dir + sep + encode_utf8("notified.json"@)
        }),
{
    own_names(platform);
    wallets_end(platform, root);
    let wallets = Layout::rooted(platform, root).wallets_dir;
    let x = encode_utf8(id);
    name_within(platform, wallets, x);
    let dir = platform.within(wallets, id);
    assert(dir.last() == x.last());
    assert(!platform.separates(x[x.len() - 1]));
    if platform == Platform::Windows {
        assert(x.contains(x[x.len() - 1]));
        assert(dir.last() != transport::COLON);
        name_within(platform, dir, encode_utf8("meta.json"@));
        name_within(platform, dir, encode_utf8("wallet"@));
        name_within(platform, dir, encode_utf8("notified.json"@));
    } else {
        assert(platform == Platform::Unix);
        unix_name_within(dir, encode_utf8("meta.json"@));
        unix_name_within(dir, encode_utf8("wallet"@));
        unix_name_within(dir, encode_utf8("notified.json"@));
    }
    let sep = seq![platform.separator()];
    assert(dir.push(platform.separator()) + encode_utf8("meta.json"@) =~= dir + sep + encode_utf8(
        "meta.json"@,
    ));
    assert(dir.push(platform.separator()) + encode_utf8("wallet"@) =~= dir + sep + encode_utf8(
        "wallet"@,
    ));
    assert(dir.push(platform.separator()) + encode_utf8("notified.json"@) =~= dir + sep
        + encode_utf8("notified.json"@));
}

/// On Unix a colon is a byte like any other.
proof fn unix_name_within(base: Seq<u8>, part: Seq<u8>)
    requires
        is_name(Platform::Unix, part),
        base.len() > 0,
        !Platform::Unix.separates(base.last()),
    ensures
        Platform::Unix.joined(base, part) == base.push(transport::SLASH) + part,
{
    if part.len() > 0 {
        assert(!Platform::Unix.separates(part[0]));
    }
}

/// The metadata of a wallet without a name, which has no directory of its own.
proof fn nameless_meta(platform: Platform, root: Seq<u8>, id: Seq<char>)
    requires
        encode_utf8(id).len() == 0,
    ensures
        ({
            let layout = Layout::rooted(platform, root);
            layout.scoped(id).meta_file == layout.wallets_dir.push(platform.separator())
                + encode_utf8("meta.json"@)
        }),
{
    own_names(platform);
    wallets_end(platform, root);
    let wallets = Layout::rooted(platform, root).wallets_dir;
    let dir = platform.within(wallets, id);
    name_within(platform, wallets, encode_utf8(id));
    assert(dir =~= wallets.push(platform.separator()));
    let name = encode_utf8("meta.json"@);
    reveal_strlit("meta.json");
    is_ascii_chars_encode_utf8("meta.json"@);
    assert(name[1] == 'e' as u8 && !platform.separates(name[0]));
    assert(platform.prefix_len(name) == 0);
}

/// Two wallets never share a file: ids that differ, and name a directory each, have
/// their own metadata.
pub proof fn wallets_have_their_own_files(
    platform: Platform,
    root: Seq<u8>,
    a: Seq<char>,
    b: Seq<char>,
)
    requires
        is_name(platform, encode_utf8(a)),
        is_name(platform, encode_utf8(b)),
        Layout::rooted(platform, root).scoped(a).meta_file == Layout::rooted(platform, root).scoped(
            b,
        ).meta_file,
    ensures
        a == b,
{
    let layout = Layout::rooted(platform, root);
    let prefix = layout.wallets_dir.push(platform.separator());
    let name = encode_utf8("meta.json"@);
    let (x, y) = (encode_utf8(a), encode_utf8(b));
    let (ma, mb) = (layout.scoped(a).meta_file, layout.scoped(b).meta_file);
    encode_utf8_decode_utf8(a);
    encode_utf8_decode_utf8(b);
    if x.len() > 0 {
        wallet_tree(platform, root, a);
        assert(ma.len() == prefix.len() + x.len() + 1 + name.len());
        assert(ma.subrange(prefix.len() as int, (prefix.len() + x.len()) as int) =~= x);
    } else {
        nameless_meta(platform, root, a);
        assert(ma.len() == prefix.len() + name.len());
    }
    if y.len() > 0 {
        wallet_tree(platform, root, b);
        assert(mb.len() == prefix.len() + y.len() + 1 + name.len());
        assert(mb.subrange(prefix.len() as int, (prefix.len() + y.len()) as int) =~= y);
    } else {
        nameless_meta(platform, root, b);
        assert(mb.len() == prefix.len() + name.len());
    }
    assert(x =~= y);
}

/// Whether a path lies in a directory.
pub open spec fn lies_in(platform: Platform, path: Seq<u8>, dir: Seq<u8>) -> bool {
    &&& path.len() > dir.len()
    &&& path.take(dir.len() as int) == dir
    &&& platform.separates(path[dir.len() as int])
}

/// A wallet's directory holds its own files and those of no other wallet: removing one
/// leaves the others alone.
pub proof fn wallets_lie_apart(platform: Platform, root: Seq<u8>, a: Seq<char>, b: Seq<char>)
    requires
        a.len() > 0,
        b.len() > 0,
        is_name(platform, encode_utf8(a)),
        is_name(platform, encode_utf8(b)),
    ensures
        ({
            let layout = Layout::rooted(platform, root);
            let dir = platform.within(layout.wallets_dir, a);
            &&& lies_in(platform, layout.scoped(b).meta_file, dir) <==> a == b
            &&& lies_in(platform, layout.scoped(b).wallet_dir, dir) <==> a == b
            &&& lies_in(platform, layout.scoped(b).notified_file, dir) <==> a == b
        }),
{
    encode_utf8_first_scalar(a);
    encode_utf8_first_scalar(b);
    wallet_tree(platform, root, a);
    wallet_tree(platform, root, b);
    let prefix = Layout::rooted(platform, root).wallets_dir.push(platform.separator());
    let (x, y) = (encode_utf8(a), encode_utf8(b));
    encode_utf8_decode_utf8(a);
    encode_utf8_decode_utf8(b);
    file_lies_in(platform, prefix, x, y, encode_utf8("meta.json"@));
    file_lies_in(platform, prefix, x, y, encode_utf8("wallet"@));
    file_lies_in(platform, prefix, x, y, encode_utf8("notified.json"@));
}

proof fn file_lies_in(
    platform: Platform,
    prefix: Seq<u8>,
    x: Seq<u8>,
    y: Seq<u8>,
    name: Seq<u8>,
)
    requires
        x.len() > 0,
        y.len() > 0,
        is_name(platform, x),
        is_name(platform, y),
    ensures
        lies_in(platform, prefix + y + seq![platform.separator()] + name, prefix + x) <==> x == y,
{
    let file = prefix + y + seq![platform.separator()] + name;
    let dir = prefix + x;
    let n = prefix.len() as int;
    if x == y {
        assert(file.take(dir.len() as int) =~= dir);
        assert(file[dir.len() as int] == platform.separator());
    } else if lies_in(platform, file, dir) {
        assert(file[n + y.len()] == platform.separator());
        if x.len() < y.len() {
            assert(file[n + x.len()] == y[x.len() as int]);
            assert(!platform.separates(y[x.len() as int]));
        } else if y.len() < x.len() {
            assert(file.take(dir.len() as int)[n + y.len()] == dir[n + y.len()]);
            assert(dir[n + y.len()] == x[y.len() as int]);
            assert(!platform.separates(x[y.len() as int]));
        } else {
            assert forall|k: int| 0 <= k < x.len() implies x[k] == y[k] by {
                assert(file.take(dir.len() as int)[n + k] == dir[n + k]);
            }
            assert(x =~= y);
        }
    }
}

// ---------------------------------------------------------------------------
// Import metadata
// ---------------------------------------------------------------------------

#[derive(Debug)]
pub struct Meta {
    pub network: Network,
    pub indexer_uri: String,
    pub import_type: ImportType,
    pub view_mode: ViewMode,
    pub birthday_height: u32,
    /// The chain tip pinned at import, the end of the Initial scan. While
    /// `synced_height` is below it, detections are silent. 0 for a wallet imported
    /// before this existed, so it reads as already-live and always notifies.
    pub scan_target_height: u32,
    /// Whether the wallet file is encrypted at rest. False for a wallet imported before
    /// encryption existed, so it still loads as plaintext.
    pub encrypted: bool,
    /// The UFVK's fingerprint, seeding the Wallet's LifeHash. Persisted at import so
    /// the GUI can render the current Wallet's identity (the Settings danger zone,
    /// the Replace modal) without re-deriving it. `None` for a wallet imported
    /// before this was tracked.
    pub fingerprint: Option<String>,
    /// Optional user-facing name. `None` when unset.
    pub label: Option<String>,
    /// Whether transaction and scan-complete notifications fire, toggled from
    /// Settings. True for a wallet imported before this existed.
    pub notifications_enabled: bool,
    /// Whether the user has consented to fiat price display. False for a wallet
    /// imported before this existed, so it stays private until the user opts in.
    pub fiat_enabled: bool,
    /// Whether Discreet mode is on: the GUI masks amounts, dates, and identifiers, and
    /// the daemon redacts new-transaction notifications.
    pub discreet: bool,
    /// The Anchor's height: `min(birthday, tip-at-import)`, at least 1, recorded at
    /// import. 0 means no anchor was recorded; the sync loop adopts one after its next
    /// good round.
    pub anchor_height: u32,
    /// The Anchor: hex of the block hash at `anchor_height`, the Wallet's proof of
    /// which chain incarnation it synced. Verified against the Indexer before every
    /// sync round; a mismatch refuses to sync.
    pub anchor_hash: Option<String>,
}

impl Clone for Meta {
    fn clone(&self) -> (r: Self)
        ensures
            r == *self,
    {
        Meta {
            network: self.network,
            indexer_uri: self.indexer_uri.clone(),
            import_type: self.import_type,
            view_mode: self.view_mode,
            birthday_height: self.birthday_height,
            scan_target_height: self.scan_target_height,
            encrypted: self.encrypted,
            fingerprint: ipc::clone_text(&self.fingerprint),
            label: ipc::clone_text(&self.label),
            notifications_enabled: self.notifications_enabled,
            fiat_enabled: self.fiat_enabled,
            discreet: self.discreet,
            anchor_height: self.anchor_height,
            anchor_hash: ipc::clone_text(&self.anchor_hash),
        }
    }
}

/// The byte that sets a file's extension off.
pub const DOT: u8 = 0x2e;

/// Where a byte occurs last, or -1.
pub open spec fn last_at(bytes: Seq<u8>, b: u8) -> int
    decreases bytes.len(),
{
    if bytes.len() == 0 {
        -1
    } else if bytes.last() == b {
        bytes.len() - 1
    } else {
        last_at(bytes.drop_last(), b)
    }
}

/// What of a path lies behind its last separator begins here.
pub open spec fn last_part(platform: Platform, path: Seq<u8>) -> int
    decreases path.len(),
{
    if path.len() == 0 || platform.separates(path.last()) {
        path.len() as int
    } else {
        last_part(platform, path.drop_last())
    }
}

/// Where the name of a file begins in its path: behind the last separator, and behind what
/// says which drive or share it is on.
pub open spec fn name_start(platform: Platform, path: Seq<u8>) -> int {
    if last_part(platform, path) >= platform.prefix_len(path) {
        last_part(platform, path)
    } else {
        platform.prefix_len(path)
    }
}

/// The name of a file in its path.
pub open spec fn file_name(platform: Platform, path: Seq<u8>) -> Seq<u8> {
    path.skip(name_start(platform, path))
}

/// Whether a path ends in the name of a file: not in a separator, nor in a directory's
/// name for itself or for the one above.
pub open spec fn names_file(platform: Platform, path: Seq<u8>) -> bool {
    let name = file_name(platform, path);
    &&& name.len() > 0
    &&& name != seq![DOT]
    &&& name != seq![DOT, DOT]
}

/// A file's name without its extension. A dot that it begins with sets nothing off.
pub open spec fn stem(name: Seq<u8>) -> Seq<u8> {
    if last_at(name, DOT) > 0 {
        name.take(last_at(name, DOT))
    } else {
        name
    }
}

/// A path to a file with its extension replaced, or added where it has none.
pub open spec fn with_extension(
    platform: Platform,
    path: Seq<u8>,
    extension: Seq<char>,
) -> Seq<u8> {
    let dir = path.take(name_start(platform, path));
    (dir + stem(file_name(platform, path))).push(DOT) + encode_utf8(extension)
}

/// Where a byte occurs last.
fn last_index(bytes: &Vec<u8>, b: u8) -> (r: Option<usize>)
    ensures
        match r {
            Some(i) => i < bytes@.len() && last_at(bytes@, b) == i,
            None => last_at(bytes@, b) == -1,
        },
{
    let mut i: usize = bytes.len();
    assert(bytes@.take(i as int) =~= bytes@);
    while i > 0
        invariant
            i <= bytes@.len(),
            last_at(bytes@, b) == last_at(bytes@.take(i as int), b),
        decreases i,
    {
        i = i - 1;
        assert(bytes@.take(i + 1).drop_last() =~= bytes@.take(i as int));
        if bytes[i] == b {
            return Some(i);
        }
    }
    None
}

/// Where the name of a file begins in its path.
fn find_name(platform: Platform, path: &Vec<u8>) -> (r: usize)
    ensures
        r == name_start(platform, path@),
        r <= path@.len(),
{
    let prefix: usize = platform.prefix(path.as_slice());
    let mut i: usize = path.len();
    assert(path@.take(i as int) =~= path@);
    while i > 0 && !platform.is_separator(path[i - 1])
        invariant
            i <= path@.len(),
            last_part(platform, path@) == last_part(platform, path@.take(i as int)),
        decreases i,
    {
        assert(path@.take(i as int).drop_last() =~= path@.take(i - 1));
        i = i - 1;
    }
    if i >= prefix {
        i
    } else {
        prefix
    }
}

/// The bytes from one place to another.
fn part_of(bytes: &Vec<u8>, from: usize, to: usize) -> (r: Vec<u8>)
    requires
        from <= to <= bytes@.len(),
    ensures
        r@ == bytes@.subrange(from as int, to as int),
{
    let mut out: Vec<u8> = Vec::new();
    let mut i: usize = from;
    while i < to
        invariant
            from <= i <= to <= bytes@.len(),
            out@ =~= bytes@.subrange(from as int, i as int),
        decreases to - i,
    {
        out.push(bytes[i]);
        i = i + 1;
    }
    out
}

/// What came of reading a `meta.json`.
pub enum MetaRead {
    Missing,
    /// It is there and could not be read.
    Failed,
    /// It was read and is no metadata.
    Garbled,
    Parsed(Meta),
}

/// The metadata in a `meta.json`, if there is one and it can be read.
pub open spec fn loaded(read: MetaRead) -> Result<Option<Meta>, Seq<char>> {
    match read {
        MetaRead::Missing => Ok(None),
        MetaRead::Failed => Err("reading meta.json"@),
        MetaRead::Garbled => Err("parsing meta.json"@),
        MetaRead::Parsed(meta) => Ok(Some(meta)),
    }
}

/// What a setting that is on unless it was turned off reads as where it is missing.
pub fn default_true() -> (r: bool)
    ensures
        r,
{
    true
}

impl Meta {
    /// The metadata in a `meta.json`, from what came of reading it.
    pub fn load(read: MetaRead) -> (r: Result<Option<Meta>, String>)
        ensures
            match loaded(read) {
                Ok(meta) => r == Ok::<Option<Meta>, String>(meta),
                Err(e) => r is Err && r->Err_0@ == e,
            },
    {
        match read {
            MetaRead::Missing => Ok(None),
            MetaRead::Failed => Err("reading meta.json".to_string()),
            MetaRead::Garbled => Err("parsing meta.json".to_string()),
            MetaRead::Parsed(meta) => Ok(Some(meta)),
        }
    }

    /// The file that a `meta.json` is staged in before it takes its place, so that a
    /// crash mid-write leaves the old one: the same path with another extension. Nothing
    /// where the path names no file.
    pub fn staging_file(platform: Platform, meta_file: &Vec<u8>) -> (r: Option<Vec<u8>>)
        ensures
            match r {
                Some(file) => names_file(platform, meta_file@) && file@ == with_extension(
                    platform,
                    meta_file@,
                    "json.tmp"@,
                ),
                None => !names_file(platform, meta_file@),
            },
    {
        let len: usize = meta_file.len();
        let start: usize = find_name(platform, meta_file);
        let name = part_of(meta_file, start, len);
        assert(name@ =~= file_name(platform, meta_file@));
        if name.len() == 0 || (name.len() == 1 && name[0] == DOT) || (name.len() == 2 && name[0]
            == DOT && name[1] == DOT) {
            proof {
                if name@.len() == 1 {
                    assert(name@ =~= seq![DOT]);
                } else if name@.len() == 2 {
                    assert(name@ =~= seq![DOT, DOT]);
                }
            }
            return None;
        }
        proof {
            assert(seq![DOT].len() == 1 && seq![DOT][0] == DOT);
            assert(seq![DOT, DOT].len() == 2 && seq![DOT, DOT][0] == DOT && seq![DOT, DOT][1]
                == DOT);
        }
        let stem_len: usize = match last_index(&name, DOT) {
            Some(i) => if i > 0 {
                i
            } else {
                name.len()
            },
            None => name.len(),
        };
        let mut file = part_of(meta_file, 0, start + stem_len);
        file.push(DOT);
        transport::append_bytes(&mut file, "json.tmp".as_bytes());
        proof {
            assert(name@.take(stem_len as int) =~= stem(name@));
            assert(meta_file@.subrange(0, start + stem_len) =~= meta_file@.take(start as int)
                + stem(name@));
        }
        Some(file)
    }
}

// ---------------------------------------------------------------------------
// Where things are and what is read of them
// ---------------------------------------------------------------------------

/// The data root holds the socket, the prices, the active wallet's id and the wallets under
/// their names, and the files of a wallet from before under theirs.
pub proof fn the_root_holds_its_files_by_name(platform: Platform, root: Seq<u8>)
    requires
        root.len() > 0,
        !platform.separates(root.last()),
        root.last() != transport::COLON,
    ensures
        ({
            let layout = Layout::rooted(platform, root);
            let at = root.push(platform.separator());
            &&& layout.platform == platform
            &&& layout.root == root
            &&& layout.socket == at + encode_utf8("daemon.sock"@)
            &&& layout.price_cache_file == at + encode_utf8("price_cache.json"@)
            &&& layout.wallets_dir == at + encode_utf8("wallets"@)
            &&& layout.active_id_file == at + encode_utf8("active_wallet_id"@)
            &&& layout.wallet_dir == at + encode_utf8("wallet"@)
            &&& layout.meta_file == at + encode_utf8("meta.json"@)
            &&& layout.notified_file == at + encode_utf8("notified.json"@)
            &&& layout.wallet_id is None
        }),
{
    own_names(platform);
    reveal_strlit("daemon.sock");
    reveal_strlit("price_cache.json");
    reveal_strlit("active_wallet_id");
    is_ascii_chars_encode_utf8("daemon.sock"@);
    is_ascii_chars_encode_utf8("price_cache.json"@);
    is_ascii_chars_encode_utf8("active_wallet_id"@);
    name_within(platform, root, encode_utf8("daemon.sock"@));
    name_within(platform, root, encode_utf8("price_cache.json"@));
    name_within(platform, root, encode_utf8("wallets"@));
    name_within(platform, root, encode_utf8("active_wallet_id"@));
    name_within(platform, root, encode_utf8("wallet"@));
    name_within(platform, root, encode_utf8("meta.json"@));
    name_within(platform, root, encode_utf8("notified.json"@));
}

/// A wallet's own files lie in the directory of its id among the wallets, under their
/// names; what is shared between wallets stays where it is. Without an active wallet the
/// layout is as it was.
pub proof fn a_wallet_has_its_files_by_name(platform: Platform, root: Seq<u8>, id: Seq<char>)
    requires
        encode_utf8(id).len() > 0,
        is_name(platform, encode_utf8(id)),
    ensures
        ({
            let layout = Layout::rooted(platform, root);
            let sep = seq![platform.separator()];
            let own = layout.scoped(id);
            let dir = layout.wallets_dir + sep + encode_utf8(id);
            &&& own.wallet_id == Some(id)
            &&& own.meta_file == dir + sep + encode_utf8("meta.json"@)
            &&& own.wallet_dir == dir + sep + encode_utf8("wallet"@)
            &&& own.notified_file == dir + sep + encode_utf8("notified.json"@)
            &&& own.root == layout.root && own.socket == layout.socket
            &&& own.price_cache_file == layout.price_cache_file
            &&& own.wallets_dir == layout.wallets_dir
            &&& own.active_id_file == layout.active_id_file
            &&& layout.active(Some(id)) == own
            &&& layout.active(None) == layout
        }),
{
    wallet_tree(platform, root, id);
    let layout = Layout::rooted(platform, root);
    let sep = seq![platform.separator()];
    assert(layout.wallets_dir.push(platform.separator()) + encode_utf8(id) =~= layout.wallets_dir
        + sep + encode_utf8(id));
}

/// The data root is the override wherever there is one, and else the service's own
/// directory in the user's.
pub proof fn an_override_is_the_root(
    platform: Platform,
    dir_override: Seq<u8>,
    data_dir: Option<Seq<u8>>,
    dir: Seq<u8>,
)
    ensures
        data_root(platform, Some(dir_override), data_dir) == Some(dir_override),
        data_root(platform, None, Some(dir)) == Some(
            platform.within(dir, "pendrake-watch"@),
        ),
        data_root(platform, None, None) is None,
{
}

/// The active wallet is the one the file names, without the white space around its id; a
/// file that is missing or blank names none, and one that cannot be read is an error, or
/// taken for missing where that is asked for.
pub proof fn the_active_wallet_is_the_one_named(text: String)
    ensures
        active_id(FileRead::Missing) == Ok::<Option<Seq<char>>, Seq<char>>(None),
        active_id(FileRead::Failed) == Err::<Option<Seq<char>>, Seq<char>>(
            "reading active_wallet_id"@,
        ),
        active_id_or_none(FileRead::Failed) is None,
        active_id_or_none(FileRead::Missing) is None,
        text::is_blank(text@) ==> active_id_or_none(FileRead::Text(text)) is None && active_id(
            FileRead::Text(text),
        ) is Ok,
        !text::is_blank(text@) ==> active_id_or_none(FileRead::Text(text)) == Some(
            text::trimmed(text@),
        ),
{
}

/// The wallets on disk are the directories that are found, each under its own name; a file
/// is none.
pub proof fn each_directory_is_a_wallet(
    entries: Seq<Result<DirEntry, String>>,
    entry: DirEntry,
)
    ensures
        entries.len() == 0 ==> dir_names(entries).len() == 0,
        entry.is_dir ==> dir_names(entries.push(Ok(entry))) == dir_names(entries).push(
            transport::lossy_text(entry.name@),
        ),
        !entry.is_dir ==> dir_names(entries.push(Ok(entry))) == dir_names(entries),
{
    assert(entries.push(Ok(entry)).drop_last() =~= entries);
}

/// The list of wallets fails exactly where an entry could not be looked at, with the words
/// of the first such one.
pub proof fn the_first_failure_is_told(entries: Seq<Result<DirEntry, String>>)
    ensures
        match first_failure(entries) {
            Some(e) => exists|i: int|
                #![trigger entries[i]]
                0 <= i < entries.len() && entries[i] is Err && entries[i]->Err_0@ == e
                    && forall|k: int| 0 <= k < i ==> #[trigger] entries[k] is Ok,
            None => forall|k: int| 0 <= k < entries.len() ==> #[trigger] entries[k] is Ok,
        },
    decreases entries.len(),
{
    if entries.len() > 0 {
        let before = entries.drop_last();
        the_first_failure_is_told(before);
        assert(forall|k: int| 0 <= k < before.len() ==> #[trigger] entries[k] == before[k]);
        if let Some(e) = first_failure(before) {
            let i = choose|i: int|
                #![trigger before[i]]
                0 <= i < before.len() && before[i] is Err && before[i]->Err_0@ == e && forall|
                    k: int,
                |
                    0 <= k < i ==> #[trigger] before[k] is Ok;
            assert(entries[i] == before[i]);
        } else {
            assert(entries[entries.len() - 1] == entries.last());
        }
    }
}

/// A legacy tree is migrated exactly where there is metadata at the root, no wallet is
/// active yet, and the metadata loads.
pub proof fn only_a_legacy_tree_is_migrated(layout: Layout, tree: LegacyTree, meta: Meta)
    ensures
        layout.migrates(tree) == Ok::<Option<Meta>, Seq<char>>(Some(meta)) <==> tree.meta_exists
            && active_id(tree.active) == Ok::<Option<Seq<char>>, Seq<char>>(None) && tree.meta
            == Ok::<Option<Meta>, String>(Some(meta)),
        !tree.meta_exists ==> layout.migrates(tree) == Ok::<Option<Meta>, Seq<char>>(None),
{
}

/// A migrated wallet gets its fingerprint for its id, and each of its files goes from its
/// old place at the root to its own place in the directory of that id; its directory and its
/// seen-set only where they are there.
pub proof fn a_migration_moves_each_file_home(
    layout: Layout,
    tree: LegacyTree,
    meta: Meta,
    m: Migration,
)
    requires
        layout.moved_by(tree, meta, m),
    ensures
        meta.fingerprint matches Some(f) ==> {
            &&& f@.len() > 0 ==> m.id@ == f@
            &&& f@.len() == 0 ==> m.id@ == "default"@
        },
        meta.fingerprint is None ==> m.id@ == "default"@,
        m.dir@ == layout.platform.within(layout.wallets_dir, m.id@),
        m.meta.from@ == layout.platform.within(layout.root, "meta.json"@),
        m.meta.to@ == layout.platform.within(m.dir@, "meta.json"@),
        m.wallet is Some <==> tree.wallet_exists,
        m.wallet matches Some(w) ==> w.from@ == layout.platform.within(layout.root, "wallet"@)
            && w.to@ == layout.platform.within(m.dir@, "wallet"@),
        m.notified is Some <==> tree.notified_exists,
        m.notified matches Some(n) ==> n.from@ == layout.platform.within(
            layout.root,
            "notified.json"@,
        ) && n.to@ == layout.platform.within(m.dir@, "notified.json"@),
{
}

/// Metadata is there exactly where it was read and parsed; a file that cannot be read and
/// one that is no metadata are told apart.
pub proof fn metadata_is_what_was_parsed(meta: Meta)
    ensures
        loaded(MetaRead::Parsed(meta)) == Ok::<Option<Meta>, Seq<char>>(Some(meta)),
        loaded(MetaRead::Missing) == Ok::<Option<Meta>, Seq<char>>(None),
        loaded(MetaRead::Failed) == Err::<Option<Meta>, Seq<char>>("reading meta.json"@),
        loaded(MetaRead::Garbled) == Err::<Option<Meta>, Seq<char>>("parsing meta.json"@),
{
}

proof fn last_at_found(bytes: Seq<u8>, b: u8, at: int)
    requires
        0 <= at < bytes.len(),
        bytes[at] == b,
        forall|k: int| at < k < bytes.len() ==> #[trigger] bytes[k] != b,
    ensures
        last_at(bytes, b) == at,
    decreases bytes.len(),
{
    if at < bytes.len() - 1 {
        assert(bytes[bytes.len() - 1] != b);
        last_at_found(bytes.drop_last(), b, at);
    }
}

proof fn last_part_found(platform: Platform, path: Seq<u8>, at: int)
    requires
        0 < at <= path.len(),
        platform.separates(path[at - 1]),
        forall|k: int| at <= k < path.len() ==> !platform.separates(#[trigger] path[k]),
    ensures
        last_part(platform, path) == at,
    decreases path.len(),
{
    if at < path.len() {
        assert(!platform.separates(path[path.len() - 1]));
        last_part_found(platform, path.drop_last(), at);
    }
}

/// Another extension stands in the place of the one that a file has: behind the same
/// directory and the same name, up to the last dot, and a dot.
pub proof fn an_extension_is_replaced(
    dir: Seq<u8>,
    name: Seq<u8>,
    old_extension: Seq<u8>,
    extension: Seq<char>,
)
    requires
        dir.len() > 0,
        dir.last() == 0x2f,
        name.len() > 0,
        forall|k: int| 0 <= k < name.len() ==> #[trigger] name[k] != 0x2f,
        forall|k: int|
            0 <= k < old_extension.len() ==> #[trigger] old_extension[k] != 0x2f && old_extension[k]
                != 0x2e,
    ensures
        with_extension(
            Platform::Unix,
            dir + name + seq![0x2eu8] + old_extension,
            extension,
        ) == dir + name + seq![0x2eu8] + encode_utf8(extension),
{
    let path = dir + name + seq![0x2eu8] + old_extension;
    let file = name + seq![0x2eu8] + old_extension;
    let (n, m) = (dir.len() as int, name.len() as int);
    assert forall|k: int| n <= k < path.len() implies !Platform::Unix.separates(
        #[trigger] path[k],
    ) by {
        if k < n + m {
            assert(path[k] == name[k - n]);
        } else if k > n + m {
            assert(path[k] == old_extension[k - n - m - 1]);
        }
    }
    assert(path[n - 1] == dir.last());
    last_part_found(Platform::Unix, path, n);
    assert(path.skip(n) =~= file);
    assert forall|k: int| m < k < file.len() implies #[trigger] file[k] != 0x2e by {
        assert(file[k] == old_extension[k - m - 1]);
    }
    last_at_found(file, DOT, m);
    assert(file.take(m) =~= name);
    assert(path.take(n) =~= dir);
    assert((dir + name).push(DOT) + encode_utf8(extension) =~= dir + name + seq![0x2eu8]
        + encode_utf8(extension));
}

/// What is said of paths is said of what they hold.
pub proof fn paths_are_what_they_hold(paths: Paths)
    ensures
        paths@.platform == paths.platform,
        paths@.root == paths.root@,
        paths@.socket == paths.socket@,
        paths@.price_cache_file == paths.price_cache_file@,
        paths@.wallets_dir == paths.wallets_dir@,
        paths@.active_id_file == paths.active_id_file@,
        paths@.wallet_id == ipc::text_view(paths.wallet_id),
        paths@.wallet_dir == paths.wallet_dir@,
        paths@.meta_file == paths.meta_file@,
        paths@.notified_file == paths.notified_file@,
{
}

/// The wallets on disk are listed in order, each directory under its name as often as it is
/// found.
pub proof fn wallets_are_listed_in_order(
    paths: Paths,
    entries: Vec<Result<DirEntry, String>>,
    ids: Vec<String>,
    i: int,
    j: int,
)
    requires
        call_ensures(
            Paths::list_wallet_ids,
            (&paths, &Listing::Entries(entries)),
            Ok::<Vec<String>, String>(ids),
        ),
        0 <= i < j < ids@.len(),
    ensures
        text::text_le(ids@[i]@, ids@[j]@),
        texts(ids@).to_multiset() == dir_names(entries@).to_multiset(),
        texts(ids@).len() == ids@.len(),
        texts(ids@)[i] == ids@[i]@,
{
    assert(texts(ids@)[i] == ids@[i]@ && texts(ids@)[j] == ids@[j]@);
}

/// The active wallet is read from the file as it is there, and a file that cannot be read
/// is an error.
pub proof fn the_active_id_is_read_as_written(
    paths: Paths,
    text: String,
    r: Result<Option<String>, String>,
)
    requires
        call_ensures(Paths::read_active_id, (&paths, &FileRead::Text(text)), r),
    ensures
        r is Ok,
        r->Ok_0 is None <==> text::is_blank(text@),
        r->Ok_0 matches Some(id) ==> id@ == text::trimmed(text@),
{
}

/// A file name without a dot, or with none but the one it begins with, gets the extension
/// behind all of it; the names of a directory for itself and for the one above are no file.
pub proof fn an_extension_is_added(dir: Seq<u8>, name: Seq<u8>, extension: Seq<char>)
    requires
        dir.len() > 0,
        dir.last() == 0x2f,
        forall|k: int| 0 <= k < name.len() ==> #[trigger] name[k] != 0x2f,
    ensures
        names_file(Platform::Unix, dir + name) <==> name.len() > 0 && name != seq![0x2eu8] && name
            != seq![0x2eu8, 0x2eu8],
        (forall|k: int| 1 <= k < name.len() ==> #[trigger] name[k] != 0x2e) ==> with_extension(
            Platform::Unix,
            dir + name,
            extension,
        ) == dir + name + seq![0x2eu8] + encode_utf8(extension),
{
    let path = dir + name;
    let n = dir.len() as int;
    assert forall|k: int| n <= k < path.len() implies !Platform::Unix.separates(
        #[trigger] path[k],
    ) by {
        assert(path[k] == name[k - n]);
    }
    assert(path[n - 1] == dir.last());
    last_part_found(Platform::Unix, path, n);
    assert(path.skip(n) =~= name);
    assert(path.take(n) =~= dir);
    if forall|k: int| 1 <= k < name.len() ==> #[trigger] name[k] != 0x2e {
        last_at_most(name, DOT);
        assert((dir + name).push(DOT) + encode_utf8(extension) =~= dir + name + seq![0x2eu8]
            + encode_utf8(extension));
    }
}

proof fn last_at_most(bytes: Seq<u8>, b: u8)
    requires
        forall|k: int| 1 <= k < bytes.len() ==> #[trigger] bytes[k] != b,
    ensures
        last_at(bytes, b) <= 0,
    decreases bytes.len(),
{
    if bytes.len() > 1 {
        assert(bytes[bytes.len() - 1] != b);
        let before = bytes.drop_last();
        assert forall|k: int| 1 <= k < before.len() implies #[trigger] before[k] != b by {
            assert(before[k] == bytes[k]);
        }
        last_at_most(before, b);
    } else if bytes.len() == 1 && bytes.last() != b {
        assert(last_at(bytes.drop_last(), b) == -1);
    }
}

/// Metadata is staged beside its own file, under another extension.
pub proof fn metadata_is_staged_beside_its_file(dir: Seq<u8>, meta_file: Vec<u8>, r: Option<Vec<u8>>)
    requires
        call_ensures(Meta::staging_file, (Platform::Unix, &meta_file), r),
        dir.len() > 0,
        dir.last() == 0x2f,
        meta_file@ == dir + encode_utf8("meta.json"@),
    ensures
        r is Some,
        r->0@ == dir + encode_utf8("meta.json.tmp"@),
{
    reveal_strlit("meta.json");
    reveal_strlit("meta.json.tmp");
    reveal_strlit("json.tmp");
    reveal_strlit("meta");
    reveal_strlit("json");
    is_ascii_chars_encode_utf8("meta.json"@);
    is_ascii_chars_encode_utf8("meta.json.tmp"@);
    is_ascii_chars_encode_utf8("json.tmp"@);
    is_ascii_chars_encode_utf8("meta"@);
    is_ascii_chars_encode_utf8("json"@);
    let name = encode_utf8("meta.json"@);
    let (stem, extension) = (encode_utf8("meta"@), encode_utf8("json"@));
    an_extension_is_added(dir, name, "json.tmp"@);
    an_extension_is_replaced(dir, stem, extension, "json.tmp"@);
    assert(name =~= stem + seq![0x2eu8] + extension);
    assert(dir + name =~= dir + stem + seq![0x2eu8] + extension);
    assert(stem + seq![0x2eu8] + encode_utf8("json.tmp"@) =~= encode_utf8("meta.json.tmp"@));
    assert(dir + stem + seq![0x2eu8] + encode_utf8("json.tmp"@) =~= dir + encode_utf8(
        "meta.json.tmp"@,
    ));
}

/// Paths that are scoped to a wallet are that wallet's, and the id that is written is the
/// wallet's own.
pub proof fn scoped_paths_are_the_wallets(
    paths: Paths,
    id: &str,
    own: Paths,
    written: (Vec<u8>, Vec<u8>),
)
    requires
        call_ensures(Paths::for_wallet, (&paths, id), own),
        call_ensures(Paths::write_active_id, (&paths, id), written),
    ensures
        own@ == paths@.scoped(id@),
        own.wallets_dir@ == paths.wallets_dir@,
        own.meta_file@ == paths.platform.within(
            paths.platform.within(paths.wallets_dir@, id@),
            "meta.json"@,
        ),
        own.wallet_dir@ == paths.platform.within(
            paths.platform.within(paths.wallets_dir@, id@),
            "wallet"@,
        ),
        own.notified_file@ == paths.platform.within(
            paths.platform.within(paths.wallets_dir@, id@),
            "notified.json"@,
        ),
        written.0@ == paths.active_id_file@,
        written.1@ == encode_utf8(id@),
{
    paths_are_what_they_hold(own);
}

/// A migration is planned exactly for a legacy tree, and then it is that tree's.
pub proof fn a_migration_is_planned_for_a_legacy_tree(
    paths: Paths,
    tree: LegacyTree,
    r: Result<Option<Migration>, String>,
)
    requires
        call_ensures(Paths::migrate_legacy_if_needed, (&paths, &tree), r),
    ensures
        r is Ok && r->Ok_0 is Some <==> tree.meta_exists && active_id(tree.active) == Ok::<
            Option<Seq<char>>,
            Seq<char>,
        >(None) && tree.meta is Ok && tree.meta->Ok_0 is Some,
        r is Ok && r->Ok_0 is Some ==> paths@.moved_by(tree, tree.meta->Ok_0->0, r->Ok_0->0),
{
}

} // verus!
