//! What a request asks for, and whether it may be answered.
//!
//! While the GUI session is locked the daemon answers only lifecycle and auth methods.
//! Wallet reads are refused, so a locked screen (or any other peer on the socket) can't
//! see balances or history while the session key is still held for background sync.

use vstd::prelude::*;
use vstd::string::*;

use crate::ipc;
use crate::json;
use crate::text;

verus! {

broadcast use vstd::string::group_string_axioms;

/// What a request asks for. A request whose parameters are more than one string names
/// the arguments that they are to be read as.
#[derive(Debug, PartialEq, Eq)]
pub enum Demand {
    GetWalletState,
    GetSyncStatus,
    SetWalletLabel,
    ListWallets,
    SelectWallet,
    /// Sync a wallet: the one of this id, or the active one.
    SyncWallet { id: Option<String> },
    GetBalance,
    GetTransactions,
    GetNotes,
    GetAddresses,
    GetTransaction { txid: String },
    ParseUfvk { ufvk: String },
    ImportUfvk,
    SetIndexer,
    SetNotifications,
    SetFiatEnabled,
    SetDiscreet,
    GetSpotPrice,
    GetPriceHistory,
    Unlock,
    Lock,
    VerifyPassphrase,
    RemoveWallet,
    SubscribeEvents,
    Shutdown,
}

/// A method of the protocol.
#[derive(Debug, Clone, Copy, PartialEq, Eq, Structural)]
pub enum Method {
    GetWalletState,
    GetSyncStatus,
    SetWalletLabel,
    ListWallets,
    SelectWallet,
    SyncWallet,
    GetBalance,
    GetTransactions,
    GetNotes,
    GetAddresses,
    GetTransaction,
    ParseUfvk,
    ImportUfvk,
    SetIndexer,
    SetNotifications,
    SetFiatEnabled,
    SetDiscreet,
    GetSpotPrice,
    GetPriceHistory,
    Unlock,
    Lock,
    VerifyPassphrase,
    RemoveWallet,
    SubscribeEvents,
    Shutdown,
}

impl Method {
    /// The method's name on the wire.
    pub open spec fn name(self) -> Seq<char> {
        match self {
            Method::GetWalletState => "getWalletState"@,
            Method::GetSyncStatus => "getSyncStatus"@,
            Method::SetWalletLabel => "setWalletLabel"@,
            Method::ListWallets => "listWallets"@,
            Method::SelectWallet => "selectWallet"@,
            Method::SyncWallet => "syncWallet"@,
            Method::GetBalance => "getBalance"@,
            Method::GetTransactions => "getTransactions"@,
            Method::GetNotes => "getNotes"@,
            Method::GetAddresses => "getAddresses"@,
            Method::GetTransaction => "getTransaction"@,
            Method::ParseUfvk => "parseUfvk"@,
            Method::ImportUfvk => "importUfvk"@,
            Method::SetIndexer => "setIndexer"@,
            Method::SetNotifications => "setNotifications"@,
            Method::SetFiatEnabled => "setFiatEnabled"@,
            Method::SetDiscreet => "setDiscreet"@,
            Method::GetSpotPrice => "getSpotPrice"@,
            Method::GetPriceHistory => "getPriceHistory"@,
            Method::Unlock => "unlock"@,
            Method::Lock => "lock"@,
            Method::VerifyPassphrase => "verifyPassphrase"@,
            Method::RemoveWallet => "removeWallet"@,
            Method::SubscribeEvents => "subscribeEvents"@,
            Method::Shutdown => "shutdown"@,
        }
    }

    /// The method's name on the wire.
    pub fn name_text(&self) -> (r: &'static str)
        ensures
            r@ == self.name(),
    {
        match self {
            Method::GetWalletState => "getWalletState",
            Method::GetSyncStatus => "getSyncStatus",
            Method::SetWalletLabel => "setWalletLabel",
            Method::ListWallets => "listWallets",
            Method::SelectWallet => "selectWallet",
            Method::SyncWallet => "syncWallet",
            Method::GetBalance => "getBalance",
            Method::GetTransactions => "getTransactions",
            Method::GetNotes => "getNotes",
            Method::GetAddresses => "getAddresses",
            Method::GetTransaction => "getTransaction",
            Method::ParseUfvk => "parseUfvk",
            Method::ImportUfvk => "importUfvk",
            Method::SetIndexer => "setIndexer",
            Method::SetNotifications => "setNotifications",
            Method::SetFiatEnabled => "setFiatEnabled",
            Method::SetDiscreet => "setDiscreet",
            Method::GetSpotPrice => "getSpotPrice",
            Method::GetPriceHistory => "getPriceHistory",
            Method::Unlock => "unlock",
            Method::Lock => "lock",
            Method::VerifyPassphrase => "verifyPassphrase",
            Method::RemoveWallet => "removeWallet",
            Method::SubscribeEvents => "subscribeEvents",
            Method::Shutdown => "shutdown",
        }
    }

    /// The method of a name, if there is one.
    pub fn named(name: &str) -> (r: Option<Method>)
        ensures
            match r {
                Some(m) => m.name() == name@,
                None => forall|m: Method| (#[trigger] m.name()) != name@,
            },
    {
        if text::same_text(name, "getWalletState") {
            Some(Method::GetWalletState)
        } else if text::same_text(name, "getSyncStatus") {
            Some(Method::GetSyncStatus)
        } else if text::same_text(name, "setWalletLabel") {
            Some(Method::SetWalletLabel)
        } else if text::same_text(name, "listWallets") {
            Some(Method::ListWallets)
        } else if text::same_text(name, "selectWallet") {
            Some(Method::SelectWallet)
        } else if text::same_text(name, "syncWallet") {
            Some(Method::SyncWallet)
        } else if text::same_text(name, "getBalance") {
            Some(Method::GetBalance)
        } else if text::same_text(name, "getTransactions") {
            Some(Method::GetTransactions)
        } else if text::same_text(name, "getNotes") {
            Some(Method::GetNotes)
        } else if text::same_text(name, "getAddresses") {
            Some(Method::GetAddresses)
        } else if text::same_text(name, "getTransaction") {
            Some(Method::GetTransaction)
        } else if text::same_text(name, "parseUfvk") {
            Some(Method::ParseUfvk)
        } else if text::same_text(name, "importUfvk") {
            Some(Method::ImportUfvk)
        } else if text::same_text(name, "setIndexer") {
            Some(Method::SetIndexer)
        } else if text::same_text(name, "setNotifications") {
            Some(Method::SetNotifications)
        } else if text::same_text(name, "setFiatEnabled") {
            Some(Method::SetFiatEnabled)
        } else if text::same_text(name, "setDiscreet") {
            Some(Method::SetDiscreet)
        } else if text::same_text(name, "getSpotPrice") {
            Some(Method::GetSpotPrice)
        } else if text::same_text(name, "getPriceHistory") {
            Some(Method::GetPriceHistory)
        } else if text::same_text(name, "unlock") {
            Some(Method::Unlock)
        } else if text::same_text(name, "lock") {
            Some(Method::Lock)
        } else if text::same_text(name, "verifyPassphrase") {
            Some(Method::VerifyPassphrase)
        } else if text::same_text(name, "removeWallet") {
            Some(Method::RemoveWallet)
        } else if text::same_text(name, "subscribeEvents") {
            Some(Method::SubscribeEvents)
        } else if text::same_text(name, "shutdown") {
            Some(Method::Shutdown)
        } else {
            None
        }
    }

    /// Whether the method is answered while the session is locked: lifecycle, auth, and
    /// the event subscription. An allowlist, so a newly added method defaults to gated.
    pub open spec fn answered_while_locked(self) -> bool {
        match self {
            Method::GetWalletState
            | Method::GetSyncStatus
            | Method::ParseUfvk
            | Method::ImportUfvk
            | Method::Unlock
            | Method::Lock
            | Method::VerifyPassphrase
            | Method::RemoveWallet
            | Method::SubscribeEvents
            | Method::ListWallets
            | Method::Shutdown => true,
            _ => false,
        }
    }

    /// Whether the method is answered while the session is locked.
    fn is_answered_while_locked(&self) -> (r: bool)
        ensures
            r == self.answered_while_locked(),
    {
        match self {
            Method::GetWalletState
            | Method::GetSyncStatus
            | Method::ParseUfvk
            | Method::ImportUfvk
            | Method::Unlock
            | Method::Lock
            | Method::VerifyPassphrase
            | Method::RemoveWallet
            | Method::SubscribeEvents
            | Method::ListWallets
            | Method::Shutdown => true,
            _ => false,
        }
    }
}

/// Whether a name is that of a method answered while the session is locked.
pub open spec fn open_while_locked(method: Seq<char>) -> bool {
    exists|m: Method| (#[trigger] m.name()) == method && m.answered_while_locked()
}

/// Methods the daemon answers while the GUI session is locked: lifecycle, auth, and
/// the event subscription. Everything else (wallet reads, indexer changes) is refused
/// until `unlock`.
pub fn allowed_while_locked(method: &str) -> (r: bool)
    ensures
        r == open_while_locked(method@),
{
    match Method::named(method) {
        Some(m) => {
            proof {
                if open_while_locked(method@) {
                    let n = choose|n: Method|
                        (#[trigger] n.name()) == method@ && n.answered_while_locked();
                    names_are_distinct(m, n);
                }
            }
            m.is_answered_while_locked()
        },
        None => false,
    }
}

/// The length, the fourth and the first character of a method's name, which tell it from
/// the others.
spec fn mark(m: Method) -> (nat, char, char) {
    match m {
        Method::GetWalletState => (14, 'W', 'g'),
        Method::GetSyncStatus => (13, 'S', 'g'),
        Method::SetWalletLabel => (14, 'W', 's'),
        Method::ListWallets => (11, 't', 'l'),
        Method::SelectWallet => (12, 'e', 's'),
        Method::SyncWallet => (10, 'c', 's'),
        Method::GetBalance => (10, 'B', 'g'),
        Method::GetTransactions => (15, 'T', 'g'),
        Method::GetNotes => (8, 'N', 'g'),
        Method::GetAddresses => (12, 'A', 'g'),
        Method::GetTransaction => (14, 'T', 'g'),
        Method::ParseUfvk => (9, 's', 'p'),
        Method::ImportUfvk => (10, 'o', 'i'),
        Method::SetIndexer => (10, 'I', 's'),
        Method::SetNotifications => (16, 'N', 's'),
        Method::SetFiatEnabled => (14, 'F', 's'),
        Method::SetDiscreet => (11, 'D', 's'),
        Method::GetSpotPrice => (12, 'S', 'g'),
        Method::GetPriceHistory => (15, 'P', 'g'),
        Method::Unlock => (6, 'o', 'u'),
        Method::Lock => (4, 'k', 'l'),
        Method::VerifyPassphrase => (16, 'i', 'v'),
        Method::RemoveWallet => (12, 'o', 'r'),
        Method::SubscribeEvents => (15, 's', 's'),
        Method::Shutdown => (8, 't', 's'),
    }
}

proof fn name_bears_mark(m: Method)
    ensures
        (m.name().len(), m.name()[3], m.name()[0]) == mark(m),
{
    match m {
        Method::GetWalletState => {
            reveal_strlit("getWalletState");
        },
        Method::GetSyncStatus => {
            reveal_strlit("getSyncStatus");
        },
        Method::SetWalletLabel => {
            reveal_strlit("setWalletLabel");
        },
        Method::ListWallets => {
            reveal_strlit("listWallets");
        },
        Method::SelectWallet => {
            reveal_strlit("selectWallet");
        },
        Method::SyncWallet => {
            reveal_strlit("syncWallet");
        },
        Method::GetBalance => {
            reveal_strlit("getBalance");
        },
        Method::GetTransactions => {
            reveal_strlit("getTransactions");
        },
        Method::GetNotes => {
            reveal_strlit("getNotes");
        },
        Method::GetAddresses => {
            reveal_strlit("getAddresses");
        },
        Method::GetTransaction => {
            reveal_strlit("getTransaction");
        },
        Method::ParseUfvk => {
            reveal_strlit("parseUfvk");
        },
        Method::ImportUfvk => {
            reveal_strlit("importUfvk");
        },
        Method::SetIndexer => {
            reveal_strlit("setIndexer");
        },
        Method::SetNotifications => {
            reveal_strlit("setNotifications");
        },
        Method::SetFiatEnabled => {
            reveal_strlit("setFiatEnabled");
        },
        Method::SetDiscreet => {
            reveal_strlit("setDiscreet");
        },
        Method::GetSpotPrice => {
            reveal_strlit("getSpotPrice");
        },
        Method::GetPriceHistory => {
            reveal_strlit("getPriceHistory");
        },
        Method::Unlock => {
            reveal_strlit("unlock");
        },
        Method::Lock => {
            reveal_strlit("lock");
        },
        Method::VerifyPassphrase => {
            reveal_strlit("verifyPassphrase");
        },
        Method::RemoveWallet => {
            reveal_strlit("removeWallet");
        },
        Method::SubscribeEvents => {
            reveal_strlit("subscribeEvents");
        },
        Method::Shutdown => {
            reveal_strlit("shutdown");
        },
    }
}

/// Names tell methods apart: no two methods share one.
pub proof fn names_are_distinct(a: Method, b: Method)
    requires
        a.name() == b.name(),
    ensures
        a == b,
{
    name_bears_mark(a);
    name_bears_mark(b);
}

// ---------------------------------------------------------------------------
// Requests
// ---------------------------------------------------------------------------

/// Whether a demand is what a method asks for, with the one string of its parameters
/// that it takes, if it takes one.
pub open spec fn demanded(
    m: Method,
    txid: Option<Seq<char>>,
    ufvk: Option<Seq<char>>,
    id: Option<Seq<char>>,
    d: Demand,
) -> bool {
    match m {
        Method::GetWalletState => d is GetWalletState,
        Method::GetSyncStatus => d is GetSyncStatus,
        Method::SetWalletLabel => d is SetWalletLabel,
        Method::ListWallets => d is ListWallets,
        Method::SelectWallet => d is SelectWallet,
        Method::SyncWallet => d is SyncWallet && id == ipc::text_view(d->id),
        Method::GetBalance => d is GetBalance,
        Method::GetTransactions => d is GetTransactions,
        Method::GetNotes => d is GetNotes,
        Method::GetAddresses => d is GetAddresses,
        Method::GetTransaction => d is GetTransaction && txid == Some(d->txid@),
        Method::ParseUfvk => d is ParseUfvk && ufvk == Some(d->ufvk@),
        Method::ImportUfvk => d is ImportUfvk,
        Method::SetIndexer => d is SetIndexer,
        Method::SetNotifications => d is SetNotifications,
        Method::SetFiatEnabled => d is SetFiatEnabled,
        Method::SetDiscreet => d is SetDiscreet,
        Method::GetSpotPrice => d is GetSpotPrice,
        Method::GetPriceHistory => d is GetPriceHistory,
        Method::Unlock => d is Unlock,
        Method::Lock => d is Lock,
        Method::VerifyPassphrase => d is VerifyPassphrase,
        Method::RemoveWallet => d is RemoveWallet,
        Method::SubscribeEvents => d is SubscribeEvents,
        Method::Shutdown => d is Shutdown,
    }
}

/// Why a request is refused, if it is: the session is locked, the method is unknown, or
/// the one string it takes is missing. In this order, so that a locked daemon does not
/// tell which methods it knows.
pub open spec fn refusal(
    locked: bool,
    method: Seq<char>,
    txid: Option<Seq<char>>,
    ufvk: Option<Seq<char>>,
) -> Option<Seq<char>> {
    if locked && !open_while_locked(method) {
        Some("wallet is locked"@)
    } else if forall|m: Method| (#[trigger] m.name()) != method {
        Some("unknown method: "@ + method)
    } else if method == Method::GetTransaction.name() && txid is None {
        Some("getTransaction needs a txid"@)
    } else if method == Method::ParseUfvk.name() && ufvk is None {
        Some("parseUfvk needs a ufvk"@)
    } else {
        None
    }
}

/// What a request asks for, or why it is refused, with the strings of its parameters that
/// a method may take.
pub fn answer(
    locked: bool,
    method: &str,
    txid: Option<String>,
    ufvk: Option<String>,
    id: Option<String>,
) -> (r: Result<Demand, String>)
    ensures
        ({
            let (t, u) = (ipc::text_view(txid), ipc::text_view(ufvk));
            match r {
                Err(e) => refusal(locked, method@, t, u) == Some(e@),
                Ok(d) => refusal(locked, method@, t, u) is None && exists|m: Method|
                    (#[trigger] m.name()) == method@ && demanded(m, t, u, ipc::text_view(id), d),
            }
        }),
{
    if locked && !allowed_while_locked(method) {
        return Err("wallet is locked".to_string());
    }
    let known = match Method::named(method) {
        Some(m) => m,
        None => {
            let mut e = "unknown method: ".to_string();
            e.append(method);
            return Err(e);
        },
    };
    assert(known.name() == method@);
    proof {
        if method@ == Method::GetTransaction.name() {
            names_are_distinct(known, Method::GetTransaction);
        }
        if method@ == Method::ParseUfvk.name() {
            names_are_distinct(known, Method::ParseUfvk);
        }
    }
    let d = match known {
        Method::GetWalletState => Demand::GetWalletState,
        Method::GetSyncStatus => Demand::GetSyncStatus,
        Method::SetWalletLabel => Demand::SetWalletLabel,
        Method::ListWallets => Demand::ListWallets,
        Method::SelectWallet => Demand::SelectWallet,
        Method::SyncWallet => Demand::SyncWallet { id },
        Method::GetBalance => Demand::GetBalance,
        Method::GetTransactions => Demand::GetTransactions,
        Method::GetNotes => Demand::GetNotes,
        Method::GetAddresses => Demand::GetAddresses,
        Method::GetTransaction => match txid {
            Some(txid) => Demand::GetTransaction { txid },
            None => return Err("getTransaction needs a txid".to_string()),
        },
        Method::ParseUfvk => match ufvk {
            Some(ufvk) => Demand::ParseUfvk { ufvk },
            None => return Err("parseUfvk needs a ufvk".to_string()),
        },
        Method::ImportUfvk => Demand::ImportUfvk,
        Method::SetIndexer => Demand::SetIndexer,
        Method::SetNotifications => Demand::SetNotifications,
        Method::SetFiatEnabled => Demand::SetFiatEnabled,
        Method::SetDiscreet => Demand::SetDiscreet,
        Method::GetSpotPrice => Demand::GetSpotPrice,
        Method::GetPriceHistory => Demand::GetPriceHistory,
        Method::Unlock => Demand::Unlock,
        Method::Lock => Demand::Lock,
        Method::VerifyPassphrase => Demand::VerifyPassphrase,
        Method::RemoveWallet => Demand::RemoveWallet,
        Method::SubscribeEvents => Demand::SubscribeEvents,
        Method::Shutdown => Demand::Shutdown,
    };
    assert(demanded(
        known,
        ipc::text_view(txid),
        ipc::text_view(ufvk),
        ipc::text_view(id),
        d,
    ));
    Ok(d)
}

/// What a request asks for, or why it is refused.
pub fn demand(locked: bool, method: &str, params: &serde_json::Value) -> (r: Result<
    Demand,
    String,
>)
    ensures
        ({
            let txid = json::text_at(*params, "txid"@);
            let ufvk = json::text_at(*params, "ufvk"@);
            let id = json::text_at(*params, "id"@);
            match r {
                Err(e) => refusal(locked, method@, txid, ufvk) == Some(e@),
                Ok(d) => refusal(locked, method@, txid, ufvk) is None && exists|m: Method|
                    (#[trigger] m.name()) == method@ && demanded(m, txid, ufvk, id, d),
            }
        }),
{
    answer(
        locked,
        method,
        json::string_member(params, "txid"),
        json::string_member(params, "ufvk"),
        json::string_member(params, "id"),
    )
}

// ---------------------------------------------------------------------------
// What the session lock guarantees
// ---------------------------------------------------------------------------

/// A locked daemon answers no wallet read and changes no setting: whatever its
/// parameters, every method off the allowlist is refused, known or not.
pub proof fn a_locked_daemon_answers_the_allowlist_only(
    method: Seq<char>,
    txid: Option<Seq<char>>,
    ufvk: Option<Seq<char>>,
)
    requires
        !open_while_locked(method),
    ensures
        refusal(true, method, txid, ufvk) == Some("wallet is locked"@),
{
}

/// The lock adds no other refusal: a method on the allowlist is answered as if the
/// session were unlocked.
pub proof fn the_lock_leaves_the_allowlist_alone(
    method: Seq<char>,
    txid: Option<Seq<char>>,
    ufvk: Option<Seq<char>>,
)
    requires
        open_while_locked(method),
    ensures
        refusal(true, method, txid, ufvk) == refusal(false, method, txid, ufvk),
{
}

/// Wallet reads and settings are off the allowlist.
pub proof fn reads_and_settings_are_gated(m: Method)
    requires
        m == Method::GetBalance || m == Method::GetTransactions || m == Method::GetTransaction || m
            == Method::GetNotes || m == Method::GetAddresses || m == Method::GetSpotPrice || m
            == Method::GetPriceHistory || m == Method::SetIndexer || m == Method::SetNotifications
            || m == Method::SetFiatEnabled || m == Method::SetDiscreet || m
            == Method::SetWalletLabel || m == Method::SelectWallet || m == Method::SyncWallet,
    ensures
        !open_while_locked(m.name()),
{
    if open_while_locked(m.name()) {
        let n = choose|n: Method|
            (#[trigger] n.name()) == m.name() && n.answered_while_locked();
        names_are_distinct(m, n);
    }
}

/// Every known method that takes no string of its own is answered when the session is
/// unlocked.
pub proof fn an_unlocked_daemon_answers_every_method(
    m: Method,
    txid: Option<Seq<char>>,
    ufvk: Option<Seq<char>>,
)
    requires
        m == Method::GetTransaction ==> txid is Some,
        m == Method::ParseUfvk ==> ufvk is Some,
    ensures
        refusal(false, m.name(), txid, ufvk) is None,
{
    if m.name() == Method::GetTransaction.name() {
        names_are_distinct(m, Method::GetTransaction);
    }
    if m.name() == Method::ParseUfvk.name() {
        names_are_distinct(m, Method::ParseUfvk);
    }
}

// ---------------------------------------------------------------------------
// What a request is answered with
// ---------------------------------------------------------------------------

/// The method that a demand is of.
pub open spec fn method_of(d: Demand) -> Method {
    match d {
        Demand::GetWalletState => Method::GetWalletState,
        Demand::GetSyncStatus => Method::GetSyncStatus,
        Demand::SetWalletLabel => Method::SetWalletLabel,
        Demand::ListWallets => Method::ListWallets,
        Demand::SelectWallet => Method::SelectWallet,
        Demand::SyncWallet { .. } => Method::SyncWallet,
        Demand::GetBalance => Method::GetBalance,
        Demand::GetTransactions => Method::GetTransactions,
        Demand::GetNotes => Method::GetNotes,
        Demand::GetAddresses => Method::GetAddresses,
        Demand::GetTransaction { .. } => Method::GetTransaction,
        Demand::ParseUfvk { .. } => Method::ParseUfvk,
        Demand::ImportUfvk => Method::ImportUfvk,
        Demand::SetIndexer => Method::SetIndexer,
        Demand::SetNotifications => Method::SetNotifications,
        Demand::SetFiatEnabled => Method::SetFiatEnabled,
        Demand::SetDiscreet => Method::SetDiscreet,
        Demand::GetSpotPrice => Method::GetSpotPrice,
        Demand::GetPriceHistory => Method::GetPriceHistory,
        Demand::Unlock => Method::Unlock,
        Demand::Lock => Method::Lock,
        Demand::VerifyPassphrase => Method::VerifyPassphrase,
        Demand::RemoveWallet => Method::RemoveWallet,
        Demand::SubscribeEvents => Method::SubscribeEvents,
        Demand::Shutdown => Method::Shutdown,
    }
}

/// A request is taken for what it asks: the demand is of the method that was named, and
/// bears the string that was sent with it, letter for letter.
pub proof fn a_demand_is_of_the_method_named(
    m: Method,
    txid: Option<Seq<char>>,
    ufvk: Option<Seq<char>>,
    id: Option<Seq<char>>,
    d: Demand,
)
    requires
        demanded(m, txid, ufvk, id, d),
    ensures
        method_of(d) == m,
        d matches Demand::GetTransaction { txid: t } ==> txid == Some(t@),
        d matches Demand::ParseUfvk { ufvk: u } ==> ufvk == Some(u@),
        d matches Demand::SyncWallet { id: Some(i) } ==> id == Some(i@),
        d matches Demand::SyncWallet { id: None } ==> id is None,
{
}

/// The methods go by these names on the wire.
pub proof fn methods_go_by_their_names()
    ensures
        Method::GetWalletState.name() == "getWalletState"@,
        Method::GetSyncStatus.name() == "getSyncStatus"@,
        Method::SetWalletLabel.name() == "setWalletLabel"@,
        Method::ListWallets.name() == "listWallets"@,
        Method::SelectWallet.name() == "selectWallet"@,
        Method::SyncWallet.name() == "syncWallet"@,
        Method::GetBalance.name() == "getBalance"@,
        Method::GetTransactions.name() == "getTransactions"@,
        Method::GetNotes.name() == "getNotes"@,
        Method::GetAddresses.name() == "getAddresses"@,
        Method::GetTransaction.name() == "getTransaction"@,
        Method::ParseUfvk.name() == "parseUfvk"@,
        Method::ImportUfvk.name() == "importUfvk"@,
        Method::SetIndexer.name() == "setIndexer"@,
        Method::SetNotifications.name() == "setNotifications"@,
        Method::SetFiatEnabled.name() == "setFiatEnabled"@,
        Method::SetDiscreet.name() == "setDiscreet"@,
        Method::GetSpotPrice.name() == "getSpotPrice"@,
        Method::GetPriceHistory.name() == "getPriceHistory"@,
        Method::Unlock.name() == "unlock"@,
        Method::Lock.name() == "lock"@,
        Method::VerifyPassphrase.name() == "verifyPassphrase"@,
        Method::RemoveWallet.name() == "removeWallet"@,
        Method::SubscribeEvents.name() == "subscribeEvents"@,
        Method::Shutdown.name() == "shutdown"@,
{
}

/// While the session is locked, the wallet's state and the sync's, decoding and importing a
/// key, the session's own methods, removing the wallet, the event subscription, the list of
/// wallets and the shutdown are answered, and no other method is.
pub proof fn the_allowlist_is_lifecycle_and_auth(m: Method)
    ensures
        open_while_locked(m.name()) <==> m is GetWalletState || m is GetSyncStatus || m is ParseUfvk
            || m is ImportUfvk || m is Unlock || m is Lock || m is VerifyPassphrase
            || m is RemoveWallet || m is SubscribeEvents || m is ListWallets || m is Shutdown,
{
    if open_while_locked(m.name()) {
        let n = choose|n: Method|
            (#[trigger] n.name()) == m.name() && n.answered_while_locked();
        names_are_distinct(m, n);
    }
}

/// An unlocked daemon refuses a method it does not know with the name it was given, and one
/// whose string is missing with what it needs.
pub proof fn a_refusal_says_what_is_wrong(
    method: Seq<char>,
    txid: Option<Seq<char>>,
    ufvk: Option<Seq<char>>,
)
    ensures
        (forall|m: Method| (#[trigger] m.name()) != method) ==> refusal(false, method, txid, ufvk)
            == Some("unknown method: "@ + method),
        refusal(false, "getTransaction"@, None, ufvk) == Some("getTransaction needs a txid"@),
        refusal(false, "parseUfvk"@, txid, None) == Some("parseUfvk needs a ufvk"@),
{
    assert(Method::GetTransaction.name() == "getTransaction"@);
    assert(Method::ParseUfvk.name() == "parseUfvk"@);
    if Method::ParseUfvk.name() == Method::GetTransaction.name() {
        names_are_distinct(Method::ParseUfvk, Method::GetTransaction);
    }
}

/// A request that is answered is answered as the method it names, with the string it sent;
/// with the session locked only where that method is on the allowlist. A refusal says why.
pub proof fn a_request_is_answered_as_named(
    locked: bool,
    method: &str,
    params: serde_json::Value,
    r: Result<Demand, String>,
)
    requires
        call_ensures(demand, (locked, method, &params), r),
    ensures
        r matches Ok(d) ==> {
            &&& method_of(d).name() == method@
            &&& locked ==> open_while_locked(method@)
            &&& d matches Demand::GetTransaction { txid } ==> json::text_at(params, "txid"@)
                == Some(txid@)
            &&& d matches Demand::ParseUfvk { ufvk } ==> json::text_at(params, "ufvk"@) == Some(
                ufvk@,
            )
            &&& d matches Demand::SyncWallet { id } ==> json::text_at(params, "id"@)
                == ipc::text_view(id)
        },
        r matches Err(e) ==> {
            &&& e@ == "wallet is locked"@ || (e@ == "unknown method: "@ + method@) || e@
                == "getTransaction needs a txid"@ || e@ == "parseUfvk needs a ufvk"@
            &&& locked && !open_while_locked(method@) ==> e@ == "wallet is locked"@
        },
{
    if let Ok(d) = r {
        let (txid, ufvk, id) = (
            json::text_at(params, "txid"@),
            json::text_at(params, "ufvk"@),
            json::text_at(params, "id"@),
        );
        let m = choose|m: Method|
            (#[trigger] m.name()) == method@ && demanded(m, txid, ufvk, id, d);
        a_demand_is_of_the_method_named(m, txid, ufvk, id, d);
    }
}

/// A name is let through a locked session exactly where it is that of a method on the
/// allowlist.
pub proof fn only_allowed_names_pass_the_lock(name: &str, allowed: bool, m: Method)
    requires
        call_ensures(allowed_while_locked, (name,), allowed),
    ensures
        allowed <==> open_while_locked(name@),
        name@ == m.name() ==> (allowed <==> m is GetWalletState || m is GetSyncStatus
            || m is ParseUfvk || m is ImportUfvk || m is Unlock || m is Lock || m is VerifyPassphrase
            || m is RemoveWallet || m is SubscribeEvents || m is ListWallets || m is Shutdown),
{
    if name@ == m.name() {
        the_allowlist_is_lifecycle_and_auth(m);
    }
}

} // verus!
