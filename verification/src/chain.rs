//! Chain identity: does the Indexer serve the chain that the Wallet synced?
//!
//! A Wallet holds an Anchor, the hash of one block of the chain it was imported
//! against. Before every round the Indexer is asked for its tip and for the block at
//! the anchor height, and the answers are judged here. A server that does not answer is
//! an outage, never a verdict.

use vstd::prelude::*;
use vstd::string::*;

use crate::hex;
use crate::ipc;
use crate::text;

verus! {

broadcast use vstd::string::group_string_axioms;

/// What the Indexer reported when asked who it is: its tip, and the hash of the
/// block at the Wallet's anchor height (`None` when unanchored, or when the tip
/// doesn't cover that height).
#[derive(Debug, PartialEq, Eq)]
pub struct ChainObservation {
    pub tip: u32,
    pub anchor_block_hash: Option<String>,
}

/// For a Wallet without an Anchor, how far the server tip may sit below the
/// Wallet's Initial-scan target before it reads as a swapped chain rather than
/// server lag. A genuinely lagging indexer trails by a handful of blocks.
pub const WRONG_CHAIN_TIP_MARGIN: u32 = 100;

/// The chain-identity verdict for one observation.
#[derive(Debug, PartialEq, Eq)]
pub enum ChainVerdict {
    Match,
    WrongChain { detail: String },
    /// No Anchor recorded and no evidence of a swap: sync proceeds, and the loop
    /// adopts an Anchor after its next good round.
    Unanchored,
}

/// What a [`ChainVerdict`] says.
pub enum Verdict {
    Match,
    WrongChain { detail: Seq<char> },
    Unanchored,
}

impl View for ChainVerdict {
    type V = Verdict;

    open spec fn view(&self) -> Verdict {
        match self {
            ChainVerdict::Match => Verdict::Match,
            ChainVerdict::WrongChain { detail } => Verdict::WrongChain { detail: detail@ },
            ChainVerdict::Unanchored => Verdict::Unanchored,
        }
    }
}

/// The chain ends far below what an unanchored Wallet has synced.
pub open spec fn far_below(tip: u32, target: u32) -> Seq<char> {
    "the server's chain ends at block "@ + text::decimal(tip as nat) + ", far below the "@
        + text::decimal(target as nat) + " this Wallet synced"@
}

/// The chain ends below the Anchor.
pub open spec fn below_anchor(tip: u32, anchor: u32) -> Seq<char> {
    "the server's chain ends at block "@ + text::decimal(tip as nat)
        + ", below this Wallet's anchor at "@ + text::decimal(anchor as nat)
}

/// The block at the anchor height is another one.
pub open spec fn other_block(anchor: u32) -> Seq<char> {
    "block "@ + text::decimal(anchor as nat) + " doesn't match the one this Wallet synced"@
}

/// There is no block at the anchor height.
pub open spec fn no_block(anchor: u32) -> Seq<char> {
    "the server has no block at height "@ + text::decimal(anchor as nat)
}

/// Does the observed chain carry the Wallet's Anchor? With no Anchor, fall back to the
/// tip: one far below the Initial-scan target means the chain the Wallet synced is
/// gone, not that the server is catching up.
pub open spec fn verdict(
    anchor_height: u32,
    anchor_hash: Option<Seq<char>>,
    scan_target_height: u32,
    tip: u32,
    found: Option<Seq<char>>,
) -> Verdict {
    match anchor_hash {
        None => if tip + WRONG_CHAIN_TIP_MARGIN < scan_target_height {
            Verdict::WrongChain { detail: far_below(tip, scan_target_height) }
        } else {
            Verdict::Unanchored
        },
        Some(expected) => if tip < anchor_height {
            Verdict::WrongChain { detail: below_anchor(tip, anchor_height) }
        } else {
            match found {
                Some(hash) => if hash == expected {
                    Verdict::Match
                } else {
                    Verdict::WrongChain { detail: other_block(anchor_height) }
                },
                None => Verdict::WrongChain { detail: no_block(anchor_height) },
            }
        },
    }
}

/// The view of an optional borrowed text.
pub open spec fn str_view(o: Option<&str>) -> Option<Seq<char>> {
    match o {
        Some(s) => Some(s@),
        None => None,
    }
}

/// Does the observed chain carry the Wallet's Anchor? With no Anchor
/// (a wallet imported before Anchors existed), fall back to the tip heuristic: a tip
/// far below the Initial-scan target means the chain the Wallet synced is gone, not
/// that the server is catching up.
pub fn chain_verdict(
    anchor_height: u32,
    anchor_hash: Option<&str>,
    scan_target_height: u32,
    obs: &ChainObservation,
) -> (r: ChainVerdict)
    ensures
        r@ == verdict(
            anchor_height,
            str_view(anchor_hash),
            scan_target_height,
            obs.tip,
            ipc::text_view(obs.anchor_block_hash),
        ),
{
    let expected = match anchor_hash {
        Some(expected) => expected,
        None => {
            let reach: u64 = obs.tip as u64 + WRONG_CHAIN_TIP_MARGIN as u64;
            return if reach < scan_target_height as u64 {
                let mut detail = "the server's chain ends at block ".to_string();
                let tip = text::u64_text(obs.tip as u64);
                detail.append(tip.as_str());
                detail.append(", far below the ");
                let target = text::u64_text(scan_target_height as u64);
                detail.append(target.as_str());
                detail.append(" this Wallet synced");
                ChainVerdict::WrongChain { detail }
            } else {
                ChainVerdict::Unanchored
            };
        },
    };
    if obs.tip < anchor_height {
        let mut detail = "the server's chain ends at block ".to_string();
        let tip = text::u64_text(obs.tip as u64);
        detail.append(tip.as_str());
        detail.append(", below this Wallet's anchor at ");
        let anchor = text::u64_text(anchor_height as u64);
        detail.append(anchor.as_str());
        return ChainVerdict::WrongChain { detail };
    }
    let anchor = text::u64_text(anchor_height as u64);
    match &obs.anchor_block_hash {
        Some(found) => {
            if text::same_text(found.as_str(), expected) {
                ChainVerdict::Match
            } else {
                let mut detail = "block ".to_string();
                detail.append(anchor.as_str());
                detail.append(" doesn't match the one this Wallet synced");
                ChainVerdict::WrongChain { detail }
            }
        },
        None => {
            let mut detail = "the server has no block at height ".to_string();
            detail.append(anchor.as_str());
            ChainVerdict::WrongChain { detail }
        },
    }
}

/// An anchored Wallet matches a chain exactly when the chain reaches the anchor and
/// carries the anchored block; it is never told "unanchored".
pub proof fn anchored_verdict(
    anchor_height: u32,
    expected: Seq<char>,
    scan_target_height: u32,
    tip: u32,
    found: Option<Seq<char>>,
)
    ensures
        ({
            let v = verdict(anchor_height, Some(expected), scan_target_height, tip, found);
            &&& v is Match <==> tip >= anchor_height && found == Some(expected)
            &&& !(v is Unanchored)
        }),
{
}

/// A Wallet without an Anchor never matches, and a server that lags by no more than the
/// margin is no wrong chain.
pub proof fn unanchored_verdict(
    anchor_height: u32,
    scan_target_height: u32,
    tip: u32,
    found: Option<Seq<char>>,
)
    ensures
        ({
            let v = verdict(anchor_height, None, scan_target_height, tip, found);
            &&& !(v is Match)
            &&& v is Unanchored <==> scan_target_height <= tip + WRONG_CHAIN_TIP_MARGIN
        }),
{
}

// ---------------------------------------------------------------------------
// The Anchor
// ---------------------------------------------------------------------------

/// The height of the block to anchor to: the birthday, or the tip for a birthday in
/// the future, and at least 1 since block 0 isn't served.
pub open spec fn anchor_at(birthday: u32, tip: u32) -> u32 {
    let lower = if birthday <= tip {
        birthday
    } else {
        tip
    };
    if lower < 1 {
        1
    } else {
        lower
    }
}

/// The height of the block to anchor to.
pub fn anchor_height(birthday: u32, tip: u32) -> (r: u32)
    ensures
        r == anchor_at(birthday, tip),
        1 <= r,
        tip >= 1 ==> r <= tip,
{
    let lower: u32 = if birthday <= tip {
        birthday
    } else {
        tip
    };
    if lower < 1 {
        1
    } else {
        lower
    }
}

/// An Anchor holds the Wallet to the chain it was taken from: that chain, however much
/// longer it has grown, matches, and one with another block at the anchor height does
/// not.
pub proof fn an_anchor_matches_only_its_chain(
    birthday: u32,
    tip_then: u32,
    hash: Seq<char>,
    scan_target_height: u32,
    tip_now: u32,
    hash_now: Seq<char>,
)
    requires
        1 <= tip_then <= tip_now,
    ensures
        verdict(
            anchor_at(birthday, tip_then),
            Some(hash),
            scan_target_height,
            tip_now,
            Some(hash_now),
        ) is Match <==> hash_now == hash,
{
}

// ---------------------------------------------------------------------------
// Asking the Indexer
// ---------------------------------------------------------------------------

/// `str::to_lowercase` of the standard library, named: the Unicode lower case of a text.
pub uninterp spec fn lower_case(s: Seq<char>) -> Seq<char>;

/// `str::to_lowercase`: its result is a function of the text alone.
#[verifier::external_body]
fn to_lower_case(s: &str) -> (r: String)
    ensures
        r@ == lower_case(s@),
{
    s.to_lowercase()
}

/// Whether a probe's error text, in lower case, tells of a failed connection.
pub open spec fn tells_unreachable(lower: Seq<char>) -> bool {
    ||| text::occurs_in("unavailable"@, lower)
    ||| text::occurs_in("connect"@, lower)
    ||| text::occurs_in("refused"@, lower)
    ||| text::occurs_in("dns"@, lower)
    ||| text::occurs_in("timed out"@, lower)
    ||| text::occurs_in("timeout"@, lower)
    ||| text::occurs_in("deadline"@, lower)
}

/// What the user is told when a probe failed with an error text in lower case.
pub open spec fn probe_message(lower: Seq<char>) -> Seq<char> {
    if tells_unreachable(lower) {
        "couldn't reach that server. Check the address and that the server is running."@
    } else {
        "that server answered but isn't a Zcash indexer."@
    }
}

/// What the user is told when a probe failed with an error text in lower case.
pub fn probe_error(lower: &str) -> (r: String)
    ensures
        r@ == probe_message(lower@),
{
    let unreachable = text::contains_text(lower, "unavailable") || text::contains_text(
        lower,
        "connect",
    ) || text::contains_text(lower, "refused") || text::contains_text(lower, "dns")
        || text::contains_text(lower, "timed out") || text::contains_text(lower, "timeout")
        || text::contains_text(lower, "deadline");
    if unreachable {
        "couldn't reach that server. Check the address and that the server is running.".to_string()
    } else {
        "that server answered but isn't a Zcash indexer.".to_string()
    }
}

/// Turn a probe failure into a message the user can act on, keeping the transport
/// internals out of the UI. The connection is lazy, so a bad address surfaces here as
/// a connect failure rather than at construction. Tell that apart from an endpoint that
/// answers but isn't an indexer.
pub fn indexer_probe_error(raw: &str) -> (r: String)
    ensures
        r@ == probe_message(lower_case(raw@)),
{
    let lower = to_lower_case(raw);
    probe_error(lower.as_str())
}

/// How the Indexer answered a request for its state.
#[derive(Debug)]
pub enum InfoReply {
    /// No client could be built for the address.
    ConnectFailed(String),
    /// The request failed, with this error text.
    Failed(String),
    /// The reported chain height.
    Info(u64),
}

/// A failure to build a client for an address.
pub open spec fn connect_failed(error: Seq<char>) -> Seq<char> {
    "could not connect to indexer: "@ + error
}

/// A failure to build a client for an address.
pub fn connect_error(error: &str) -> (r: String)
    ensures
        r@ == connect_failed(error@),
{
    let mut s = "could not connect to indexer: ".to_string();
    s.append(error);
    s
}

/// The chain tip the Indexer reports. It also serves as the reachability check: a plain
/// HTTPS server accepts the connection but can't answer this, so the reply proves the
/// endpoint is a Zcash indexer before a Wallet points at it.
pub fn indexer_tip(reply: &InfoReply) -> (r: Result<u32, String>)
    ensures
        match *reply {
            InfoReply::ConnectFailed(e) => r matches Err(m) && m@ == connect_failed(e@),
            InfoReply::Failed(e) => r matches Err(m) && m@ == probe_message(lower_case(e@)),
            InfoReply::Info(height) => r matches Ok(tip) && tip == height as u32,
        },
{
    match reply {
        InfoReply::ConnectFailed(e) => Err(connect_error(e.as_str())),
        InfoReply::Failed(e) => Err(indexer_probe_error(e.as_str())),
        InfoReply::Info(height) => Ok(
            #[verifier::truncate]
            (*height as u32),
        ),
    }
}

/// The status codes of gRPC.
#[derive(Debug, Clone, Copy, PartialEq, Eq, Structural)]
pub enum Code {
    Success,
    Cancelled,
    Unknown,
    InvalidArgument,
    DeadlineExceeded,
    NotFound,
    AlreadyExists,
    PermissionDenied,
    ResourceExhausted,
    FailedPrecondition,
    Aborted,
    OutOfRange,
    Unimplemented,
    Internal,
    Unavailable,
    DataLoss,
    Unauthenticated,
}

/// The codes by which one server or another says that it has no such block.
pub open spec fn says_no_block(code: Code) -> bool {
    ||| code == Code::NotFound
    ||| code == Code::OutOfRange
    ||| code == Code::InvalidArgument
    ||| code == Code::Unknown
}

/// How the Indexer answered a request for a block.
#[derive(Debug)]
pub enum BlockReply {
    /// No client could be built for the address.
    ConnectFailed(String),
    /// The request failed, with this code and error text.
    Failed { code: Code, error: String },
    /// The hash of the block.
    Block(Vec<u8>),
}

/// The hash of the block at a height on the Indexer's chain, lower-hex. `Ok(None)`
/// means the server answered but has no such block: implementations disagree on the
/// status code for that, so the plausible ones all map to `None` and callers judge
/// "chain too short" from the tip first, never from these codes alone. Anything else is
/// a real probe failure.
pub fn fetch_block_hash(reply: &BlockReply) -> (r: Result<Option<String>, String>)
    ensures
        match *reply {
            BlockReply::ConnectFailed(e) => r matches Err(m) && m@ == connect_failed(e@),
            BlockReply::Failed { code, error } => if says_no_block(code) {
                r matches Ok(None)
            } else {
                r matches Err(m) && m@ == probe_message(lower_case(error@))
            },
            BlockReply::Block(hash) => r matches Ok(Some(h)) && h@ == hex::hex_text(hash@),
        },
{
    match reply {
        BlockReply::ConnectFailed(e) => Err(connect_error(e.as_str())),
        BlockReply::Failed { code, error } => {
            if *code == Code::NotFound || *code == Code::OutOfRange || *code
                == Code::InvalidArgument || *code == Code::Unknown {
                Ok(None)
            } else {
                Err(indexer_probe_error(error.as_str()))
            }
        },
        BlockReply::Block(hash) => Ok(Some(hex::hex_lower(hash.as_slice()))),
    }
}

/// The height whose block is asked for: the anchor height, when there is one and the
/// reported chain covers it.
pub open spec fn block_wanted(anchor_height: Option<u32>, tip: u32) -> Option<u32> {
    match anchor_height {
        Some(height) => if tip >= height {
            Some(height)
        } else {
            None
        },
        None => None,
    }
}

/// The height whose block is asked for, if any.
pub fn block_to_fetch(anchor_height: Option<u32>, tip: u32) -> (r: Option<u32>)
    ensures
        r == block_wanted(anchor_height, tip),
{
    match anchor_height {
        Some(height) => if tip >= height {
            Some(height)
        } else {
            None
        },
        None => None,
    }
}

/// One look at who the Indexer is: its tip, plus the block hash at the Wallet's anchor
/// height when [`block_to_fetch`] asked for it. An `Err` is an outage (the server didn't
/// answer), never a chain verdict.
pub fn observe_chain(
    tip: Result<u32, String>,
    anchor_height: Option<u32>,
    block: Result<Option<String>, String>,
) -> (r: Result<ChainObservation, String>)
    ensures
        match tip {
            Err(e) => r == Err::<ChainObservation, String>(e),
            Ok(t) => if block_wanted(anchor_height, t) is Some {
                match block {
                    Err(e) => r == Err::<ChainObservation, String>(e),
                    Ok(hash) => r == Ok::<ChainObservation, String>(
                        ChainObservation { tip: t, anchor_block_hash: hash },
                    ),
                }
            } else {
                r == Ok::<ChainObservation, String>(
                    ChainObservation { tip: t, anchor_block_hash: None },
                )
            },
        },
{
    match tip {
        Err(e) => Err(e),
        Ok(tip) => match block_to_fetch(anchor_height, tip) {
            Some(_) => match block {
                Err(e) => Err(e),
                Ok(hash) => Ok(ChainObservation { tip, anchor_block_hash: hash }),
            },
            None => Ok(ChainObservation { tip, anchor_block_hash: None }),
        },
    }
}

// ---------------------------------------------------------------------------
// What is asked and what is told
// ---------------------------------------------------------------------------

/// The Anchor is at the birthday, or at the tip for a birthday that is yet to come, and
/// never at block zero.
pub proof fn the_anchor_is_at_the_birthday(birthday: u32, tip: u32)
    ensures
        1 <= birthday <= tip ==> anchor_at(birthday, tip) == birthday,
        1 <= tip <= birthday ==> anchor_at(birthday, tip) == tip,
        birthday == 0 || tip == 0 ==> anchor_at(birthday, tip) == 1,
{
}

/// A wrong chain is told for its own reason: one that ends too low with where it ends and
/// where it should reach, one with another block or none at the Anchor with the Anchor's
/// height.
pub proof fn a_wrong_chain_is_told_why(
    anchor_height: u32,
    anchor_hash: Option<Seq<char>>,
    scan_target_height: u32,
    tip: u32,
    found: Option<Seq<char>>,
)
    ensures
        ({
            let v = verdict(anchor_height, anchor_hash, scan_target_height, tip, found);
            let ends = "the server's chain ends at block "@ + text::decimal(tip as nat);
            let at = text::decimal(anchor_height as nat);
            &&& anchor_hash is None && tip + 100 < scan_target_height ==> v
                == (Verdict::WrongChain {
                detail: ends + ", far below the "@ + text::decimal(scan_target_height as nat)
                    + " this Wallet synced"@,
            })
            &&& anchor_hash is Some && tip < anchor_height ==> v == (Verdict::WrongChain {
                detail: ends + ", below this Wallet's anchor at "@ + at,
            })
            &&& anchor_hash is Some && tip >= anchor_height && found is Some && found
                != anchor_hash ==> v == (Verdict::WrongChain {
                detail: "block "@ + at + " doesn't match the one this Wallet synced"@,
            })
            &&& anchor_hash is Some && tip >= anchor_height && found is None ==> v
                == (Verdict::WrongChain {
                detail: "the server has no block at height "@ + at,
            })
        }),
{
}

/// A block is asked for exactly where there is an Anchor that the chain reaches, and then it
/// is the one at the Anchor's height.
pub proof fn only_a_covered_anchor_is_asked_for(anchor_height: Option<u32>, tip: u32, height: u32)
    ensures
        block_wanted(anchor_height, tip) == Some(height) <==> anchor_height == Some(height)
            && height <= tip,
        block_wanted(anchor_height, tip) is None <==> (anchor_height matches Some(h) ==> tip < h),
{
}

/// A server has no such block exactly by the codes for what is not found, out of range, an
/// argument it does not take, or unknown; any other code is a failure.
pub proof fn four_codes_say_no_block(code: Code)
    ensures
        says_no_block(code) <==> code is NotFound || code is OutOfRange || code is InvalidArgument
            || code is Unknown,
{
}

/// An error that speaks of the connection anywhere in its text is told as a server that was
/// not reached, and any other as one that is no indexer.
pub proof fn a_failed_connection_is_told_apart(
    before: Seq<char>,
    after: Seq<char>,
    lower: Seq<char>,
)
    ensures
        ({
            let unreached =
                "couldn't reach that server. Check the address and that the server is running."@;
            &&& probe_message(before + "unavailable"@ + after) == unreached
            &&& probe_message(before + "connect"@ + after) == unreached
            &&& probe_message(before + "refused"@ + after) == unreached
            &&& probe_message(before + "dns"@ + after) == unreached
            &&& probe_message(before + "timed out"@ + after) == unreached
            &&& probe_message(before + "timeout"@ + after) == unreached
            &&& probe_message(before + "deadline"@ + after) == unreached
        }),
        !text::occurs_in("unavailable"@, lower) && !text::occurs_in("connect"@, lower)
            && !text::occurs_in("refused"@, lower) && !text::occurs_in("dns"@, lower)
            && !text::occurs_in("timed out"@, lower) && !text::occurs_in("timeout"@, lower)
            && !text::occurs_in("deadline"@, lower) ==> probe_message(lower)
            == "that server answered but isn't a Zcash indexer."@,
{
    text::parts_occur_between_others(before + "unavailable"@ + after, "unavailable"@);
    text::parts_occur_between_others(before + "connect"@ + after, "connect"@);
    text::parts_occur_between_others(before + "refused"@ + after, "refused"@);
    text::parts_occur_between_others(before + "dns"@ + after, "dns"@);
    text::parts_occur_between_others(before + "timed out"@ + after, "timed out"@);
    text::parts_occur_between_others(before + "timeout"@ + after, "timeout"@);
    text::parts_occur_between_others(before + "deadline"@ + after, "deadline"@);
}

/// A failure to connect keeps its cause.
pub proof fn a_connect_failure_keeps_its_cause(error: Seq<char>)
    ensures
        connect_failed(error) == "could not connect to indexer: "@ + error,
{
}

/// What a verdict says is said of the verdict itself.
pub proof fn a_verdict_is_what_it_says(v: ChainVerdict)
    ensures
        v is Match <==> v@ is Match,
        v is Unanchored <==> v@ is Unanchored,
        v matches ChainVerdict::WrongChain { detail } ==> v@ == (Verdict::WrongChain {
            detail: detail@,
        }),
        v@ is WrongChain ==> v is WrongChain,
{
}

/// An observed chain is judged by the block at the anchor's height, where there is an
/// anchor, and by its tip otherwise.
pub proof fn an_observed_chain_is_judged(
    anchor_height: u32,
    anchor_hash: Option<&str>,
    scan_target_height: u32,
    obs: ChainObservation,
    r: ChainVerdict,
)
    requires
        call_ensures(chain_verdict, (anchor_height, anchor_hash, scan_target_height, &obs), r),
    ensures
        anchor_hash matches Some(expected) ==> {
            &&& r is Match <==> obs.tip >= anchor_height && obs.anchor_block_hash is Some
                && obs.anchor_block_hash->0@ == expected@
            &&& !(r is Match) ==> r is WrongChain
        },
        anchor_hash is None ==> {
            &&& r is WrongChain <==> obs.tip + 100 < scan_target_height
            &&& !(r is WrongChain) ==> r is Unanchored
        },
{
}

/// A block's hash is told in lower-case hexadecimal, two digits a byte; that there is no
/// such block is told apart from a failure.
pub proof fn a_block_is_told_by_its_hash(
    reply: BlockReply,
    r: Result<Option<String>, String>,
)
    requires
        call_ensures(fetch_block_hash, (&reply,), r),
    ensures
        r matches Ok(Some(h)) ==> reply is Block && h@ == hex::hex_text(reply->Block_0@),
        r matches Ok(None) ==> reply is Failed && says_no_block(reply->code),
        r is Err <==> reply is ConnectFailed || (reply is Failed && !says_no_block(reply->code)),
{
}

/// A server that told its height is at that tip, and any other reply is an error.
pub proof fn a_tip_is_the_height_told(reply: InfoReply, r: Result<u32, String>)
    requires
        call_ensures(indexer_tip, (&reply,), r),
    ensures
        r is Ok <==> reply is Info,
        reply matches InfoReply::Info(height) ==> height <= u32::MAX ==> r == Ok::<u32, String>(
            height as u32,
        ),
{
}

/// What was observed is the tip as told, and the block that was asked for, if one was.
pub proof fn an_observation_is_what_was_told(
    tip: Result<u32, String>,
    anchor_height: Option<u32>,
    block: Result<Option<String>, String>,
    obs: ChainObservation,
)
    requires
        call_ensures(
            observe_chain,
            (tip, anchor_height, block),
            Ok::<ChainObservation, String>(obs),
        ),
    ensures
        tip is Ok && obs.tip == tip->Ok_0,
        anchor_height matches Some(h) ==> {
            &&& obs.tip >= h ==> block is Ok && obs.anchor_block_hash == block->Ok_0
            &&& obs.tip < h ==> obs.anchor_block_hash is None
        },
        anchor_height is None ==> obs.anchor_block_hash is None,
{
}

} // verus!
