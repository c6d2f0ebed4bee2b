use pendrake::chain::{
    anchor_height, block_to_fetch, chain_verdict, fetch_block_hash, indexer_probe_error,
    indexer_tip, observe_chain, probe_error, BlockReply, ChainObservation, ChainVerdict, Code,
    InfoReply, WRONG_CHAIN_TIP_MARGIN,
};
use pendrake::hex::{hex_lower, TxId};

const ANCHOR: &str = "aa11";

fn observed(tip: u32, hash: Option<&str>) -> ChainObservation {
    ChainObservation {
        tip,
        anchor_block_hash: hash.map(str::to_string),
    }
}

#[test]
fn matching_anchor_is_a_match() {
    assert_eq!(
        chain_verdict(500, Some(ANCHOR), 1000, &observed(2000, Some(ANCHOR))),
        ChainVerdict::Match
    );
}

#[test]
fn a_different_hash_at_the_anchor_is_a_wrong_chain() {
    assert!(matches!(
        chain_verdict(500, Some(ANCHOR), 1000, &observed(2000, Some("bb22"))),
        ChainVerdict::WrongChain { .. }
    ));
}

#[test]
fn a_chain_shorter_than_the_anchor_is_wrong() {
    // The tip decides before any hash: no need to ask for a block the server can't have.
    assert!(matches!(
        chain_verdict(500, Some(ANCHOR), 1000, &observed(400, None)),
        ChainVerdict::WrongChain { .. }
    ));
}

#[test]
fn a_missing_anchor_block_on_a_covering_chain_is_wrong() {
    assert!(matches!(
        chain_verdict(500, Some(ANCHOR), 1000, &observed(2000, None)),
        ChainVerdict::WrongChain { .. }
    ));
}

#[test]
fn an_anchorless_wallet_within_the_margin_is_unanchored() {
    // The server trails the scan target by less than the margin: ordinary lag, sync
    // proceeds and an anchor is adopted after the round.
    assert_eq!(
        chain_verdict(0, None, 1000, &observed(950, None)),
        ChainVerdict::Unanchored
    );
}

#[test]
fn an_anchorless_wallet_far_behind_the_scan_target_is_wrong() {
    // The wallet synced a 3.4M-block incarnation, the regenerated chain reports 251k.
    assert!(matches!(
        chain_verdict(0, None, 3_400_000, &observed(251_000, None)),
        ChainVerdict::WrongChain { .. }
    ));
}

#[test]
fn the_tip_margin_boundary_is_exact() {
    // tip + MARGIN == target sits on the boundary and still passes; one block further
    // behind flips it.
    let target = 1000;
    let at_margin = target - WRONG_CHAIN_TIP_MARGIN;
    assert_eq!(
        chain_verdict(0, None, target, &observed(at_margin, None)),
        ChainVerdict::Unanchored
    );
    assert!(matches!(
        chain_verdict(0, None, target, &observed(at_margin - 1, None)),
        ChainVerdict::WrongChain { .. }
    ));
}

#[test]
fn an_anchorless_wallet_takes_the_highest_of_tips() {
    assert_eq!(
        chain_verdict(0, None, 1000, &observed(u32::MAX, None)),
        ChainVerdict::Unanchored
    );
    assert_eq!(
        chain_verdict(0, None, u32::MAX, &observed(u32::MAX - WRONG_CHAIN_TIP_MARGIN, None)),
        ChainVerdict::Unanchored
    );
}

#[test]
fn hex_lower_is_stable_lowercase() {
    assert_eq!(hex_lower(&[0x00, 0xab, 0xff, 0x01]), "00abff01");
    assert_eq!(hex_lower(&[]), "");
}

#[test]
fn each_wrong_chain_says_why() {
    let detail = |v: ChainVerdict| match v {
        ChainVerdict::WrongChain { detail } => detail,
        other => panic!("expected a wrong chain, got {other:?}"),
    };
    assert_eq!(
        detail(chain_verdict(0, None, 3_400_000, &observed(251_000, None))),
        "the server's chain ends at block 251000, far below the 3400000 this Wallet synced"
    );
    assert_eq!(
        detail(chain_verdict(500, Some(ANCHOR), 1000, &observed(400, None))),
        "the server's chain ends at block 400, below this Wallet's anchor at 500"
    );
    assert_eq!(
        detail(chain_verdict(500, Some(ANCHOR), 1000, &observed(2000, Some("bb22")))),
        "block 500 doesn't match the one this Wallet synced"
    );
    assert_eq!(
        detail(chain_verdict(500, Some(ANCHOR), 1000, &observed(2000, None))),
        "the server has no block at height 500"
    );
}

#[test]
fn the_anchor_is_the_birthday_within_the_chain() {
    assert_eq!(anchor_height(419_200, 3_000_000), 419_200);
    assert_eq!(anchor_height(3_000_001, 3_000_000), 3_000_000);
    // Block 0 isn't served.
    assert_eq!(anchor_height(0, 3_000_000), 1);
    assert_eq!(anchor_height(5, 0), 1);
}

#[test]
fn an_anchor_taken_from_a_chain_matches_that_chain_later() {
    let anchor = anchor_height(200, 100);
    assert_eq!(
        chain_verdict(anchor, Some("cafe"), 100, &observed(5000, Some("cafe"))),
        ChainVerdict::Match
    );
    assert!(matches!(
        chain_verdict(anchor, Some("cafe"), 100, &observed(5000, Some("beef"))),
        ChainVerdict::WrongChain { .. }
    ));
}

#[test]
fn a_probe_error_tells_a_dead_server_from_a_wrong_one() {
    let unreachable =
        "couldn't reach that server. Check the address and that the server is running.";
    let no_indexer = "that server answered but isn't a Zcash indexer.";
    // The error text is compared in lower case.
    assert_eq!(indexer_probe_error("status: UNAVAILABLE"), unreachable);
    assert_eq!(indexer_probe_error("DNS error"), unreachable);
    assert_eq!(indexer_probe_error("Deadline exceeded"), unreachable);
    assert_eq!(indexer_probe_error("operation timed out"), unreachable);
    assert_eq!(indexer_probe_error("tcp Connect error"), unreachable);
    assert_eq!(indexer_probe_error("connection REFUSED"), unreachable);
    assert_eq!(indexer_probe_error("Timeout"), unreachable);
    assert_eq!(indexer_probe_error("404 Not Found"), no_indexer);
    assert_eq!(indexer_probe_error(""), no_indexer);
    assert_eq!(probe_error("refused"), unreachable);
    assert_eq!(probe_error("REFUSED"), no_indexer);
}

#[test]
fn the_tip_is_what_the_indexer_reports() {
    assert_eq!(indexer_tip(&InfoReply::Info(2_500_000)), Ok(2_500_000));
    assert_eq!(
        indexer_tip(&InfoReply::ConnectFailed("bad scheme".to_string())),
        Err("could not connect to indexer: bad scheme".to_string())
    );
    assert_eq!(
        indexer_tip(&InfoReply::Failed("unimplemented".to_string())),
        Err("that server answered but isn't a Zcash indexer.".to_string())
    );
}

#[test]
fn a_missing_block_is_no_failure() {
    for code in [
        Code::NotFound,
        Code::OutOfRange,
        Code::InvalidArgument,
        Code::Unknown,
    ] {
        let reply = BlockReply::Failed {
            code,
            error: "unavailable".to_string(),
        };
        assert_eq!(fetch_block_hash(&reply), Ok(None));
    }
    let reply = BlockReply::Failed {
        code: Code::Unavailable,
        error: "unavailable".to_string(),
    };
    assert!(fetch_block_hash(&reply).is_err());
    assert_eq!(
        fetch_block_hash(&BlockReply::Block(vec![0xde, 0xad])),
        Ok(Some("dead".to_string()))
    );
    assert_eq!(
        fetch_block_hash(&BlockReply::ConnectFailed("no".to_string())),
        Err("could not connect to indexer: no".to_string())
    );
}

#[test]
fn the_anchor_block_is_asked_for_only_where_the_chain_covers_it() {
    assert_eq!(block_to_fetch(Some(500), 500), Some(500));
    assert_eq!(block_to_fetch(Some(500), 499), None);
    assert_eq!(block_to_fetch(None, 499), None);
    assert_eq!(
        observe_chain(Ok(600), Some(500), Ok(Some("aa".to_string()))),
        Ok(observed(600, Some("aa")))
    );
    // A block that was not asked for is not looked at.
    assert_eq!(
        observe_chain(Ok(400), Some(500), Err("x".to_string())),
        Ok(observed(400, None))
    );
    assert_eq!(
        observe_chain(Ok(600), Some(500), Err("x".to_string())),
        Err("x".to_string())
    );
    assert_eq!(
        observe_chain(Err("down".to_string()), Some(500), Ok(None)),
        Err("down".to_string())
    );
}

#[test]
fn a_txid_reads_in_reverse() {
    let mut bytes = [0u8; 32];
    bytes[0] = 0x01;
    bytes[31] = 0xfe;
    let text = TxId::from_bytes(bytes).to_string();
    assert_eq!(text.len(), 64);
    assert!(text.starts_with("fe00"));
    assert!(text.ends_with("0001"));
}
