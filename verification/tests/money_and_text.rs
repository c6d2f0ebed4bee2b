use pendrake::amount::{format_amount, format_zec};
use pendrake::ipc::{Confidence, PricePoint, PriceSpot, Real, SyncEvent};
use pendrake::notify::{movement_toast, Disposition, NotificationPolicy};
use pendrake::price::{DailyMark, PriceCache, PriceLoop, PriceStep};
use pendrake::text::{
    contains_text, fixed_text, i64_text, take_chars, text_before, text_begins_with, trim, u64_text,
};
use pendrake::uri::{connect_uri, indexer_name, pick_uri, shown_host};

#[test]
fn zec_amounts_read_naturally() {
    assert_eq!(format_zec(0), "0");
    assert_eq!(format_zec(100_000_000), "1");
    assert_eq!(format_zec(150_000_000), "1.5");
    assert_eq!(format_zec(1), "0.00000001");
    assert_eq!(format_zec(u64::MAX), "184467440737.09551615");
}

#[test]
fn dust_reads_in_zatoshis() {
    assert_eq!(format_amount(0), "0 ZEC");
    assert_eq!(format_amount(1), "1 zatoshis");
    assert_eq!(format_amount(99_999), "99999 zatoshis");
    assert_eq!(format_amount(100_000), "0.001 ZEC");
    assert_eq!(
        movement_toast("t", false, 99_999, false).body,
        "99999 zatoshis sent from your wallet."
    );
}

#[test]
fn numbers_are_written_out() {
    assert_eq!(u64_text(u64::MAX), "18446744073709551615");
    assert_eq!(i64_text(i64::MIN), "-9223372036854775808");
    assert_eq!(i64_text(0), "0");
    assert_eq!(fixed_text(42, 5), "00042");
}

#[test]
fn texts_are_trimmed_cut_and_searched() {
    assert_eq!(trim("\u{2003} a b \n"), "a b");
    assert_eq!(trim(" \t"), "");
    assert_eq!(take_chars("\u{e9}\u{e8}x", 2), "\u{e9}\u{e8}");
    assert_eq!(take_chars("a", 8), "a");
    assert!(contains_text("connection refused", "refused"));
    assert!(!contains_text("refuse", "refused"));
    assert!(contains_text("", ""));
    assert!(text_begins_with("pendrake://x", "pendrake://"));
    assert!(!text_begins_with("pendrake:/", "pendrake://"));
    assert!(text_before("a", "ab"));
    assert!(text_before("ab", "ab"));
    assert!(!text_before("b", "ab"));
}

#[test]
fn addresses_are_parsed() {
    assert_eq!(indexer_name("https://zec.rocks:443"), "zec.rocks");
    assert_eq!(indexer_name("/relative"), "your Indexer");
    assert_eq!(indexer_name("not a uri"), "your Indexer");
    assert_eq!(shown_host(Some("h".to_string())), "h");
    assert_eq!(connect_uri("http://127.0.0.1:9067", "d"), "http://127.0.0.1:9067");
    assert_eq!(connect_uri("", "d"), "d");
    assert_eq!(pick_uri(false, "a", "d"), "d");
}

#[test]
fn a_policy_notifies_once_and_keeps_history_silent() {
    let mut policy = NotificationPolicy::load(vec!["old".to_string()]);
    assert_eq!(policy.classify("old", true), Disposition::Silent);
    assert_eq!(policy.classify("new", true), Disposition::Notify);
    policy.mark_notified("new");
    assert_eq!(policy.classify("new", true), Disposition::Silent);
    assert_eq!(policy.classify("past", false), Disposition::Silent);
    assert_eq!(policy.classify("past", true), Disposition::Silent);
    assert_eq!(policy.seen.len(), 3);
    policy.mark_notified("new");
    assert_eq!(policy.seen.len(), 3);
    policy.reset();
    assert_eq!(policy.classify("old", true), Disposition::Notify);
}

fn spot(fetched_at: u64) -> PriceSpot {
    PriceSpot {
        usd_per_zec: Real { bits: 7 },
        fetched_at,
        sources: vec!["a".to_string(), "b".to_string()],
        stale: false,
        diverged: true,
    }
}

fn mark(date: &str, bits: u64) -> DailyMark {
    DailyMark {
        date: date.to_string(),
        point: PricePoint {
            date: date.to_string(),
            usd_per_zec: Real { bits },
            confidence: Confidence::High,
            diverged: false,
        },
    }
}

#[test]
fn a_spot_goes_stale_after_an_hour() {
    let mut cache = PriceCache::new();
    assert!(cache.spot_price(0).is_none());
    match cache.refresh_spot(spot(1000)) {
        SyncEvent::PriceUpdate { spot } => assert_eq!(spot.sources, vec!["a", "b"]),
        other => panic!("expected a price update, got {other:?}"),
    }
    assert!(!cache.spot_price(1000 + 3600).unwrap().stale);
    assert!(cache.spot_price(1000 + 3601).unwrap().stale);
    // A clock that went back makes nothing stale.
    assert!(!cache.spot_price(0).unwrap().stale);
    assert_eq!(cache.spot_price(0).unwrap().sources, vec!["a", "b"]);
}

#[test]
fn existing_days_are_immutable() {
    let mut cache = PriceCache::new();
    assert!(cache.refresh_daily(vec![mark("2024-01-02", 2), mark("2024-01-01", 1)]));
    assert!(cache.refresh_daily(vec![
        mark("2024-01-02", 99),
        mark("2023-12-31", 0),
        mark("2024-01-03", 3),
        mark("2024-01-03", 98),
    ]));
    let bits: Vec<u64> = cache
        .price_history()
        .iter()
        .map(|p| p.usd_per_zec.bits)
        .collect();
    assert_eq!(bits, vec![0, 1, 2, 3]);
    assert!(!cache.refresh_daily(vec![]));
}

#[test]
fn prices_are_fetched_with_consent_and_daily_once() {
    let mut price_loop = PriceLoop::new();
    assert_eq!(price_loop.next(true, false, true), PriceStep::FetchSpot);
    assert_eq!(price_loop.next(false, false, true), PriceStep::Park);
    assert_eq!(price_loop.next(true, true, true), PriceStep::Park);
    assert_eq!(price_loop.next(true, false, false), PriceStep::Park);
    assert!(price_loop.daily_due("2024-01-01"));
    price_loop.daily_fetched("2024-01-01", false);
    assert!(price_loop.daily_due("2024-01-01"));
    price_loop.daily_fetched("2024-01-01", true);
    assert!(!price_loop.daily_due("2024-01-01"));
    assert!(price_loop.daily_due("2024-01-02"));
}
