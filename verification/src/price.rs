//! Reconciled ZEC/USD prices, and when they are fetched.
//!
//! The prices themselves are floating-point figures that this module only carries.

use vstd::prelude::*;
use vstd::string::*;

use crate::clock;
use crate::clock::Duration;
use crate::ipc::{PricePoint, PriceSpot, SyncEvent};
use crate::text;

verus! {

broadcast use vstd::string::group_string_axioms;

/// How often the price loop refreshes the spot while fiat is enabled, in seconds.
/// Balanced against provider rate limits; daily history is fetched at most once per UTC
/// day.
pub const SPOT_INTERVAL_SECS: u64 = 600;

/// A spot older than this is shown greyed with an "updated Xh ago" marker, in seconds.
pub const SPOT_STALE_AFTER_SECS: u64 = 3600;

/// One day of the series.
pub struct DailyMark {
    /// UTC `YYYY-MM-DD`.
    pub date: String,
    pub point: PricePoint,
}

/// Reconciled spot + daily series. The days stand oldest first, each once.
pub struct PriceCache {
    pub spot: Option<PriceSpot>,
    pub daily: Vec<DailyMark>,
}

/// The mark of a day.
pub open spec fn mark_on(daily: Seq<DailyMark>, date: Seq<char>) -> Option<PricePoint>
    decreases daily.len(),
{
    if daily.len() == 0 {
        None
    } else if daily.first().date@ == date {
        Some(daily.first().point)
    } else {
        mark_on(daily.skip(1), date)
    }
}

/// The days stand oldest first, each once.
pub open spec fn in_date_order(daily: Seq<DailyMark>) -> bool {
    forall|i: int, j: int|
        0 <= i < j < daily.len() ==> text::text_le((#[trigger] daily[i]).date@, (
        #[trigger] daily[j]).date@) && daily[i].date@ != daily[j].date@
}

/// Whether a spot fetched at one time is stale at another.
pub open spec fn is_stale(fetched_at: u64, now_secs: u64) -> bool {
    now_secs > fetched_at && now_secs - fetched_at > SPOT_STALE_AFTER_SECS
}

/// The marks of a series with fresh ones merged in: a day that has one keeps it.
pub open spec fn merged(daily: Seq<DailyMark>, fresh: Seq<DailyMark>, date: Seq<char>) -> Option<
    PricePoint,
> {
    match mark_on(daily, date) {
        Some(point) => Some(point),
        None => mark_on(fresh, date),
    }
}

proof fn mark_at(daily: Seq<DailyMark>, i: int)
    requires
        0 <= i < daily.len(),
        forall|k: int| 0 <= k < i ==> (#[trigger] daily[k]).date@ != daily[i].date@,
    ensures
        mark_on(daily, daily[i].date@) == Some(daily[i].point),
    decreases i,
{
    if i > 0 {
        assert(daily[0].date@ != daily[i].date@);
        let rest = daily.skip(1);
        assert forall|k: int| 0 <= k < i - 1 implies (#[trigger] rest[k]).date@
            != rest[i - 1].date@ by {
            assert(rest[k] == daily[k + 1]);
        }
        mark_at(rest, i - 1);
    }
}

proof fn no_mark(daily: Seq<DailyMark>, date: Seq<char>)
    requires
        forall|k: int| 0 <= k < daily.len() ==> (#[trigger] daily[k]).date@ != date,
    ensures
        mark_on(daily, date) is None,
    decreases daily.len(),
{
    if daily.len() > 0 {
        let rest = daily.skip(1);
        assert(daily[0].date@ != date);
        assert forall|k: int| 0 <= k < rest.len() implies (#[trigger] rest[k]).date@ != date by {
            assert(rest[k] == daily[k + 1]);
        }
        no_mark(rest, date);
    }
}

proof fn mark_inserted(daily: Seq<DailyMark>, at: int, mark: DailyMark, date: Seq<char>)
    requires
        0 <= at <= daily.len(),
        forall|k: int| 0 <= k < daily.len() ==> (#[trigger] daily[k]).date@ != mark.date@,
    ensures
        mark_on(daily.insert(at, mark), date) == if date == mark.date@ {
            Some(mark.point)
        } else {
            mark_on(daily, date)
        },
    decreases daily.len(),
{
    let longer = daily.insert(at, mark);
    if at == 0 {
        assert(longer.skip(1) =~= daily);
    } else {
        assert(longer[0] == daily[0]);
        assert(daily[0].date@ != mark.date@);
        let rest = daily.skip(1);
        assert forall|k: int| 0 <= k < rest.len() implies (#[trigger] rest[k]).date@
            != mark.date@ by {
            assert(rest[k] == daily[k + 1]);
        }
        assert(longer.skip(1) =~= rest.insert(at - 1, mark));
        mark_inserted(rest, at - 1, mark, date);
    }
}

/// The mark of a day is found among the first marks of a series, or else among the rest.
proof fn mark_split(fresh: Seq<DailyMark>, n: int, date: Seq<char>)
    requires
        0 <= n < fresh.len(),
    ensures
        mark_on(fresh.take(n + 1), date) == match mark_on(fresh.take(n), date) {
            Some(point) => Some(point),
            None => if fresh[n].date@ == date {
                Some(fresh[n].point)
            } else {
                None
            },
        },
    decreases n,
{
    let (long, short) = (fresh.take(n + 1), fresh.take(n));
    if n == 0 {
        assert(long.skip(1) =~= seq![]);
        assert(long.first() == fresh[0]);
        assert(mark_on(long.skip(1), date) is None);
        assert(mark_on(short, date) is None);
    } else {
        assert(long.first() == short.first());
        let rest = fresh.skip(1);
        assert(long.skip(1) =~= rest.take(n));
        assert(short.skip(1) =~= rest.take(n - 1));
        assert(rest[n - 1] == fresh[n]);
        mark_split(rest, n - 1, date);
    }
}

/// A copy of a spot price.
pub fn copy_spot(spot: &PriceSpot) -> (r: PriceSpot)
    ensures
        same_spot(r, *spot),
        r.stale == spot.stale,
{
    let mut sources: Vec<String> = Vec::new();
    let mut i: usize = 0;
    while i < spot.sources.len()
        invariant
            i <= spot.sources@.len(),
            sources@ == spot.sources@.take(i as int),
        decreases spot.sources@.len() - i,
    {
        sources.push(spot.sources[i].clone());
        i = i + 1;
        assert(spot.sources@.take(i as int) =~= spot.sources@.take(i - 1).push(
            spot.sources@[i - 1],
        ));
    }
    assert(spot.sources@.take(spot.sources@.len() as int) =~= spot.sources@);
    PriceSpot {
        usd_per_zec: spot.usd_per_zec,
        fetched_at: spot.fetched_at,
        sources,
        stale: spot.stale,
        diverged: spot.diverged,
    }
}

/// Two spots of one fetch, whether stale or not.
pub open spec fn same_spot(a: PriceSpot, b: PriceSpot) -> bool {
    &&& a.usd_per_zec == b.usd_per_zec
    &&& a.fetched_at == b.fetched_at
    &&& a.sources@ == b.sources@
    &&& a.diverged == b.diverged
}

impl PriceCache {
    /// A cache with nothing in it.
    pub fn new() -> (r: Self)
        ensures
            r.spot is None,
            r.daily@.len() == 0,
            r.wf(),
    {
        PriceCache { spot: None, daily: Vec::new() }
    }

    pub open spec fn wf(self) -> bool {
        in_date_order(self.daily@)
    }

    /// The current reconciled spot, or `None` if nothing has been fetched yet. Stamped
    /// stale when the last fetch is too long ago, so the GUI can grey it.
    pub fn spot_price(&self, now_secs: u64) -> (r: Option<PriceSpot>)
        ensures
            match (r, self.spot) {
                (Some(shown), Some(spot)) => same_spot(shown, spot) && shown.stale == is_stale(
                    spot.fetched_at,
                    now_secs,
                ),
                (None, None) => true,
                _ => false,
            },
    {
        match &self.spot {
            None => None,
            Some(spot) => {
                let mut shown = copy_spot(spot);
                let age: u64 = if now_secs >= spot.fetched_at {
                    now_secs - spot.fetched_at
                } else {
                    0
                };
                shown.stale = age > SPOT_STALE_AFTER_SECS;
                Some(shown)
            },
        }
    }

    /// The full reconciled daily series, oldest first. The GUI clips it to the selected
    /// Span and multiplies each day by the balance held then.
    pub fn price_history(&self) -> (r: Vec<PricePoint>)
        ensures
            r@ == self.daily@.map_values(|m: DailyMark| m.point),
    {
        let mut out: Vec<PricePoint> = Vec::new();
        let mut i: usize = 0;
        while i < self.daily.len()
            invariant
                i <= self.daily@.len(),
                out@ == self.daily@.take(i as int).map_values(|m: DailyMark| m.point),
            decreases self.daily@.len() - i,
        {
            out.push(self.daily[i].point.clone());
            i = i + 1;
            assert(out@ =~= self.daily@.take(i as int).map_values(|m: DailyMark| m.point));
        }
        assert(self.daily@.take(self.daily@.len() as int) =~= self.daily@);
        out
    }

    /// Take a freshly fetched spot, and report it.
    pub fn refresh_spot(&mut self, spot: PriceSpot) -> (r: SyncEvent)
        ensures
            final(self).spot == Some(spot),
            final(self).daily == old(self).daily,
            r is PriceUpdate,
            same_spot(r->spot, spot),
            r->spot.stale == spot.stale,
    {
        let reported = copy_spot(&spot);
        self.spot = Some(spot);
        SyncEvent::PriceUpdate { spot: reported }
    }

    /// Take the mark of a day that has none.
    pub fn record(&mut self, mark: DailyMark)
        requires
            old(self).wf(),
        ensures
            final(self).wf(),
            final(self).spot == old(self).spot,
            forall|date: Seq<char>| #[trigger]
                mark_on(final(self).daily@, date) == match mark_on(old(self).daily@, date) {
                    Some(point) => Some(point),
                    None => if mark.date@ == date {
                        Some(mark.point)
                    } else {
                        None
                    },
                },
    {
        let ghost before = self.daily@;
        let mut at: usize = 0;
        while at < self.daily.len() && !text::text_before(
            mark.date.as_str(),
            self.daily[at].date.as_str(),
        )
            invariant
                at <= self.daily@.len(),
                self.daily@ == before,
                before == old(self).daily@,
                self.spot == old(self).spot,
                in_date_order(before),
                forall|k: int|
                    0 <= k < at ==> text::text_le((#[trigger] before[k]).date@, mark.date@)
                        && before[k].date@ != mark.date@,
            decreases self.daily@.len() - at,
        {
            proof {
                let d = before[at as int].date@;
                text::text_le_total(d, mark.date@);
                text::text_le_total(mark.date@, mark.date@);
            }
            at = at + 1;
        }
        if at < self.daily.len() && text::same_text(
            self.daily[at].date.as_str(),
            mark.date.as_str(),
        ) {
            proof {
                mark_at(before, at as int);
            }
            return;
        }
        proof {
            assert forall|k: int| at <= k < before.len() implies text::text_le(
                mark.date@,
                (#[trigger] before[k]).date@,
            ) && before[k].date@ != mark.date@ by {
                let first = before[at as int].date@;
                text::text_le_total(first, mark.date@);
                if k > at {
                    assert(text::text_le(first, before[k].date@));
                    text::text_le_transitive(mark.date@, first, before[k].date@);
                    if before[k].date@ == mark.date@ {
                        text::text_le_antisymmetric(first, mark.date@);
                    }
                }
            }
            no_mark(before, mark.date@);
            assert forall|date: Seq<char>| #[trigger]
                mark_on(before.insert(at as int, mark), date) == match mark_on(before, date) {
                    Some(point) => Some(point),
                    None => if mark.date@ == date {
                        Some(mark.point)
                    } else {
                        None
                    },
                } by {
                mark_inserted(before, at as int, mark, date);
            }
        }
        self.daily.insert(at, mark);
    }

    /// Merge freshly fetched daily marks into the cache, keeping existing days
    /// immutable. Returns whether anything came back, so a failed fetch retries next
    /// tick rather than marking the day done.
    pub fn refresh_daily(&mut self, fresh: Vec<DailyMark>) -> (r: bool)
        requires
            old(self).wf(),
        ensures
            r == (fresh@.len() > 0),
            final(self).wf(),
            final(self).spot == old(self).spot,
            forall|date: Seq<char>| #[trigger]
                mark_on(final(self).daily@, date) == merged(old(self).daily@, fresh@, date),
    {
        let mut i: usize = 0;
        assert(fresh@.take(0) =~= seq![]);
        while i < fresh.len()
            invariant
                i <= fresh@.len(),
                self.wf(),
                self.spot == old(self).spot,
                forall|date: Seq<char>| #[trigger]
                    mark_on(self.daily@, date) == merged(
                        old(self).daily@,
                        fresh@.take(i as int),
                        date,
                    ),
            decreases fresh@.len() - i,
        {
            let mark = &fresh[i];
            let ghost before = self.daily@;
            self.record(DailyMark { date: mark.date.clone(), point: mark.point.clone() });
            proof {
                assert forall|date: Seq<char>| #[trigger]
                    mark_on(self.daily@, date) == merged(
                        old(self).daily@,
                        fresh@.take(i + 1),
                        date,
                    ) by {
                    mark_split(fresh@, i as int, date);
                    assert(mark_on(before, date) == merged(
                        old(self).daily@,
                        fresh@.take(i as int),
                        date,
                    ));
                }
            }
            i = i + 1;
        }
        assert(fresh@.take(fresh@.len() as int) =~= fresh@);
        fresh.len() > 0
    }
}

// ---------------------------------------------------------------------------
// The price loop
// ---------------------------------------------------------------------------

/// What the price loop does next.
#[derive(Debug, Clone, Copy, PartialEq, Eq, Structural)]
pub enum PriceStep {
    /// Nothing, until the user asks for prices or a while has passed.
    Park,
    /// Fetch the spot.
    FetchSpot,
}

/// Whether prices may be fetched: the user consented, and there is an unlocked wallet to
/// show them for.
pub open spec fn may_fetch(fiat_enabled: bool, session_locked: bool, has_wallet: bool) -> bool {
    fiat_enabled && !session_locked && has_wallet
}

/// The price loop: the last day that the daily series was fetched on.
pub struct PriceLoop {
    pub last_daily: Option<String>,
}

impl PriceLoop {
    pub fn new() -> (r: Self)
        ensures
            r.last_daily is None,
    {
        PriceLoop { last_daily: None }
    }

    /// How long the loop waits between two steps, unless it is woken.
    pub fn interval() -> (r: Duration)
        ensures
            r.nanos == SPOT_INTERVAL_SECS * clock::NANOS_PER_SEC,
    {
        Duration::from_secs(SPOT_INTERVAL_SECS)
    }

    /// What to do next. Nothing is fetched without the user's consent, nor while the
    /// session is locked.
    pub fn next(&self, fiat_enabled: bool, session_locked: bool, has_wallet: bool) -> (r: PriceStep)
        ensures
            r == if may_fetch(fiat_enabled, session_locked, has_wallet) {
                PriceStep::FetchSpot
            } else {
                PriceStep::Park
            },
    {
        if fiat_enabled && !session_locked && has_wallet {
            PriceStep::FetchSpot
        } else {
            PriceStep::Park
        }
    }

    /// Whether the daily series is to be fetched on a day.
    pub open spec fn due(self, today: Seq<char>) -> bool {
        match self.last_daily {
            Some(day) => day@ != today,
            None => true,
        }
    }

    /// Whether the daily series is to be fetched on a day.
    pub fn daily_due(&self, today: &str) -> (r: bool)
        ensures
            r == self.due(today@),
    {
        match &self.last_daily {
            Some(day) => !text::same_text(day.as_str(), today),
            None => true,
        }
    }

    /// Take what came of fetching the daily series: a day is done once something came
    /// back.
    pub fn daily_fetched(&mut self, today: &str, came_back: bool)
        ensures
            came_back ==> !final(self).due(today@) && forall|day: Seq<char>|
                day != today@ ==> #[trigger] final(self).due(day),
            !came_back ==> *final(self) == *old(self),
    {
        if came_back {
            self.last_daily = Some(today.to_string());
        }
    }
}

// ---------------------------------------------------------------------------
// What prices are shown, and when they are fetched
// ---------------------------------------------------------------------------

/// A spot is stale once more than an hour has passed since it was fetched.
pub proof fn a_spot_is_stale_after_an_hour(fetched_at: u64, now_secs: u64)
    ensures
        is_stale(fetched_at, now_secs) <==> now_secs > fetched_at + 3600,
{
}

/// Prices are fetched only with the user's consent, in an open session, and for a wallet;
/// every ten minutes, and the daily series once a day.
pub proof fn nothing_is_fetched_without_consent(
    fiat_enabled: bool,
    session_locked: bool,
    has_wallet: bool,
    prices: PriceLoop,
    today: Seq<char>,
)
    ensures
        may_fetch(fiat_enabled, session_locked, has_wallet) <==> fiat_enabled && !session_locked
            && has_wallet,
        SPOT_INTERVAL_SECS == 600,
        prices.last_daily matches Some(day) ==> (prices.due(today) <==> day@ != today),
        prices.last_daily is None ==> prices.due(today),
{
}

/// The mark of a day is that of the first entry of the day, and there is none exactly where
/// no entry has the day.
pub proof fn a_day_has_its_own_mark(daily: Seq<DailyMark>, date: Seq<char>)
    ensures
        mark_on(daily, date) is None <==> forall|k: int|
            0 <= k < daily.len() ==> (#[trigger] daily[k]).date@ != date,
        forall|i: int|
            0 <= i < daily.len() && (#[trigger] daily[i]).date@ == date && (forall|k: int|
                0 <= k < i ==> (#[trigger] daily[k]).date@ != date) ==> mark_on(daily, date) == Some(
                daily[i].point,
            ),
{
    assert forall|i: int|
        0 <= i < daily.len() && (#[trigger] daily[i]).date@ == date && (forall|k: int|
            0 <= k < i ==> (#[trigger] daily[k]).date@ != date) implies mark_on(daily, date) == Some(
        daily[i].point,
    ) by {
        mark_at(daily, i);
    }
    if mark_on(daily, date) is None {
        assert forall|k: int| 0 <= k < daily.len() implies (#[trigger] daily[k]).date@ != date by {
            unmarked(daily, date, k);
        }
    }
    if forall|k: int| 0 <= k < daily.len() ==> (#[trigger] daily[k]).date@ != date {
        no_mark(daily, date);
    }
}

proof fn unmarked(daily: Seq<DailyMark>, date: Seq<char>, k: int)
    requires
        mark_on(daily, date) is None,
        0 <= k < daily.len(),
    ensures
        daily[k].date@ != date,
    decreases daily.len(),
{
    if k > 0 {
        assert(daily.skip(1)[k - 1] == daily[k]);
        unmarked(daily.skip(1), date, k - 1);
    }
}

/// A day that has a mark keeps it whatever is fetched later, and one that has none takes the
/// fresh one, if there is any.
pub proof fn a_day_keeps_its_mark(daily: Seq<DailyMark>, fresh: Seq<DailyMark>, date: Seq<char>)
    ensures
        mark_on(daily, date) is Some ==> merged(daily, fresh, date) == mark_on(daily, date),
        mark_on(daily, date) is None ==> merged(daily, fresh, date) == mark_on(fresh, date),
{
}

/// A spot is shown with its own price, time, sources and divergence.
pub proof fn a_spot_is_shown_as_fetched(cache: PriceCache, now_secs: u64, r: Option<PriceSpot>)
    requires
        call_ensures(PriceCache::spot_price, (&cache, now_secs), r),
    ensures
        r is Some <==> cache.spot is Some,
        r matches Some(shown) ==> {
            let spot = cache.spot->0;
            &&& shown.usd_per_zec == spot.usd_per_zec
            &&& shown.fetched_at == spot.fetched_at
            &&& shown.sources@ == spot.sources@
            &&& shown.diverged == spot.diverged
            &&& shown.stale <==> now_secs > spot.fetched_at + 3600
        },
{
}

/// The days of the series stand oldest first, each once.
pub proof fn the_days_stand_in_order(cache: PriceCache, i: int, j: int)
    requires
        cache.wf(),
        0 <= i < j < cache.daily@.len(),
    ensures
        text::text_le(cache.daily@[i].date@, cache.daily@[j].date@),
        cache.daily@[i].date@ != cache.daily@[j].date@,
{
}

/// The history handed out has the mark of each day, in the order of the series.
pub proof fn each_day_is_handed_out(cache: PriceCache, r: Vec<PricePoint>, i: int)
    requires
        call_ensures(PriceCache::price_history, (&cache,), r),
        0 <= i < cache.daily@.len(),
    ensures
        r@.len() == cache.daily@.len(),
        r@[i] == cache.daily@[i].point,
{
}

/// A fetched spot is the one at hand and the one reported; fetched days are taken exactly
/// where there was no mark yet, and a fetch that brought nothing is to be tried again.
pub proof fn what_was_fetched_is_kept(spot: PriceSpot, fresh: Vec<DailyMark>, date: Seq<char>)
    ensures
        forall|m: &mut PriceCache, r: SyncEvent| #[trigger]
            call_ensures(PriceCache::refresh_spot, (m, spot), r) ==> {
                &&& (*final(m)).spot == Some(spot)
                &&& (*final(m)).daily == (*m).daily
                &&& r is PriceUpdate
                &&& r->spot.usd_per_zec == spot.usd_per_zec && r->spot.fetched_at
                    == spot.fetched_at && r->spot.sources@ == spot.sources@ && r->spot.diverged
                    == spot.diverged && r->spot.stale == spot.stale
            },
        forall|m: &mut PriceCache, r: bool| #[trigger]
            call_ensures(PriceCache::refresh_daily, (m, fresh), r) ==> {
                let (before, after) = (*m, *final(m));
                &&& r <==> fresh@.len() > 0
                &&& after.spot == before.spot
                &&& mark_on(before.daily@, date) is Some ==> mark_on(after.daily@, date) == mark_on(
                    before.daily@,
                    date,
                )
                &&& mark_on(before.daily@, date) is None ==> mark_on(after.daily@, date) == mark_on(
                    fresh@,
                    date,
                )
            },
{
}

/// The loop fetches exactly where it may, and the daily series of a day until that day's
/// fetch brought something.
pub proof fn the_loop_fetches_what_is_due(
    prices: PriceLoop,
    fiat_enabled: bool,
    session_locked: bool,
    has_wallet: bool,
    step: PriceStep,
    today: &str,
    came_back: bool,
)
    requires
        call_ensures(PriceLoop::next, (&prices, fiat_enabled, session_locked, has_wallet), step),
    ensures
        step is FetchSpot <==> fiat_enabled && !session_locked && has_wallet,
        forall|m: &mut PriceLoop| #[trigger]
            call_ensures(PriceLoop::daily_fetched, (m, today, came_back), ()) ==> {
                let (before, after) = (*m, *final(m));
                &&& came_back ==> !after.due(today@)
                &&& !came_back ==> after == before
            },
{
}

} // verus!
