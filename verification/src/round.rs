//! One sync round, folded from the scanner's event stream: the overall tally, the
//! active batches, and the windows that throughput is measured over.
//!
//! Rates, percentages and estimates are floating-point figures. They are computed from
//! what this module holds, outside it, and handed back where a status or a snapshot
//! carries them.

use std::collections::VecDeque;

use vstd::prelude::*;
use vstd::string::*;

use crate::clock::{Duration, Instant};
use crate::hex::TxId;
use crate::ipc::{
    BatchPhase, BatchProgress, BatchSummary, BatchTiming, CommitBreakdown, Real, SyncPhase,
    SyncState, SyncStatus,
};
use crate::text;

verus! {

broadcast use vstd::string::group_string_axioms;

/// Committed batches kept for the measured throughput windows.
pub const TIMING_WINDOW: usize = 12;

/// A half-open range of block heights.
#[derive(Debug, Clone, Copy, PartialEq, Eq, Structural)]
pub struct HeightRange {
    pub start: u32,
    pub end: u32,
}

/// What committing a batch cost, by sub-phase and in all.
#[derive(Debug, Clone, Copy, PartialEq, Eq, Structural)]
pub struct CommitTiming {
    pub checkpoints: Duration,
    pub frontiers: Duration,
    pub insert_tree: Duration,
    pub spend_fetch: Duration,
    pub spend_cpu: Duration,
    pub cleanup: Duration,
    pub other: Duration,
    pub total: Duration,
}

/// What scanning and committing a batch cost, by phase and in all.
#[derive(Debug, Clone, Copy, PartialEq, Eq, Structural)]
pub struct ScanTiming {
    pub fetch: Duration,
    pub decryption: Duration,
    pub tree: Duration,
    pub commit: CommitTiming,
    pub total: Duration,
}

/// What the scanner reports as it works.
pub enum ScanEvent {
    SessionStarted {
        sync_start_height: u32,
        tip: u32,
        total_sapling_outputs: u32,
        total_orchard_outputs: u32,
        total_ironwood_outputs: u32,
        already_scanned_sapling_outputs: u32,
        already_scanned_orchard_outputs: u32,
        already_scanned_ironwood_outputs: u32,
    },
    BatchScanStarted {
        range: HeightRange,
        priority: String,
        sapling_outputs: u32,
        orchard_outputs: u32,
        ironwood_outputs: u32,
    },
    BatchScanCompleted { range: HeightRange },
    BatchCommitStarted { range: HeightRange },
    RangeScanned {
        range: HeightRange,
        priority: String,
        sapling_outputs: u32,
        orchard_outputs: u32,
        ironwood_outputs: u32,
        timing: ScanTiming,
    },
    TxDiscovered { txid: TxId },
    Reorg { reverted_to: u32 },
    TipMoved { to: u32 },
}

/// What an event asks for beyond the round's own view.
pub enum Effect {
    Nothing,
    /// The round starts at this height: arm the live edge from it, before any tip-first
    /// batch can push the synced height past the Initial-scan target.
    SeedLive { start: u32 },
    /// A batch is done and to be reported.
    BatchDone { batch: BatchSummary },
    /// A transaction is to be looked up and reported.
    TxDiscovered { txid: TxId },
}

/// One in-flight scan range, walked through its lifecycle by the batch events.
pub struct Batch {
    pub range: HeightRange,
    pub priority: String,
    pub outputs: u64,
    pub phase: BatchPhase,
    /// When the current phase began: on the monotonic clock for elapsed math, and as
    /// epoch millis so the GUI can animate the bar against the same clock.
    pub phase_since: Instant,
    pub phase_started_ms: u64,
    /// How long the batch waited behind the commit stage, captured on commit.
    pub waited: Duration,
}

/// The whole round folded from the event stream: the overall tally, the active
/// batches, and the measured throughput windows.
pub struct RoundView {
    pub scanned_outputs: u64,
    pub total_outputs: u64,
    pub synced_height: u32,
    pub chain_tip: u32,
    pub in_flight: Vec<Batch>,
    /// Recent committed batches as (outputs, timing), for the scan/commit rates.
    pub timing_log: VecDeque<(u64, ScanTiming)>,
    /// Recent commits as (time, cumulative outputs), for the overall ETA rate.
    pub aggregate_log: VecDeque<(Instant, u64)>,
}

/// What a [`RoundView`] says.
#[verifier::ext_equal]
pub struct Round {
    pub scanned_outputs: u64,
    pub total_outputs: u64,
    pub synced_height: u32,
    pub chain_tip: u32,
    pub in_flight: Seq<Batch>,
    pub timing_log: Seq<(u64, ScanTiming)>,
    pub aggregate_log: Seq<(Instant, u64)>,
}

impl View for RoundView {
    type V = Round;

    open spec fn view(&self) -> Round {
        Round {
            scanned_outputs: self.scanned_outputs,
            total_outputs: self.total_outputs,
            synced_height: self.synced_height,
            chain_tip: self.chain_tip,
            in_flight: self.in_flight@,
            timing_log: self.timing_log@,
            aggregate_log: self.aggregate_log@,
        }
    }
}

// ---------------------------------------------------------------------------
// What an event does
// ---------------------------------------------------------------------------

/// The batches but for those on a range.
pub open spec fn without(batches: Seq<Batch>, range: HeightRange) -> Seq<Batch>
    decreases batches.len(),
{
    if batches.len() == 0 {
        seq![]
    } else {
        let before = without(batches.drop_last(), range);
        if batches.last().range == range {
            before
        } else {
            before.push(batches.last())
        }
    }
}

/// Where the first batch on a range stands.
pub open spec fn batch_at(batches: Seq<Batch>, range: HeightRange) -> Option<int>
    decreases batches.len(),
{
    if batches.len() == 0 {
        None
    } else {
        match batch_at(batches.drop_last(), range) {
            Some(i) => Some(i),
            None => if batches.last().range == range {
                Some(batches.len() - 1)
            } else {
                None
            },
        }
    }
}

/// The batches with the one on a range in its next phase.
pub open spec fn entered(
    batches: Seq<Batch>,
    range: HeightRange,
    phase: BatchPhase,
    waited: spec_fn(Batch) -> Duration,
    now: Instant,
    now_ms: u64,
) -> Seq<Batch> {
    match batch_at(batches, range) {
        Some(i) => batches.update(
            i,
            Batch {
                phase,
                phase_since: now,
                phase_started_ms: now_ms,
                waited: waited(batches[i]),
                ..batches[i]
            },
        ),
        None => batches,
    }
}

/// A log with one more entry, of which only the last ones are kept.
pub open spec fn logged<T>(log: Seq<T>, entry: T) -> Seq<T> {
    let longer = log.push(entry);
    if longer.len() > TIMING_WINDOW {
        longer.skip(1)
    } else {
        longer
    }
}

/// How long the batch on a range has waited behind the commit stage.
pub open spec fn waited_for(batches: Seq<Batch>, range: HeightRange, now: Instant) -> Duration {
    match batch_at(batches, range) {
        Some(i) => match batches[i].phase {
            BatchPhase::Committing => batches[i].waited,
            BatchPhase::Waiting => now.since(batches[i].phase_since),
            BatchPhase::Scanning => Duration::zero(),
        },
        None => Duration::zero(),
    }
}

/// The larger of two heights.
pub open spec fn later(a: u32, b: u32) -> u32 {
    if a >= b {
        a
    } else {
        b
    }
}

impl Round {
    /// A round that has seen no event.
    pub open spec fn fresh() -> Round {
        Round {
            scanned_outputs: 0,
            total_outputs: 0,
            synced_height: 0,
            chain_tip: 0,
            in_flight: seq![],
            timing_log: seq![],
            aggregate_log: seq![],
        }
    }

    /// No two batches are on one range, and the windows are kept short.
    pub open spec fn wf(self) -> bool {
        &&& forall|i: int, j: int|
            0 <= i < j < self.in_flight.len() ==> (#[trigger] self.in_flight[i]).range != (
            #[trigger] self.in_flight[j]).range
        &&& self.timing_log.len() <= TIMING_WINDOW
        &&& self.aggregate_log.len() <= TIMING_WINDOW
    }

    /// Whether the counts an event brings, and what they add up to, fit.
    pub open spec fn takes(self, event: ScanEvent, now: Instant) -> bool {
        match event {
            ScanEvent::SessionStarted {
                total_sapling_outputs,
                total_orchard_outputs,
                total_ironwood_outputs,
                already_scanned_sapling_outputs,
                already_scanned_orchard_outputs,
                already_scanned_ironwood_outputs,
                ..
            } => {
                &&& total_sapling_outputs + total_orchard_outputs + total_ironwood_outputs
                    <= u32::MAX
                &&& already_scanned_sapling_outputs + already_scanned_orchard_outputs
                    + already_scanned_ironwood_outputs <= u32::MAX
            },
            ScanEvent::BatchScanStarted {
                sapling_outputs,
                orchard_outputs,
                ironwood_outputs,
                ..
            } => sapling_outputs + orchard_outputs + ironwood_outputs <= u32::MAX,
            ScanEvent::RangeScanned {
                range,
                sapling_outputs,
                orchard_outputs,
                ironwood_outputs,
                timing,
                ..
            } => {
                &&& sapling_outputs + orchard_outputs + ironwood_outputs <= u32::MAX
                &&& self.scanned_outputs + sapling_outputs + orchard_outputs + ironwood_outputs
                    <= u64::MAX
                &&& waited_for(self.in_flight, range, now).nanos + timing.total.nanos <= u64::MAX
            },
            _ => true,
        }
    }

    /// The round after an event.
    pub open spec fn folded(self, event: ScanEvent, now: Instant, now_ms: u64) -> Round {
        match event {
            ScanEvent::SessionStarted {
                sync_start_height,
                tip,
                total_sapling_outputs,
                total_orchard_outputs,
                total_ironwood_outputs,
                already_scanned_sapling_outputs,
                already_scanned_orchard_outputs,
                already_scanned_ironwood_outputs,
            } => {
                let scanned = (already_scanned_sapling_outputs + already_scanned_orchard_outputs
                    + already_scanned_ironwood_outputs) as u64;
                Round {
                    scanned_outputs: scanned,
                    total_outputs: (total_sapling_outputs + total_orchard_outputs
                        + total_ironwood_outputs) as u64,
                    synced_height: sync_start_height,
                    chain_tip: tip,
                    in_flight: seq![],
                    timing_log: seq![],
                    aggregate_log: seq![(now, scanned)],
                }
            },
            ScanEvent::BatchScanStarted {
                range,
                priority,
                sapling_outputs,
                orchard_outputs,
                ironwood_outputs,
            } => Round {
                in_flight: without(self.in_flight, range).push(
                    Batch {
                        range,
                        priority,
                        outputs: (sapling_outputs + orchard_outputs + ironwood_outputs) as u64,
                        phase: BatchPhase::Scanning,
                        phase_since: now,
                        phase_started_ms: now_ms,
                        waited: Duration::zero(),
                    },
                ),
                ..self
            },
            ScanEvent::BatchScanCompleted { range } => Round {
                in_flight: entered(
                    self.in_flight,
                    range,
                    BatchPhase::Waiting,
                    |b: Batch| b.waited,
                    now,
                    now_ms,
                ),
                ..self
            },
            ScanEvent::BatchCommitStarted { range } => Round {
                in_flight: entered(
                    self.in_flight,
                    range,
                    BatchPhase::Committing,
                    |b: Batch| now.since(b.phase_since),
                    now,
                    now_ms,
                ),
                ..self
            },
            ScanEvent::RangeScanned {
                range,
                sapling_outputs,
                orchard_outputs,
                ironwood_outputs,
                timing,
                ..
            } => {
                let outputs = (sapling_outputs + orchard_outputs + ironwood_outputs) as u64;
                let scanned = (self.scanned_outputs + outputs) as u64;
                Round {
                    scanned_outputs: scanned,
                    synced_height: later(self.synced_height, range.end),
                    in_flight: without(self.in_flight, range),
                    timing_log: logged(self.timing_log, (outputs, timing)),
                    aggregate_log: logged(self.aggregate_log, (now, scanned)),
                    ..self
                }
            },
            ScanEvent::TxDiscovered { .. } => self,
            ScanEvent::Reorg { reverted_to } => Round {
                synced_height: if self.synced_height <= reverted_to {
                    self.synced_height
                } else {
                    reverted_to
                },
                in_flight: seq![],
                ..self
            },
            ScanEvent::TipMoved { to } => Round { chain_tip: later(self.chain_tip, to), ..self },
        }
    }

    /// Whether an effect is what an event asks for.
    pub open spec fn asks(self, event: ScanEvent, now: Instant, effect: Effect) -> bool {
        match event {
            ScanEvent::SessionStarted { sync_start_height, .. } => effect == (Effect::SeedLive {
                start: sync_start_height,
            }),
            ScanEvent::RangeScanned {
                range,
                priority,
                sapling_outputs,
                orchard_outputs,
                ironwood_outputs,
                timing,
            } => {
                &&& effect is BatchDone
                &&& effect->batch.id@ == range_text(range)
                &&& effect->batch.start == range.start
                &&& effect->batch.end == range.end
                &&& effect->batch.priority == priority
                &&& effect->batch.outputs == sapling_outputs + orchard_outputs + ironwood_outputs
                &&& effect->batch.timing == batch_timing(
                    timing,
                    waited_for(self.in_flight, range, now),
                )
            },
            ScanEvent::TxDiscovered { txid } => effect == (Effect::TxDiscovered { txid }),
            _ => effect is Nothing,
        }
    }

    /// The overall phase: that of the furthest-along active batch.
    pub open spec fn phase(self) -> Option<SyncPhase> {
        if self.in_flight.len() == 0 {
            None
        } else if exists|i: int|
            0 <= i < self.in_flight.len() && (#[trigger] self.in_flight[i]).phase
                == BatchPhase::Committing {
            Some(SyncPhase::Committing)
        } else {
            Some(SyncPhase::Scanning)
        }
    }
}

// ---------------------------------------------------------------------------
// Ranges and timings
// ---------------------------------------------------------------------------

/// A range's text, by which the GUI tells batches apart.
pub open spec fn range_text(range: HeightRange) -> Seq<char> {
    text::decimal(range.start as nat) + "-"@ + text::decimal(range.end as nat)
}

/// A range's text, by which the GUI tells batches apart.
pub fn range_id(range: &HeightRange) -> (r: String)
    ensures
        r@ == range_text(*range),
{
    let mut s = text::u64_text(range.start as u64);
    s.append("-");
    let end = text::u64_text(range.end as u64);
    s.append(end.as_str());
    s
}

/// Ranges with one text are one range.
pub proof fn range_text_injective(a: HeightRange, b: HeightRange)
    requires
        range_text(a) == range_text(b),
    ensures
        a == b,
{
    let (x, y) = (text::decimal(a.start as nat), text::decimal(b.start as nat));
    let (u, v) = (text::decimal(a.end as nat), text::decimal(b.end as nat));
    let (s, t) = (range_text(a), range_text(b));
    reveal_strlit("-");
    text::decimal_denotes(a.start as nat);
    text::decimal_denotes(b.start as nat);
    assert(s[x.len() as int] == '-');
    assert(t[y.len() as int] == '-');
    if x.len() < y.len() {
        assert(t[x.len() as int] == y[x.len() as int]);
    } else if y.len() < x.len() {
        assert(s[y.len() as int] == x[y.len() as int]);
    }
    assert(s.take(x.len() as int) =~= x);
    assert(t.take(y.len() as int) =~= y);
    assert(s.skip(x.len() as int + 1) =~= u);
    assert(t.skip(y.len() as int + 1) =~= v);
    text::decimal_injective(a.start as nat, b.start as nat);
    text::decimal_injective(a.end as nat, b.end as nat);
}

/// The timing reported for a batch that waited.
pub open spec fn batch_timing(timing: ScanTiming, waited: Duration) -> BatchTiming {
    BatchTiming {
        total_secs: Duration { nanos: (waited.nanos + timing.total.nanos) as u64 },
        wait_secs: waited,
        fetch_secs: timing.fetch,
        decryption_secs: timing.decryption,
        tree_secs: timing.tree,
        commit_secs: timing.commit.total,
        commit: CommitBreakdown {
            checkpoints: timing.commit.checkpoints,
            frontiers: timing.commit.frontiers,
            insert_tree: timing.commit.insert_tree,
            spend_fetch: timing.commit.spend_fetch,
            spend_cpu: timing.commit.spend_cpu,
            cleanup: timing.commit.cleanup,
            other: timing.commit.other,
        },
    }
}

/// The timing reported for a batch that waited.
pub fn to_batch_timing(timing: &ScanTiming, waited: Duration) -> (r: BatchTiming)
    requires
        waited.nanos + timing.total.nanos <= u64::MAX,
    ensures
        r == batch_timing(*timing, waited),
{
    let commit = &timing.commit;
    BatchTiming {
        total_secs: Duration { nanos: waited.nanos + timing.total.nanos },
        wait_secs: waited,
        fetch_secs: timing.fetch,
        decryption_secs: timing.decryption,
        tree_secs: timing.tree,
        commit_secs: commit.total,
        commit: CommitBreakdown {
            checkpoints: commit.checkpoints,
            frontiers: commit.frontiers,
            insert_tree: commit.insert_tree,
            spend_fetch: commit.spend_fetch,
            spend_cpu: commit.spend_cpu,
            cleanup: commit.cleanup,
            other: commit.other,
        },
    }
}

// ---------------------------------------------------------------------------
// The fold
// ---------------------------------------------------------------------------

proof fn without_step(batches: Seq<Batch>, range: HeightRange, n: int)
    requires
        0 <= n < batches.len(),
    ensures
        without(batches.take(n + 1), range) == if batches[n].range == range {
            without(batches.take(n), range)
        } else {
            without(batches.take(n), range).push(batches[n])
        },
{
    assert(batches.take(n + 1).drop_last() =~= batches.take(n));
}

proof fn batch_at_prefix(batches: Seq<Batch>, range: HeightRange, n: int)
    requires
        0 <= n <= batches.len(),
        batch_at(batches.take(n), range) is Some,
    ensures
        batch_at(batches, range) == batch_at(batches.take(n), range),
    decreases batches.len(),
{
    if n == batches.len() {
        assert(batches.take(n) =~= batches);
    } else {
        assert(batches.drop_last().take(n) =~= batches.take(n));
        batch_at_prefix(batches.drop_last(), range, n);
    }
}

/// The first batch on a range stands in the list and is on the range; where none is
/// found there is none.
pub proof fn batch_at_finds(batches: Seq<Batch>, range: HeightRange)
    ensures
        match batch_at(batches, range) {
            Some(i) => 0 <= i < batches.len() && batches[i].range == range && forall|j: int|
                0 <= j < i ==> (#[trigger] batches[j]).range != range,
            None => forall|j: int|
                0 <= j < batches.len() ==> (#[trigger] batches[j]).range != range,
        },
    decreases batches.len(),
{
    if batches.len() > 0 {
        let before = batches.drop_last();
        batch_at_finds(before, range);
        match batch_at(before, range) {
            Some(i) => {
                assert forall|j: int| 0 <= j < i implies (#[trigger] batches[j]).range
                    != range by {
                    assert(before[j] == batches[j]);
                }
            },
            None => {
                assert forall|j: int| 0 <= j < batches.len() - 1 implies (
                #[trigger] batches[j]).range != range by {
                    assert(before[j] == batches[j]);
                }
            },
        }
    }
}

fn sum_fits(a: u32, b: u32, c: u32) -> (r: bool)
    ensures
        r == (a + b + c <= u32::MAX),
{
    a as u64 + b as u64 + c as u64 <= u32::MAX as u64
}

impl RoundView {
    /// A round that has seen no event.
    pub fn new() -> (r: Self)
        ensures
            r@ == Round::fresh(),
            r@.wf(),
    {
        RoundView {
            scanned_outputs: 0,
            total_outputs: 0,
            synced_height: 0,
            chain_tip: 0,
            in_flight: Vec::new(),
            timing_log: VecDeque::new(),
            aggregate_log: VecDeque::new(),
        }
    }

    /// The overall phase label, taken from the furthest-along active batch so the
    /// headline reflects commit pressure when scanning has run ahead.
    pub fn phase(&self) -> (r: Option<SyncPhase>)
        ensures
            r == self@.phase(),
    {
        if self.in_flight.len() == 0 {
            return None;
        }
        let mut i: usize = 0;
        while i < self.in_flight.len()
            invariant
                i <= self.in_flight@.len(),
                forall|j: int|
                    0 <= j < i ==> (#[trigger] self.in_flight@[j]).phase != BatchPhase::Committing,
            decreases self.in_flight@.len() - i,
        {
            if self.in_flight[i].phase == BatchPhase::Committing {
                assert(self@.in_flight[i as int].phase == BatchPhase::Committing);
                return Some(SyncPhase::Committing);
            }
            i = i + 1;
        }
        Some(SyncPhase::Scanning)
    }

    /// The outputs still to scan, while there are any: what the time to completion is
    /// estimated from.
    pub fn remaining_outputs(&self) -> (r: Option<u64>)
        ensures
            match r {
                Some(n) => n > 0 && self.scanned_outputs + n == self.total_outputs,
                None => self.scanned_outputs >= self.total_outputs,
            },
    {
        if self.scanned_outputs >= self.total_outputs {
            None
        } else {
            Some(self.total_outputs - self.scanned_outputs)
        }
    }

    /// The outputs gained over the window and the time it spans, where any were gained:
    /// what the overall rate is measured by, however the work parallelises.
    pub fn aggregate_gain(&self) -> (r: Option<(u64, Duration)>)
        ensures
            match r {
                Some((gained, span)) => {
                    let (first, last) = (self.aggregate_log@.first(), self.aggregate_log@.last());
                    &&& self.aggregate_log@.len() > 0
                    &&& first.1 < last.1
                    &&& gained == last.1 - first.1
                    &&& span == last.0.since(first.0)
                },
                None => self.aggregate_log@.len() == 0 || self.aggregate_log@.first().1
                    >= self.aggregate_log@.last().1,
            },
    {
        if self.aggregate_log.len() == 0 {
            return None;
        }
        let first: (Instant, u64) = self.aggregate_log[0];
        let last: (Instant, u64) = self.aggregate_log[self.aggregate_log.len() - 1];
        if last.1 > first.1 {
            Some((last.1 - first.1, last.0.duration_since(first.0)))
        } else {
            None
        }
    }

    /// The status of the round. The percentage and the estimate are the caller's.
    pub fn status(&self, state: SyncState, percent: u8, eta_seconds: Option<u64>) -> (r: SyncStatus)
        ensures
            r == (SyncStatus {
                state,
                synced_height: self.synced_height,
                chain_tip: later(self.chain_tip, self.synced_height),
                percent,
                phase: self@.phase(),
                scanned_outputs: Some(self.scanned_outputs),
                total_outputs: Some(self.total_outputs),
                eta_seconds,
                error: None,
                unreachable: false,
                wrong_chain: false,
                last_synced_at: None,
            }),
            r.synced_height <= r.chain_tip,
    {
        SyncStatus {
            state,
            synced_height: self.synced_height,
            chain_tip: if self.chain_tip >= self.synced_height {
                self.chain_tip
            } else {
                self.synced_height
            },
            percent,
            phase: self.phase(),
            scanned_outputs: Some(self.scanned_outputs),
            total_outputs: Some(self.total_outputs),
            eta_seconds,
            error: None,
            unreachable: false,
            wrong_chain: false,
            last_synced_at: None,
        }
    }

    /// The active batches as the GUI shows them. How long each batch's phase is
    /// expected to take is the caller's.
    pub fn batch_snapshot(&self, expected_secs: &Vec<Option<Real>>) -> (r: Vec<BatchProgress>)
        requires
            expected_secs@.len() == self.in_flight@.len(),
        ensures
            r@.len() == self.in_flight@.len(),
            forall|i: int|
                0 <= i < r@.len() ==> shows_batch(
                    #[trigger] r@[i],
                    self.in_flight@[i],
                    expected_secs@[i],
                ),
    {
        let mut out: Vec<BatchProgress> = Vec::new();
        let mut i: usize = 0;
        while i < self.in_flight.len()
            invariant
                i <= self.in_flight@.len(),
                expected_secs@.len() == self.in_flight@.len(),
                out@.len() == i,
                forall|k: int|
                    0 <= k < i ==> shows_batch(
                        #[trigger] out@[k],
                        self.in_flight@[k],
                        expected_secs@[k],
                    ),
            decreases self.in_flight@.len() - i,
        {
            let b = &self.in_flight[i];
            out.push(
                BatchProgress {
                    id: range_id(&b.range),
                    start: b.range.start,
                    end: b.range.end,
                    priority: b.priority.clone(),
                    outputs: b.outputs,
                    phase: b.phase,
                    phase_started_at_ms: b.phase_started_ms,
                    expected_secs: expected_secs[i],
                },
            );
            i = i + 1;
        }
        out
    }

    /// Where the batch on a range stands among the active ones.
    pub fn live_batch(&self, range: &HeightRange) -> (r: Option<usize>)
        ensures
            match r {
                Some(i) => batch_at(self.in_flight@, *range) == Some(i as int) && i
                    < self.in_flight@.len(),
                None => batch_at(self.in_flight@, *range) is None,
            },
    {
        let mut i: usize = 0;
        assert(self.in_flight@.take(0) =~= seq![]);
        while i < self.in_flight.len()
            invariant
                i <= self.in_flight@.len(),
                batch_at(self.in_flight@.take(i as int), *range) is None,
            decreases self.in_flight@.len() - i,
        {
            assert(self.in_flight@.take(i + 1).drop_last() =~= self.in_flight@.take(i as int));
            if self.in_flight[i].range == *range {
                proof {
                    batch_at_prefix(self.in_flight@, *range, i + 1);
                }
                return Some(i);
            }
            i = i + 1;
        }
        assert(self.in_flight@.take(self.in_flight@.len() as int) =~= self.in_flight@);
        None
    }

    /// How long the batch on a range has waited behind the commit stage.
    pub fn waited_behind(&self, range: &HeightRange, now: Instant) -> (r: Duration)
        ensures
            r == waited_for(self.in_flight@, *range, now),
    {
        match self.live_batch(range) {
            Some(i) => match self.in_flight[i].phase {
                BatchPhase::Committing => self.in_flight[i].waited,
                BatchPhase::Waiting => now.duration_since(self.in_flight[i].phase_since),
                BatchPhase::Scanning => Duration { nanos: 0 },
            },
            None => Duration { nanos: 0 },
        }
    }

    /// Whether the counts an event brings, and what they add up to, fit.
    pub fn can_take(&self, event: &ScanEvent, now: Instant) -> (r: bool)
        ensures
            r == self@.takes(*event, now),
    {
        match event {
            ScanEvent::SessionStarted {
                total_sapling_outputs,
                total_orchard_outputs,
                total_ironwood_outputs,
                already_scanned_sapling_outputs,
                already_scanned_orchard_outputs,
                already_scanned_ironwood_outputs,
                ..
            } => sum_fits(
                *total_sapling_outputs,
                *total_orchard_outputs,
                *total_ironwood_outputs,
            ) && sum_fits(
                *already_scanned_sapling_outputs,
                *already_scanned_orchard_outputs,
                *already_scanned_ironwood_outputs,
            ),
            ScanEvent::BatchScanStarted {
                sapling_outputs,
                orchard_outputs,
                ironwood_outputs,
                ..
            } => sum_fits(*sapling_outputs, *orchard_outputs, *ironwood_outputs),
            ScanEvent::RangeScanned {
                range,
                sapling_outputs,
                orchard_outputs,
                ironwood_outputs,
                timing,
                ..
            } => {
                let outputs: u64 = *sapling_outputs as u64 + *orchard_outputs as u64
                    + *ironwood_outputs as u64;
                let waited = self.waited_behind(range, now);
                outputs <= u32::MAX as u64 && self.scanned_outputs <= u64::MAX - outputs
                    && waited.nanos <= u64::MAX - timing.total.nanos
            },
            _ => true,
        }
    }

    fn drop_batches(&mut self, range: &HeightRange)
        ensures
            final(self)@ == (Round {
                in_flight: without(old(self)@.in_flight, *range),
                ..old(self)@
            }),
    {
        let ghost whole = self.in_flight@;
        let ghost mut seen: int = 0;
        let mut i: usize = 0;
        assert(whole.take(0) =~= seq![]);
        assert(whole =~= whole.skip(0));
        while i < self.in_flight.len()
            invariant
                0 <= seen <= whole.len(),
                whole == old(self)@.in_flight,
                self@ == (Round { in_flight: self.in_flight@, ..old(self)@ }),
                i == without(whole.take(seen), *range).len(),
                self.in_flight@ == without(whole.take(seen), *range) + whole.skip(seen),
            decreases whole.len() - seen,
        {
            assert(self.in_flight@.len() == i + (whole.len() - seen));
            assert(self.in_flight@[i as int] == whole[seen]);
            proof {
                without_step(whole, *range, seen);
            }
            let ghost kept = without(whole.take(seen), *range);
            if self.in_flight[i].range == *range {
                self.in_flight.remove(i);
                assert(self.in_flight@ =~= kept + whole.skip(seen + 1));
            } else {
                i = i + 1;
                assert(self.in_flight@ =~= kept.push(whole[seen]) + whole.skip(seen + 1));
            }
            proof {
                seen = seen + 1;
            }
        }
        assert(seen == whole.len());
        assert(whole.take(seen) =~= whole);
        assert(self.in_flight@ =~= without(whole, *range));
    }

    fn enter_phase(
        &mut self,
        range: &HeightRange,
        phase: BatchPhase,
        waits_over: bool,
        now: Instant,
        now_ms: u64,
    )
        ensures
            final(self)@ == (Round {
                in_flight: entered(
                    old(self)@.in_flight,
                    *range,
                    phase,
                    |b: Batch|
                        if waits_over {
                            now.since(b.phase_since)
                        } else {
                            b.waited
                        },
                    now,
                    now_ms,
                ),
                ..old(self)@
            }),
    {
        if let Some(i) = self.live_batch(range) {
            if waits_over {
                self.in_flight[i].waited = now.duration_since(self.in_flight[i].phase_since);
            }
            self.in_flight[i].phase = phase;
            self.in_flight[i].phase_since = now;
            self.in_flight[i].phase_started_ms = now_ms;
        }
    }

    fn log_commit(&mut self, outputs: u64, timing: ScanTiming, now: Instant)
        ensures
            final(self)@ == (Round {
                timing_log: logged(old(self)@.timing_log, (outputs, timing)),
                aggregate_log: logged(
                    old(self)@.aggregate_log,
                    (now, old(self)@.scanned_outputs),
                ),
                ..old(self)@
            }),
    {
        self.timing_log.push_back((outputs, timing));
        if self.timing_log.len() > TIMING_WINDOW {
            self.timing_log.pop_front();
        }
        self.aggregate_log.push_back((now, self.scanned_outputs));
        if self.aggregate_log.len() > TIMING_WINDOW {
            self.aggregate_log.pop_front();
        }
    }

    /// Fold one event into the round. Batch lifecycle events move the active list along.
    /// A committed range is also to be reported as done, and a discovered transaction
    /// looked up and forwarded.
    pub fn on_event(&mut self, event: ScanEvent, now: Instant, now_ms: u64) -> (r: Effect)
        requires
            old(self)@.takes(event, now),
        ensures
            final(self)@ == old(self)@.folded(event, now, now_ms),
            old(self)@.asks(event, now, r),
    {
        match event {
            ScanEvent::SessionStarted {
                sync_start_height,
                tip,
                total_sapling_outputs,
                total_orchard_outputs,
                total_ironwood_outputs,
                already_scanned_sapling_outputs,
                already_scanned_orchard_outputs,
                already_scanned_ironwood_outputs,
            } => {
                self.total_outputs =
                (total_sapling_outputs + total_orchard_outputs + total_ironwood_outputs) as u64;
                self.scanned_outputs =
                (already_scanned_sapling_outputs + already_scanned_orchard_outputs
                    + already_scanned_ironwood_outputs) as u64;
                self.synced_height = sync_start_height;
                self.chain_tip = tip;
                self.in_flight.clear();
                self.timing_log.clear();
                self.aggregate_log.clear();
                self.aggregate_log.push_back((now, self.scanned_outputs));
                Effect::SeedLive { start: sync_start_height }
            },
            ScanEvent::BatchScanStarted {
                range,
                priority,
                sapling_outputs,
                orchard_outputs,
                ironwood_outputs,
            } => {
                self.drop_batches(&range);
                self.in_flight.push(
                    Batch {
                        range,
                        priority,
                        outputs: (sapling_outputs + orchard_outputs + ironwood_outputs) as u64,
                        phase: BatchPhase::Scanning,
                        phase_since: now,
                        phase_started_ms: now_ms,
                        waited: Duration { nanos: 0 },
                    },
                );
                Effect::Nothing
            },
            ScanEvent::BatchScanCompleted { range } => {
                self.enter_phase(&range, BatchPhase::Waiting, false, now, now_ms);
                Effect::Nothing
            },
            ScanEvent::BatchCommitStarted { range } => {
                self.enter_phase(&range, BatchPhase::Committing, true, now, now_ms);
                Effect::Nothing
            },
            ScanEvent::RangeScanned {
                range,
                priority,
                sapling_outputs,
                orchard_outputs,
                ironwood_outputs,
                timing,
            } => {
                let outputs: u64 = (sapling_outputs + orchard_outputs + ironwood_outputs) as u64;
                self.scanned_outputs = self.scanned_outputs + outputs;
                if self.synced_height < range.end {
                    self.synced_height = range.end;
                }
                self.log_commit(outputs, timing, now);
                let waited = self.waited_behind(&range, now);
                self.drop_batches(&range);
                Effect::BatchDone {
                    batch: BatchSummary {
                        id: range_id(&range),
                        start: range.start,
                        end: range.end,
                        priority,
                        outputs,
                        timing: to_batch_timing(&timing, waited),
                    },
                }
            },
            ScanEvent::TxDiscovered { txid } => Effect::TxDiscovered { txid },
            ScanEvent::Reorg { reverted_to } => {
                // A reverted batch never commits, so drop any unpaired starts.
                self.in_flight.clear();
                if self.synced_height > reverted_to {
                    self.synced_height = reverted_to;
                }
                Effect::Nothing
            },
            ScanEvent::TipMoved { to } => {
                if self.chain_tip < to {
                    self.chain_tip = to;
                }
                Effect::Nothing
            },
        }
    }

    /// On a lagged stream, take the scanned count from wallet state and reset the
    /// throughput windows, since the skipped batches left no samples.
    pub fn reconcile(&mut self, sapling: u32, orchard: u32, ironwood: u32, now: Instant)
        requires
            sapling + orchard + ironwood <= u32::MAX,
        ensures
            final(self)@ == (Round {
                scanned_outputs: (sapling + orchard + ironwood) as u64,
                timing_log: seq![],
                aggregate_log: seq![(now, (sapling + orchard + ironwood) as u64)],
                ..old(self)@
            }),
            old(self)@.wf() ==> final(self)@.wf(),
    {
        self.scanned_outputs = (sapling + orchard + ironwood) as u64;
        self.timing_log.clear();
        self.aggregate_log.clear();
        self.aggregate_log.push_back((now, self.scanned_outputs));
    }
}

/// Whether a row shows a batch.
pub open spec fn shows_batch(r: BatchProgress, b: Batch, expected_secs: Option<Real>) -> bool {
    &&& r.id@ == range_text(b.range)
    &&& r.start == b.range.start
    &&& r.end == b.range.end
    &&& r.priority == b.priority
    &&& r.outputs == b.outputs
    &&& r.phase == b.phase
    &&& r.phase_started_at_ms == b.phase_started_ms
    &&& r.expected_secs == expected_secs
}

// ---------------------------------------------------------------------------
// Laws of the fold
// ---------------------------------------------------------------------------

/// Whether a batch is among the active ones.
pub open spec fn is_active(round: Round, range: HeightRange) -> bool {
    exists|i: int| 0 <= i < round.in_flight.len() && (#[trigger] round.in_flight[i]).range == range
}

proof fn without_facts(batches: Seq<Batch>, range: HeightRange)
    ensures
        forall|k: int|
            0 <= k < without(batches, range).len() ==> (#[trigger] without(batches, range)[k]).range
                != range,
        forall|k: int|
            0 <= k < without(batches, range).len() ==> batches.contains(
                #[trigger] without(batches, range)[k],
            ),
        (forall|i: int, j: int|
            0 <= i < j < batches.len() ==> (#[trigger] batches[i]).range != (
            #[trigger] batches[j]).range) ==> (forall|i: int, j: int|
            0 <= i < j < without(batches, range).len() ==> (#[trigger] without(
                batches,
                range,
            )[i]).range != (#[trigger] without(batches, range)[j]).range),
    decreases batches.len(),
{
    if batches.len() > 0 {
        let before = batches.drop_last();
        without_facts(before, range);
        let kept = without(before, range);
        assert forall|k: int| 0 <= k < kept.len() implies batches.contains(#[trigger] kept[k]) by {
            assert(before.contains(kept[k]));
            let i = choose|i: int| 0 <= i < before.len() && before[i] == kept[k];
            assert(batches[i] == kept[k]);
        }
        assert(batches.contains(batches.last()));
        if forall|i: int, j: int|
            0 <= i < j < batches.len() ==> (#[trigger] batches[i]).range != (
            #[trigger] batches[j]).range {
            assert forall|i: int, j: int| 0 <= i < j < before.len() implies (
            #[trigger] before[i]).range != (#[trigger] before[j]).range by {
                assert(before[i] == batches[i] && before[j] == batches[j]);
            }
            assert forall|k: int| 0 <= k < kept.len() implies (#[trigger] kept[k]).range
                != batches.last().range by {
                assert(before.contains(kept[k]));
                let i = choose|i: int| 0 <= i < before.len() && before[i] == kept[k];
                assert(batches[i].range != batches[batches.len() - 1].range);
            }
        }
    }
}

/// Every event keeps the round well formed: no range is in flight twice, and the windows
/// never outgrow their size.
pub proof fn events_keep_the_round_well_formed(
    round: Round,
    event: ScanEvent,
    now: Instant,
    now_ms: u64,
)
    requires
        round.wf(),
    ensures
        round.folded(event, now, now_ms).wf(),
{
    let after = round.folded(event, now, now_ms);
    match event {
        ScanEvent::BatchScanStarted { range, .. } => {
            without_facts(round.in_flight, range);
        },
        ScanEvent::RangeScanned { range, .. } => {
            without_facts(round.in_flight, range);
        },
        ScanEvent::BatchScanCompleted { range } => {
            batch_at_finds(round.in_flight, range);
        },
        ScanEvent::BatchCommitStarted { range } => {
            batch_at_finds(round.in_flight, range);
        },
        _ => {},
    }
}

/// A batch is active from its start to its commit: a started range is in flight, a
/// scanned one no longer is, and a reorg leaves none.
pub proof fn batches_start_and_end(
    round: Round,
    event: ScanEvent,
    now: Instant,
    now_ms: u64,
    range: HeightRange,
)
    ensures
        ({
            let after = round.folded(event, now, now_ms);
            match event {
                ScanEvent::BatchScanStarted { range: started, .. } => started == range
                    ==> is_active(after, range),
                ScanEvent::RangeScanned { range: scanned, .. } => scanned == range ==> !is_active(
                    after,
                    range,
                ),
                ScanEvent::SessionStarted { .. } | ScanEvent::Reorg { .. } => !is_active(
                    after,
                    range,
                ),
                _ => is_active(after, range) == is_active(round, range),
            }
        }),
{
    let after = round.folded(event, now, now_ms);
    match event {
        ScanEvent::BatchScanStarted { range: started, .. } => {
            if started == range {
                assert(after.in_flight.last().range == range);
            }
        },
        ScanEvent::RangeScanned { range: scanned, .. } => {
            without_facts(round.in_flight, scanned);
        },
        ScanEvent::BatchScanCompleted { range: moved } => {
            batch_at_finds(round.in_flight, moved);
            same_ranges(round, after, range);
        },
        ScanEvent::BatchCommitStarted { range: moved } => {
            batch_at_finds(round.in_flight, moved);
            same_ranges(round, after, range);
        },
        _ => {},
    }
}

proof fn same_ranges(a: Round, b: Round, range: HeightRange)
    requires
        a.in_flight.len() == b.in_flight.len(),
        forall|i: int|
            0 <= i < a.in_flight.len() ==> (#[trigger] a.in_flight[i]).range
                == b.in_flight[i].range,
    ensures
        is_active(a, range) == is_active(b, range),
{
    if is_active(a, range) {
        let i = choose|i: int|
            0 <= i < a.in_flight.len() && (#[trigger] a.in_flight[i]).range == range;
        assert(b.in_flight[i].range == range);
    }
    if is_active(b, range) {
        let i = choose|i: int|
            0 <= i < b.in_flight.len() && (#[trigger] b.in_flight[i]).range == range;
        assert(a.in_flight[i].range == range);
    }
}

/// Within a session the synced height falls only when the chain is reorganised, and
/// then no further than it was reverted to; the tip never falls.
pub proof fn progress_falls_only_on_a_reorg(
    round: Round,
    event: ScanEvent,
    now: Instant,
    now_ms: u64,
)
    requires
        !(event is SessionStarted),
    ensures
        ({
            let after = round.folded(event, now, now_ms);
            &&& after.chain_tip >= round.chain_tip
            &&& !(event is Reorg) ==> after.synced_height >= round.synced_height
            &&& event matches ScanEvent::Reorg { reverted_to } ==> after.synced_height
                == round.synced_height || after.synced_height == reverted_to
        }),
{
}

/// The scanned count is what was scanned when the session started plus the outputs of
/// every range scanned since.
pub proof fn only_scanned_ranges_count(round: Round, event: ScanEvent, now: Instant, now_ms: u64)
    requires
        round.takes(event, now),
        !(event is SessionStarted),
    ensures
        round.folded(event, now, now_ms).scanned_outputs == round.scanned_outputs + (match event {
            ScanEvent::RangeScanned {
                sapling_outputs,
                orchard_outputs,
                ironwood_outputs,
                ..
            } => sapling_outputs + orchard_outputs + ironwood_outputs,
            _ => 0,
        }),
{
}

/// Within a session the progress denominator never changes: it is set when the session
/// starts, to the outputs of the three pools that the start reports, and no other event
/// moves it.
pub proof fn the_total_is_fixed_within_a_session(
    round: Round,
    event: ScanEvent,
    now: Instant,
    now_ms: u64,
)
    ensures
        ({
            let after = round.folded(event, now, now_ms);
            match event {
                ScanEvent::SessionStarted {
                    total_sapling_outputs,
                    total_orchard_outputs,
                    total_ironwood_outputs,
                    ..
                } => after.total_outputs == total_sapling_outputs + total_orchard_outputs
                    + total_ironwood_outputs,
                _ => after.total_outputs == round.total_outputs,
            }
        }),
{
}

/// A session starts where its event says: at the height and the tip it reports, with the
/// outputs of the three pools that were scanned before, no batch in flight, and nothing
/// measured yet.
pub proof fn a_session_starts_afresh(round: Round, event: ScanEvent, now: Instant, now_ms: u64)
    ensures
        event matches ScanEvent::SessionStarted {
            sync_start_height,
            tip,
            already_scanned_sapling_outputs,
            already_scanned_orchard_outputs,
            already_scanned_ironwood_outputs,
            ..
        } ==> {
            let after = round.folded(event, now, now_ms);
            &&& after.synced_height == sync_start_height
            &&& after.chain_tip == tip
            &&& after.scanned_outputs == already_scanned_sapling_outputs
                + already_scanned_orchard_outputs + already_scanned_ironwood_outputs
            &&& after.in_flight.len() == 0
            &&& after.timing_log.len() == 0
            &&& after.aggregate_log == seq![(now, after.scanned_outputs)]
        },
{
}

/// Each event moves the heights as it says and no further: a scanned range lifts the synced
/// height to its end where that is higher, a reorg lowers it to where the chain was
/// reverted to where that is lower, and a moved tip lifts the tip. Nothing else moves
/// either.
pub proof fn heights_move_as_told(round: Round, event: ScanEvent, now: Instant, now_ms: u64)
    requires
        !(event is SessionStarted),
    ensures
        ({
            let after = round.folded(event, now, now_ms);
            &&& match event {
                ScanEvent::RangeScanned { range, .. } => {
                    &&& after.synced_height >= round.synced_height
                    &&& after.synced_height >= range.end
                    &&& after.synced_height == round.synced_height || after.synced_height
                        == range.end
                },
                ScanEvent::Reorg { reverted_to } => {
                    &&& after.synced_height <= round.synced_height
                    &&& after.synced_height <= reverted_to
                    &&& after.synced_height == round.synced_height || after.synced_height
                        == reverted_to
                },
                _ => after.synced_height == round.synced_height,
            }
            &&& match event {
                ScanEvent::TipMoved { to } => {
                    &&& after.chain_tip >= round.chain_tip
                    &&& after.chain_tip >= to
                    &&& after.chain_tip == round.chain_tip || after.chain_tip == to
                },
                _ => after.chain_tip == round.chain_tip,
            }
        }),
{
}

/// A scanned range is measured: what it held and cost goes behind the timings, and the new
/// count with its time behind the counts, of each of which the last dozen is kept. No other
/// event within a session touches the measurements.
pub proof fn only_scanned_ranges_are_measured(
    round: Round,
    event: ScanEvent,
    now: Instant,
    now_ms: u64,
)
    requires
        round.wf(),
        !(event is SessionStarted),
    ensures
        TIMING_WINDOW == 12,
        ({
            let after = round.folded(event, now, now_ms);
            match event {
                ScanEvent::RangeScanned {
                    sapling_outputs,
                    orchard_outputs,
                    ironwood_outputs,
                    timing,
                    ..
                } => {
                    let (old_t, new_t) = (round.timing_log, after.timing_log);
                    let (old_a, new_a) = (round.aggregate_log, after.aggregate_log);
                    &&& new_t.len() == if old_t.len() < 12 {
                        old_t.len() + 1
                    } else {
                        12
                    }
                    &&& new_t.last() == (
                        (sapling_outputs + orchard_outputs + ironwood_outputs) as u64,
                        timing,
                    )
                    &&& forall|i: int|
                        0 <= i < new_t.len() - 1 ==> #[trigger] new_t[i] == old_t[i + old_t.len()
                            + 1 - new_t.len()]
                    &&& new_a.len() == if old_a.len() < 12 {
                        old_a.len() + 1
                    } else {
                        12
                    }
                    &&& new_a.last() == (now, after.scanned_outputs)
                    &&& forall|i: int|
                        0 <= i < new_a.len() - 1 ==> #[trigger] new_a[i] == old_a[i + old_a.len()
                            + 1 - new_a.len()]
                },
                _ => after.timing_log == round.timing_log && after.aggregate_log
                    == round.aggregate_log,
            }
        }),
{
}

proof fn without_keeps(batches: Seq<Batch>, range: HeightRange, b: Batch)
    requires
        batches.contains(b),
        b.range != range,
    ensures
        without(batches, range).contains(b),
    decreases batches.len(),
{
    let before = batches.drop_last();
    let kept = without(before, range);
    let i = choose|i: int| 0 <= i < batches.len() && batches[i] == b;
    if i < batches.len() - 1 {
        assert(before[i] == b);
        without_keeps(before, range, b);
        let k = choose|k: int| 0 <= k < kept.len() && kept[k] == b;
        assert(without(batches, range)[k] == b);
    } else {
        assert(without(batches, range)[kept.len() as int] == b);
    }
}

/// A batch is in flight from its start until its range is scanned, whatever happens to the
/// others: a start puts it in, new and scanning, with the outputs of the three pools that
/// the event reports, in place of any other on its range; a scanned range takes out its own
/// and no other; a transaction or a moved tip takes out none.
pub proof fn only_the_range_told_comes_and_goes(
    round: Round,
    event: ScanEvent,
    now: Instant,
    now_ms: u64,
    b: Batch,
)
    ensures
        ({
            let after = round.folded(event, now, now_ms);
            let (was, stays) = (round.in_flight.contains(b), after.in_flight.contains(b));
            match event {
                ScanEvent::BatchScanStarted {
                    range,
                    priority,
                    sapling_outputs,
                    orchard_outputs,
                    ironwood_outputs,
                } => stays <==> (was && b.range != range) || {
                    &&& b.range == range
                    &&& b.priority == priority
                    &&& b.outputs == sapling_outputs + orchard_outputs + ironwood_outputs
                    &&& b.phase == BatchPhase::Scanning
                    &&& b.phase_since == now
                    &&& b.phase_started_ms == now_ms
                    &&& b.waited.nanos == 0
                },
                ScanEvent::RangeScanned { range, .. } => stays <==> was && b.range != range,
                ScanEvent::SessionStarted { .. } | ScanEvent::Reorg { .. } => !stays,
                ScanEvent::TxDiscovered { .. } | ScanEvent::TipMoved { .. } => stays <==> was,
                _ => true,
            }
        }),
{
    let after = round.folded(event, now, now_ms);
    match event {
        ScanEvent::BatchScanStarted { range, .. } => {
            let kept = without(round.in_flight, range);
            without_facts(round.in_flight, range);
            let new = after.in_flight.last();
            assert(after.in_flight =~= kept.push(new));
            if round.in_flight.contains(b) && b.range != range {
                without_keeps(round.in_flight, range, b);
                let k = choose|k: int| 0 <= k < kept.len() && kept[k] == b;
                assert(after.in_flight[k] == b);
            }
            assert(after.in_flight[kept.len() as int] == new);
            if after.in_flight.contains(b) {
                let k = choose|k: int| 0 <= k < after.in_flight.len() && after.in_flight[k] == b;
                if k < kept.len() {
                    assert(kept[k] == b);
                }
            }
        },
        ScanEvent::RangeScanned { range, .. } => {
            let kept = without(round.in_flight, range);
            without_facts(round.in_flight, range);
            if round.in_flight.contains(b) && b.range != range {
                without_keeps(round.in_flight, range, b);
            }
            if kept.contains(b) {
                let k = choose|k: int| 0 <= k < kept.len() && kept[k] == b;
                assert(kept[k].range != range);
            }
        },
        _ => {},
    }
}

/// A batch walks through its phases by the events of its own range: the end of its scan
/// sets it waiting, the start of its commit sets it committing and settles how long it
/// waited. The other batches stay as they are, and what is in flight stays in flight.
pub proof fn a_batch_enters_its_next_phase(
    round: Round,
    event: ScanEvent,
    now: Instant,
    now_ms: u64,
    range: HeightRange,
    i: int,
)
    requires
        round.wf(),
        event == (ScanEvent::BatchScanCompleted { range }) || event
            == (ScanEvent::BatchCommitStarted { range }),
        0 <= i < round.in_flight.len(),
    ensures
        ({
            let after = round.folded(event, now, now_ms);
            let (a, b) = (round.in_flight[i], after.in_flight[i]);
            &&& after.in_flight.len() == round.in_flight.len()
            &&& a.range != range ==> b == a
            &&& a.range == range ==> {
                &&& b.range == range
                &&& b.priority == a.priority
                &&& b.outputs == a.outputs
                &&& b.phase_since == now
                &&& b.phase_started_ms == now_ms
                &&& event is BatchScanCompleted ==> b.phase == BatchPhase::Waiting && b.waited
                    == a.waited
                &&& event is BatchCommitStarted ==> b.phase == BatchPhase::Committing
                &&& event is BatchCommitStarted && now.nanos >= a.phase_since.nanos
                    ==> a.phase_since.nanos + b.waited.nanos == now.nanos
                &&& event is BatchCommitStarted && now.nanos < a.phase_since.nanos
                    ==> b.waited.nanos == 0
            }
        }),
{
    batch_at_finds(round.in_flight, range);
    if round.in_flight[i].range == range {
        let j = batch_at(round.in_flight, range)->0;
        if j < i {
            assert(round.in_flight[j].range != round.in_flight[i].range);
        } else if i < j {
            assert(round.in_flight[i].range != round.in_flight[j].range);
        }
    }
}

/// An event asks for what it is about and for nothing else: the start of a session for the
/// live edge at its own height, a transaction for its own lookup.
pub proof fn an_event_asks_for_its_own(
    round: Round,
    event: ScanEvent,
    now: Instant,
    effect: Effect,
)
    requires
        round.asks(event, now, effect),
    ensures
        match event {
            ScanEvent::SessionStarted { sync_start_height, .. } => effect is SeedLive
                && effect->start == sync_start_height,
            ScanEvent::RangeScanned { .. } => effect is BatchDone,
            ScanEvent::TxDiscovered { txid } => effect is TxDiscovered && effect->txid == txid,
            _ => effect is Nothing,
        },
{
}

/// A scanned range is reported with its own bounds, priority and outputs, and with what it
/// cost: each phase as it was measured, how long it waited behind the commit stage, and in
/// all the wait and the work together.
pub proof fn a_done_batch_is_reported_whole(
    round: Round,
    event: ScanEvent,
    now: Instant,
    effect: Effect,
)
    requires
        round.wf(),
        round.takes(event, now),
        round.asks(event, now, effect),
    ensures
        event matches ScanEvent::RangeScanned {
            range,
            priority,
            sapling_outputs,
            orchard_outputs,
            ironwood_outputs,
            timing,
        } ==> {
            let batch = effect->batch;
            let shown = batch.timing;
            &&& batch.start == range.start
            &&& batch.end == range.end
            &&& batch.id@ == text::decimal(range.start as nat) + "-"@ + text::decimal(
                range.end as nat,
            )
            &&& batch.priority == priority
            &&& batch.outputs == sapling_outputs + orchard_outputs + ironwood_outputs
            &&& shown.fetch_secs == timing.fetch
            &&& shown.decryption_secs == timing.decryption
            &&& shown.tree_secs == timing.tree
            &&& shown.commit_secs == timing.commit.total
            &&& shown.commit.checkpoints == timing.commit.checkpoints
            &&& shown.commit.frontiers == timing.commit.frontiers
            &&& shown.commit.insert_tree == timing.commit.insert_tree
            &&& shown.commit.spend_fetch == timing.commit.spend_fetch
            &&& shown.commit.spend_cpu == timing.commit.spend_cpu
            &&& shown.commit.cleanup == timing.commit.cleanup
            &&& shown.commit.other == timing.commit.other
            &&& shown.total_secs.nanos == shown.wait_secs.nanos + timing.total.nanos
            &&& !is_active(round, range) ==> shown.wait_secs.nanos == 0
            &&& forall|i: int|
                0 <= i < round.in_flight.len() && (#[trigger] round.in_flight[i]).range == range
                    ==> match round.in_flight[i].phase {
                    BatchPhase::Scanning => shown.wait_secs.nanos == 0,
                    BatchPhase::Waiting => if now.nanos >= round.in_flight[i].phase_since.nanos {
                        shown.wait_secs.nanos == now.nanos - round.in_flight[i].phase_since.nanos
                    } else {
                        shown.wait_secs.nanos == 0
                    },
                    BatchPhase::Committing => shown.wait_secs == round.in_flight[i].waited,
                }
        },
{
    if let ScanEvent::RangeScanned { range, .. } = event {
        batch_at_finds(round.in_flight, range);
        match batch_at(round.in_flight, range) {
            Some(j) => {
                assert(is_active(round, range));
                assert forall|i: int|
                    0 <= i < round.in_flight.len() && (#[trigger] round.in_flight[i]).range
                        == range implies i == j by {
                    if i < j {
                        assert(round.in_flight[i].range != round.in_flight[j].range);
                    } else if j < i {
                        assert(round.in_flight[j].range != round.in_flight[i].range);
                    }
                }
            },
            None => {},
        }
    }
}

/// The headline is that of the furthest batch: committing as soon as any batch commits,
/// scanning while there are batches and none does, and nothing without a batch.
pub proof fn the_furthest_batch_is_the_headline(round: Round)
    ensures
        round.phase() == Some(SyncPhase::Committing) <==> exists|i: int|
            0 <= i < round.in_flight.len() && (#[trigger] round.in_flight[i]).phase
                == BatchPhase::Committing,
        round.phase() is None <==> round.in_flight.len() == 0,
{
}

/// A row shows its own batch: the range, by which it is told apart from the others, the
/// priority, the outputs, and the phase with its start.
pub proof fn a_row_shows_its_own_batch(
    r: BatchProgress,
    b: Batch,
    expected_secs: Option<Real>,
    other: BatchProgress,
    c: Batch,
    other_secs: Option<Real>,
)
    requires
        shows_batch(r, b, expected_secs),
        shows_batch(other, c, other_secs),
    ensures
        r.start == b.range.start,
        r.end == b.range.end,
        r.priority@ == b.priority@,
        r.outputs == b.outputs,
        r.phase == b.phase,
        r.phase_started_at_ms == b.phase_started_ms,
        r.expected_secs == expected_secs,
        r.id@ == other.id@ <==> b.range == c.range,
{
    if r.id@ == other.id@ {
        range_text_injective(b.range, c.range);
    }
}

/// Every event can be taken but for counts past what they are counted in: those of an event
/// together past 32 bits, the outputs scanned in all or a batch's time past 64.
pub proof fn only_overflowing_counts_are_not_taken(
    round: Round,
    event: ScanEvent,
    now: Instant,
)
    ensures
        match event {
            ScanEvent::SessionStarted {
                total_sapling_outputs: a,
                total_orchard_outputs: b,
                total_ironwood_outputs: c,
                already_scanned_sapling_outputs: d,
                already_scanned_orchard_outputs: e,
                already_scanned_ironwood_outputs: f,
                ..
            } => round.takes(event, now) <==> a + b + c <= 0xffff_ffff && d + e + f
                <= 0xffff_ffff,
            ScanEvent::BatchScanStarted {
                sapling_outputs: a,
                orchard_outputs: b,
                ironwood_outputs: c,
                ..
            } => round.takes(event, now) <==> a + b + c <= 0xffff_ffff,
            ScanEvent::RangeScanned {
                range,
                sapling_outputs: a,
                orchard_outputs: b,
                ironwood_outputs: c,
                timing,
                ..
            } => round.takes(event, now) <==> a + b + c <= 0xffff_ffff && round.scanned_outputs + a
                + b + c <= 0xffff_ffff_ffff_ffff && waited_for(round.in_flight, range, now).nanos
                + timing.total.nanos <= 0xffff_ffff_ffff_ffff,
            _ => round.takes(event, now),
        },
{
}

/// What is said of a round is said of the tally, the batches and the windows it holds.
pub proof fn a_round_is_what_it_holds(view: RoundView)
    ensures
        view@.scanned_outputs == view.scanned_outputs,
        view@.total_outputs == view.total_outputs,
        view@.synced_height == view.synced_height,
        view@.chain_tip == view.chain_tip,
        view@.in_flight == view.in_flight@,
        view@.timing_log == view.timing_log@,
        view@.aggregate_log == view.aggregate_log@,
{
}

/// The later of two heights is neither below one nor above both.
pub proof fn the_later_height_is_one_of_the_two(a: u32, b: u32)
    ensures
        later(a, b) >= a,
        later(a, b) >= b,
        later(a, b) == a || later(a, b) == b,
{
}

/// The status of a round is that of its tally: its own heights, with a tip no lower than
/// the synced one, its own counts, and the phase of its furthest batch; the state, the
/// percentage and the estimate are those that were handed in, and there is no error.
pub proof fn the_status_is_that_of_the_tally(
    view: RoundView,
    state: SyncState,
    percent: u8,
    eta_seconds: Option<u64>,
    r: SyncStatus,
)
    requires
        call_ensures(RoundView::status, (&view, state, percent, eta_seconds), r),
    ensures
        r.state == state,
        r.synced_height == view.synced_height,
        r.chain_tip >= view.chain_tip && r.chain_tip >= view.synced_height,
        r.chain_tip == view.chain_tip || r.chain_tip == view.synced_height,
        r.percent == percent,
        r.eta_seconds == eta_seconds,
        r.scanned_outputs == Some(view.scanned_outputs),
        r.total_outputs == Some(view.total_outputs),
        r.phase == Some(SyncPhase::Committing) <==> exists|i: int|
            0 <= i < view.in_flight@.len() && (#[trigger] view.in_flight@[i]).phase
                == BatchPhase::Committing,
        r.phase is None <==> view.in_flight@.len() == 0,
        r.error is None && !r.unreachable && !r.wrong_chain && r.last_synced_at is None,
{
    the_furthest_batch_is_the_headline(view@);
}

/// What is left to scan is what is missing from the tally to its total, and the gain over
/// the window that between its first and its last count, over the time between them.
pub proof fn what_is_left_and_gained_is_counted(
    view: RoundView,
    left: Option<u64>,
    gain: Option<(u64, Duration)>,
)
    requires
        call_ensures(RoundView::remaining_outputs, (&view,), left),
        call_ensures(RoundView::aggregate_gain, (&view,), gain),
    ensures
        left matches Some(n) ==> n > 0 && view.scanned_outputs + n == view.total_outputs,
        left is None <==> view.scanned_outputs >= view.total_outputs,
        gain matches Some((outputs, span)) ==> {
            let (first, last) = (view.aggregate_log@.first(), view.aggregate_log@.last());
            &&& outputs > 0 && first.1 + outputs == last.1
            &&& first.0.nanos <= last.0.nanos ==> first.0.nanos + span.nanos == last.0.nanos
        },
        gain is None <==> view.aggregate_log@.len() == 0 || view.aggregate_log@.first().1
            >= view.aggregate_log@.last().1,
{
}

/// Folding an event into a round moves its tally as the event says: the total is set at the
/// start of a session and fixed from then on; the scanned count grows by a scanned range's
/// outputs and by nothing else; the heights follow the ranges, the tip and the reorgs.
pub proof fn an_event_moves_the_tally_as_told(event: ScanEvent, now: Instant, now_ms: u64)
    ensures
        forall|m: &mut RoundView, r: Effect| #[trigger]
            call_ensures(RoundView::on_event, (m, event, now, now_ms), r) && !(
            event is SessionStarted) ==> (*final(m)).total_outputs == (*m).total_outputs,
        forall|m: &mut RoundView, r: Effect| #[trigger]
            call_ensures(RoundView::on_event, (m, event, now, now_ms), r) ==> match event {
                ScanEvent::SessionStarted {
                    sync_start_height,
                    tip,
                    total_sapling_outputs: a,
                    total_orchard_outputs: b,
                    total_ironwood_outputs: c,
                    already_scanned_sapling_outputs: d,
                    already_scanned_orchard_outputs: e,
                    already_scanned_ironwood_outputs: f,
                } => {
                    let after = *final(m);
                    &&& after.total_outputs == a + b + c && after.scanned_outputs == d + e + f
                    &&& after.synced_height == sync_start_height && after.chain_tip == tip
                    &&& after.in_flight@.len() == 0 && after.timing_log@.len() == 0
                },
                ScanEvent::RangeScanned {
                    range,
                    sapling_outputs: a,
                    orchard_outputs: b,
                    ironwood_outputs: c,
                    ..
                } => {
                    let (before, after) = (*m, *final(m));
                    &&& before.scanned_outputs + a + b + c <= 0xffff_ffff_ffff_ffff
                        ==> after.scanned_outputs == before.scanned_outputs + a + b + c
                    &&& after.synced_height >= range.end && after.synced_height
                        >= before.synced_height
                    &&& after.synced_height == range.end || after.synced_height
                        == before.synced_height
                    &&& after.chain_tip == before.chain_tip
                },
                ScanEvent::Reorg { reverted_to } => {
                    let (before, after) = (*m, *final(m));
                    &&& after.synced_height <= reverted_to && after.synced_height
                        <= before.synced_height
                    &&& after.synced_height == reverted_to || after.synced_height
                        == before.synced_height
                    &&& after.scanned_outputs == before.scanned_outputs && after.chain_tip
                        == before.chain_tip
                    &&& after.in_flight@.len() == 0
                },
                ScanEvent::TipMoved { to } => {
                    let (before, after) = (*m, *final(m));
                    &&& after.chain_tip >= to && after.chain_tip >= before.chain_tip
                    &&& after.chain_tip == to || after.chain_tip == before.chain_tip
                    &&& after.scanned_outputs == before.scanned_outputs && after.synced_height
                        == before.synced_height
                },
                _ => {
                    let (before, after) = (*m, *final(m));
                    &&& after.scanned_outputs == before.scanned_outputs && after.synced_height
                        == before.synced_height && after.chain_tip == before.chain_tip
                },
            },
{
}

/// What a lagged stream missed is made up for by the wallet's own counts; the total, the
/// heights and the batches stay.
pub proof fn a_lagged_round_takes_the_wallets_count(
    sapling: u32,
    orchard: u32,
    ironwood: u32,
    now: Instant,
)
    requires
        sapling + orchard + ironwood <= u32::MAX,
    ensures
        forall|m: &mut RoundView| #[trigger]
            call_ensures(RoundView::reconcile, (m, sapling, orchard, ironwood, now), ()) ==> {
                let (before, after) = (*m, *final(m));
                &&& after.scanned_outputs == sapling + orchard + ironwood
                &&& after.total_outputs == before.total_outputs
                &&& after.synced_height == before.synced_height && after.chain_tip
                    == before.chain_tip
                &&& after.in_flight@ == before.in_flight@
                &&& after.timing_log@.len() == 0
            },
{
}

/// A range goes by its bounds, and the rows of a round are those of its batches, in their
/// order.
pub proof fn the_rows_built_are_the_batches(
    view: RoundView,
    expected_secs: Vec<Option<Real>>,
    rows: Vec<BatchProgress>,
    i: int,
)
    requires
        expected_secs@.len() == view.in_flight@.len(),
        call_ensures(RoundView::batch_snapshot, (&view, &expected_secs), rows),
        0 <= i < view.in_flight@.len(),
    ensures
        rows@.len() == view.in_flight@.len(),
        ({
            let (r, b) = (rows@[i], view.in_flight@[i]);
            &&& r.id@ == text::decimal(b.range.start as nat) + "-"@ + text::decimal(
                b.range.end as nat,
            )
            &&& r.start == b.range.start && r.end == b.range.end
            &&& r.priority@ == b.priority@ && r.outputs == b.outputs && r.phase == b.phase
            &&& r.phase_started_at_ms == b.phase_started_ms
            &&& r.expected_secs == expected_secs@[i]
        }),
{
    assert(shows_batch(rows@[i], view.in_flight@[i], expected_secs@[i]));
}

} // verus!
