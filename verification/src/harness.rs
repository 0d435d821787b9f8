//! The harness itself: what to do with the opener's result, how comparison
//! outcomes aggregate into one pass/fail verdict, and the two verification
//! scenarios — a single round trip, and the serialized schedule of four
//! concurrent units, each doing one hundred rounds at its own sector.

use vstd::prelude::*;
use crate::device::{SectorDevice, lemma_round_trip};
use crate::payload::{payloads_equal, random_payload};
use crate::sector::{SECTOR_SIZE, is_sector_aligned, unit_offset};

verus! {

/// How many concurrent units the concurrent scenario runs.
pub const UNIT_COUNT: usize = 4;

/// How many write/read/compare rounds each unit performs.
pub const ROUNDS_PER_UNIT: usize = 100;

/// What follows the attempt to open the device: run the scenarios on the
/// returned descriptor, or stop. A negative descriptor is the opener's
/// failure sentinel; then no scenario runs and there is no handle to close.
#[derive(Clone, Copy, Debug, PartialEq, Eq, Structural)]
pub enum OpenDecision {
    RunScenarios { fd: i32 },
    AbortNoHandle,
}

/// Decides from the opener's result whether the scenarios may run.
pub fn after_open(fd: i32) -> (d: OpenDecision)
    ensures
        fd >= 0 ==> d == (OpenDecision::RunScenarios { fd }),
        fd < 0 ==> d == OpenDecision::AbortNoHandle,
{
    if fd >= 0 {
        OpenDecision::RunScenarios { fd }
    } else {
        OpenDecision::AbortNoHandle
    }
}

/// The aggregate verdict over a run: records each comparison's outcome and
/// reports pass exactly when every recorded comparison succeeded.
pub struct AggregateOutcome {
    all_ok: bool,
    comparisons: u64,
    results: Ghost<Seq<bool>>,
}

impl AggregateOutcome {
    /// The comparison outcomes recorded so far, in order.
    pub closed spec fn results(&self) -> Seq<bool> {
        self.results@
    }

    /// Every recorded comparison succeeded.
    pub open spec fn all_results_passed(&self) -> bool {
        forall|i: int| 0 <= i < self.results().len() ==> self.results()[i]
    }

    /// The internal pass flag and counter agree with the recorded outcomes.
    pub closed spec fn wf(&self) -> bool {
        &&& self.all_ok == self.all_results_passed()
        &&& self.comparisons == self.results().len()
    }

    /// An outcome with nothing recorded yet.
    pub fn new() -> (o: AggregateOutcome)
        ensures
            o.wf(),
            o.results() == Seq::<bool>::empty(),
    {
        AggregateOutcome { all_ok: true, comparisons: 0, results: Ghost(Seq::empty()) }
    }

    /// Records one comparison's outcome.
    pub fn record(&mut self, matched: bool)
        requires
            old(self).wf(),
            old(self).results().len() < u64::MAX,
        ensures
            final(self).wf(),
            final(self).results() == old(self).results().push(matched),
    {
        self.all_ok = self.all_ok && matched;
        self.comparisons = self.comparisons + 1;
        proof {
            let prior = self.results@;
            self.results@ = self.results@.push(matched);
            if self.all_ok {
                assert forall|i: int| 0 <= i < self.results@.len() implies self.results@[i] by {
                    if i < prior.len() {
                        assert(self.results@[i] == prior[i]);
                    } else {
                        assert(self.results@[i] == matched);
                    }
                }
            } else if !matched {
                assert(!self.results()[prior.len() as int]);
            } else {
                assert(!old(self).all_results_passed());
                let w = choose|i: int|
                    !(0 <= i < old(self).results().len() ==> old(self).results()[i]);
                assert(self.results()[w] == prior[w]);
                assert(!self.results()[w]);
            }
        }
    }

    /// The aggregate pass flag: true if and only if all recorded
    /// comparisons succeeded.
    pub fn all_passed(&self) -> (r: bool)
        requires
            self.wf(),
        ensures
            r == self.all_results_passed(),
    {
        self.all_ok
    }

    /// How many comparisons were recorded.
    pub fn count(&self) -> (n: u64)
        requires
            self.wf(),
        ensures
            n == self.results().len(),
    {
        self.comparisons
    }
}

/// One verification round at `offset`: write a fresh random payload of one
/// sector, read the same sector back, compare. Against the device model the
/// comparison provably succeeds, whatever bytes the payload holds; bytes
/// outside the written sector are untouched.
pub fn write_read_round(dev: &mut SectorDevice, offset: usize) -> (matched: bool)
    requires
        is_sector_aligned(offset as int),
        offset + SECTOR_SIZE <= old(dev)@.len(),
    ensures
        matched,
        final(dev)@.len() == old(dev)@.len(),
        forall|i: int|
            0 <= i < old(dev)@.len() && !(offset <= i < offset + SECTOR_SIZE)
                ==> final(dev)@[i] == old(dev)@[i],
{
    let payload = random_payload(SECTOR_SIZE);
    dev.write_at(offset, &payload);
    let back = dev.read_at(offset, SECTOR_SIZE);
    proof {
        lemma_round_trip(old(dev)@, offset as int, payload@);
    }
    payloads_equal(&payload, &back)
}

/// The single-unit scenario: one write and one read of one sector at offset
/// zero, pass exactly when the bytes read equal the bytes written — which,
/// with no intervening write to that sector, always holds.
pub fn test_read_write(dev: &mut SectorDevice) -> (passed: bool)
    requires
        SECTOR_SIZE <= old(dev)@.len(),
    ensures
        passed,
        final(dev)@.len() == old(dev)@.len(),
{
    write_read_round(dev, 0)
}

/// The concurrent scenario in the total order its exclusive guard imposes:
/// every unit holds the shared handle for its whole write/read/compare
/// round, so the rounds of all units form one sequence, here unit by unit.
/// Each unit works at its own sector, so no round disturbs another unit's
/// bytes, and all `UNIT_COUNT * ROUNDS_PER_UNIT` comparisons succeed.
pub fn test_multithread_sync(dev: &mut SectorDevice) -> (passed: bool)
    requires
        UNIT_COUNT * SECTOR_SIZE <= old(dev)@.len(),
    ensures
        passed,
        final(dev)@.len() == old(dev)@.len(),
{
    let outcome = run_unit_schedule(dev);
    outcome.all_passed()
}

/// The schedule underneath the concurrent scenario: all
/// `UNIT_COUNT * ROUNDS_PER_UNIT` rounds, unit by unit. The returned record
/// holds one outcome per round, every one of them a success.
pub fn run_unit_schedule(dev: &mut SectorDevice) -> (outcome: AggregateOutcome)
    requires
        UNIT_COUNT * SECTOR_SIZE <= old(dev)@.len(),
    ensures
        outcome.wf(),
        outcome.results().len() == UNIT_COUNT * ROUNDS_PER_UNIT,
        outcome.all_results_passed(),
        final(dev)@.len() == old(dev)@.len(),
{
    let mut outcome = AggregateOutcome::new();
    let mut unit: usize = 0;
    while unit < UNIT_COUNT
        invariant
            unit <= UNIT_COUNT,
            UNIT_COUNT * SECTOR_SIZE <= dev@.len(),
            dev@.len() == old(dev)@.len(),
            outcome.wf(),
            outcome.all_results_passed(),
            outcome.results().len() == unit * ROUNDS_PER_UNIT,
        decreases UNIT_COUNT - unit,
    {
        let offset = unit_offset(unit);
        proof {
            assert(offset + SECTOR_SIZE <= UNIT_COUNT * SECTOR_SIZE) by (nonlinear_arith)
                requires
                    offset == unit * SECTOR_SIZE,
                    unit < UNIT_COUNT,
            ;
        }
        let mut round: usize = 0;
        while round < ROUNDS_PER_UNIT
            invariant
                round <= ROUNDS_PER_UNIT,
                unit < UNIT_COUNT,
                is_sector_aligned(offset as int),
                offset + SECTOR_SIZE <= dev@.len(),
                dev@.len() == old(dev)@.len(),
                outcome.wf(),
                outcome.all_results_passed(),
                outcome.results().len() == unit * ROUNDS_PER_UNIT + round,
            decreases ROUNDS_PER_UNIT - round,
        {
            let matched = write_read_round(dev, offset);
            outcome.record(matched);
            round = round + 1;
        }
        unit = unit + 1;
    }
    outcome
}

} // verus!

