//! Bookkeeping of the throughput prober: what a worker hands to each proof
//! attempt, how the shared counter moves, and the rate that is reported for
//! a sampling window.

use vstd::prelude::*;
use vstd::string::*;
use crate::text::{decimal, decimal_string};

verus! {

/// The account that every proof attempt names as the one to reward.
pub const REWARD_ADDRESS: &'static str =
    "aleo15qwecrrmvf53x4npnz6aj5xlcs0a7524ukz7hr9cvaxw5av98uxqdq0ula";

/// The environment variable that holds the hash of the current epoch.
pub const EPOCH_HASH_VARIABLE: &'static str = "EPOCH_HASH";

/// Seconds between two samples of the counter.
pub const REPORT_INTERVAL_SECS: u64 = 10;

/// Calls `num_cpus::get`. Trusted: the crate documents that the count of
/// available processing units is never below one.
#[verifier::external_body]
fn available_units() -> (units: usize)
    ensures
        units >= 1,
{
    num_cpus::get()
}

/// Calls `rand::thread_rng` and draws one `u64` from it with
/// `RngCore::next_u64`. Trusted; nothing is claimed of the value.
#[verifier::external_body]
fn draw_nonce() -> (nonce: u64) {
    rand::RngCore::next_u64(&mut rand::thread_rng())
}

/// How many workers to run: one for each available processing unit.
pub fn worker_count() -> (workers: usize)
    ensures
        workers >= 1,
{
    available_units()
}

/// What one proof attempt is started with, beside the epoch hash and the
/// reward address.
#[derive(Clone, Copy, Debug)]
pub struct AttemptInput {
    pub nonce: u64,
    pub minimum_target: Option<u64>,
}

impl AttemptInput {
    /// The input of an attempt on `nonce`: no minimum target is asked for.
    pub fn with_nonce(nonce: u64) -> (input: Self)
        ensures
            input == (AttemptInput { nonce, minimum_target: None }),
    {
        AttemptInput { nonce, minimum_target: None }
    }
}

/// The input of the next attempt, on a nonce drawn from the calling
/// thread's own generator. Whatever the nonce, no minimum target is asked
/// for.
pub fn next_attempt() -> (input: AttemptInput)
    ensures
        input.minimum_target is None,
{
    AttemptInput::with_nonce(draw_nonce())
}

/// What a worker does once an attempt has returned.
#[derive(Clone, Copy, Debug, PartialEq, Eq, Structural)]
pub enum WorkerStep {
    /// Count the proof and go on with the next attempt.
    Count,
    /// Stop for good, counting nothing.
    Halt,
}

/// A worker counts a successful attempt and halts on a failed one.
pub fn after_attempt(proved: bool) -> (step: WorkerStep)
    ensures
        step == (if proved {
            WorkerStep::Count
        } else {
            WorkerStep::Halt
        }),
{
    if proved {
        WorkerStep::Count
    } else {
        WorkerStep::Halt
    }
}

/// The counter after one more proof: one higher, wrapping to zero only
/// from the largest value.
pub open spec fn bumped(count: u64) -> u64 {
    if count == u64::MAX {
        0
    } else {
        (count + 1) as u64
    }
}

/// Counts one proof.
pub fn bump(count: u64) -> (next: u64)
    ensures
        next == bumped(count),
{
    if count == u64::MAX {
        0
    } else {
        count + 1
    }
}

/// The counter after a run of attempts, whichever workers made them:
/// `outcomes` holds, in the order in which they returned, whether each
/// attempt proved.
pub open spec fn tally(start: u64, outcomes: Seq<bool>) -> u64
    decreases outcomes.len(),
{
    if outcomes.len() == 0 {
        start
    } else if outcomes.last() {
        bumped(tally(start, outcomes.drop_last()))
    } else {
        tally(start, outcomes.drop_last())
    }
}

/// Short of the wrap the counter holds the start and the proofs counted
/// and no more: it lies between the start and the start plus the attempts.
pub proof fn lemma_tally_bounds(start: u64, outcomes: Seq<bool>)
    requires
        start + outcomes.len() <= u64::MAX,
    ensures
        start <= tally(start, outcomes) <= start + outcomes.len(),
        (forall|i: int| 0 <= i < outcomes.len() ==> outcomes[i]) ==> tally(start, outcomes)
            == start + outcomes.len(),
    decreases outcomes.len(),
{
    if outcomes.len() > 0 {
        lemma_tally_bounds(start, outcomes.drop_last());
    }
}

/// Short of the wrap the counter never decreases: a reading taken after
/// more attempts is at least any reading taken before them.
pub proof fn lemma_tally_monotone(start: u64, outcomes: Seq<bool>, seen: int)
    requires
        0 <= seen <= outcomes.len(),
        start + outcomes.len() <= u64::MAX,
    ensures
        tally(start, outcomes.take(seen)) <= tally(start, outcomes),
    decreases outcomes.len(),
{
    if seen == outcomes.len() {
        assert(outcomes.take(seen) =~= outcomes);
    } else {
        lemma_tally_monotone(start, outcomes.drop_last(), seen);
        lemma_tally_bounds(start, outcomes.drop_last());
        assert(outcomes.drop_last().take(seen) =~= outcomes.take(seen));
    }
}

/// Proofs counted between two readings of the counter, allowing for one
/// wrap between them.
pub open spec fn completed_between(before: u64, after: u64) -> nat {
    if after >= before {
        (after - before) as nat
    } else {
        (after + (u64::MAX - before) + 1) as nat
    }
}

/// A rate in proofs per second with one decimal place: `whole + tenths / 10`.
#[derive(Clone, Copy, Debug, PartialEq, Eq, Structural)]
pub struct Rate {
    pub whole: u64,
    pub tenths: u64,
}

impl Rate {
    /// The rate counted in tenths of a proof per second.
    pub open spec fn in_tenths(&self) -> nat {
        (self.whole * 10 + self.tenths) as nat
    }

    /// Whether the decimal place is a single digit.
    pub open spec fn wf(&self) -> bool {
        self.tenths < 10
    }

    /// The text of the rate: the whole part alone where the decimal place
    /// is zero, otherwise both with a point between them.
    pub open spec fn text_of(&self) -> Seq<char> {
        if self.tenths == 0 {
            decimal(self.whole as nat)
        } else {
            decimal(self.whole as nat) + "."@ + decimal(self.tenths as nat)
        }
    }

    /// Writes the rate.
    pub fn text(&self) -> (s: String)
        ensures
            s@ == self.text_of(),
    {
        let mut s: String = decimal_string(self.whole);
        if self.tenths != 0 {
            s.append(".");
            s.append(decimal_string(self.tenths).as_str());
        }
        s
    }
}

/// The rate over one sampling window: the proofs counted between the two
/// readings, divided by the ten seconds of the window.
pub open spec fn rate_of(before: u64, after: u64) -> Rate {
    Rate {
        whole: (completed_between(before, after) / 10) as u64,
        tenths: (completed_between(before, after) % 10) as u64,
    }
}

/// The rate times the length of the window gives back the proofs counted:
/// for readings in order, `whole + tenths / 10` is `(after - before) / 10`.
pub proof fn lemma_rate_exact(before: u64, after: u64)
    ensures
        rate_of(before, after).wf(),
        rate_of(before, after).in_tenths() == completed_between(before, after),
        after >= before ==> rate_of(before, after).whole * 10 + rate_of(before, after).tenths
            == after - before,
{
}

/// Computes the rate over the window between two readings.
pub fn rate(before: u64, after: u64) -> (r: Rate)
    ensures
        r == rate_of(before, after),
{
    let done: u64 = after.wrapping_sub(before);
    Rate { whole: done / REPORT_INTERVAL_SECS, tenths: done % REPORT_INTERVAL_SECS }
}

/// The line reported for one sampling window.
pub open spec fn report_of(r: Rate) -> Seq<char> {
    "Proofs per second: "@ + r.text_of()
}

/// Writes the line for the window between two readings.
pub fn report_line(before: u64, after: u64) -> (line: String)
    ensures
        line@ == report_of(rate_of(before, after)),
{
    let r: Rate = rate(before, after);
    let mut line: String = String::from_str("Proofs per second: ");
    line.append(r.text().as_str());
    line
}

} // verus!
