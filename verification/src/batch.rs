//! Summarising a batch mutation over several monitors.
//!
//! A "set all" operation attempts one mutation per enumerated monitor and
//! must isolate failures: one refused device never prevents the others from
//! being attempted.  The caller collects the per-monitor outcomes in
//! enumeration order and the summary reports how many succeeded and which
//! failed, with their positions and errors.

use vstd::prelude::*;

use crate::monitor::MonitorError;

verus! {

/// One failed entry of a batch operation: the monitor's position in
/// enumeration order and the error its mutation failed with.
#[derive(Debug, Clone, PartialEq)]
pub struct BatchFailure {
    pub index: usize,
    pub error: MonitorError,
}

/// What a batch mutation came to: how many monitors were updated, and every
/// failure with its position.
#[derive(Debug, Clone, PartialEq)]
pub struct BatchSummary {
    pub successes: usize,
    pub failures: Vec<BatchFailure>,
}

/// Counts the successes of a batch and lists its failures: every failed
/// position appears exactly once, in order, with its error; everything else
/// counts as a success.
#[verifier::rlimit(50)]
pub fn summarize_batch(outcomes: Vec<Result<(), MonitorError>>) -> (s: BatchSummary)
    ensures
        s.successes + s.failures@.len() == outcomes@.len(),
        forall|k: int|
            0 <= k < s.failures@.len() ==> {
                &&& (#[trigger] s.failures@[k]).index < outcomes@.len()
                &&& outcomes@[s.failures@[k].index as int] matches Err(e) && e == s.failures@[k].error
            },
        forall|k1: int, k2: int|
            0 <= k1 < k2 < s.failures@.len() ==> (#[trigger] s.failures@[k1]).index < (
            #[trigger] s.failures@[k2]).index,
        forall|i: int|
            0 <= i < outcomes@.len() && outcomes@[i] is Err ==> exists|k: int|
                0 <= k < s.failures@.len() && (#[trigger] s.failures@[k]).index == i,
{
    let ghost orig = outcomes@;
    let mut rest = outcomes;
    let total: usize = rest.len();
    proof {
        assert(orig.len() == total);
        assert(rest@ =~= orig.subrange(0, orig.len() as int));
    }
    let mut successes: usize = 0;
    let mut failures: Vec<BatchFailure> = Vec::new();
    let mut i: usize = 0;
    while rest.len() > 0
        invariant
            orig.len() <= usize::MAX,
            i + rest@.len() == orig.len(),
            rest@ == orig.subrange(i as int, orig.len() as int),
            successes + failures@.len() == i,
            forall|k: int|
                0 <= k < failures@.len() ==> {
                    &&& (#[trigger] failures@[k]).index < i
                    &&& orig[failures@[k].index as int] matches Err(e) && e == failures@[k].error
                },
            forall|k1: int, k2: int|
                0 <= k1 < k2 < failures@.len() ==> (#[trigger] failures@[k1]).index < (
                #[trigger] failures@[k2]).index,
            forall|ii: int|
                0 <= ii < i && orig[ii] is Err ==> exists|k: int|
                    0 <= k < failures@.len() && (#[trigger] failures@[k]).index == ii,
        decreases rest@.len(),
    {
        let ghost before = failures@;
        let outcome = rest.remove(0);
        assert(outcome == orig[i as int]);
        match outcome {
            Ok(()) => {
                successes += 1;
            },
            Err(error) => {
                failures.push(BatchFailure { index: i, error });
                assert forall|ii: int| 0 <= ii < i + 1 && orig[ii] is Err implies exists|k: int|
                    0 <= k < failures@.len() && (#[trigger] failures@[k]).index == ii by {
                    if ii < i {
                        let k = choose|k: int| 0 <= k < before.len() && (#[trigger] before[k]).index == ii;
                        assert(failures@[k].index == ii);
                    } else {
                        assert(failures@[failures@.len() - 1].index == ii);
                    }
                }
            },
        }
        proof {
            assert(rest@ =~= orig.subrange(i + 1 as int, orig.len() as int));
        }
        i += 1;
    }
    BatchSummary { successes, failures }
}

} // verus!
