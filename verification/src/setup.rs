use vstd::prelude::*;

use crate::error::Error;
use crate::middleware::DbHandle;

verus! {

/// The effect of a successful setup task: a pure transformation of
/// builder state, applied strictly in submission order.
#[derive(Clone, Copy, Debug, PartialEq, Eq, Structural)]
pub enum StatePatch {
    /// Install the shared database handle.
    SetDb(DbHandle),
}

/// What one setup task resolved to: no effect, a state patch, or a
/// failure. Failures are logged and dropped; they never abort the batch
/// nor the run.
pub type SetupResult = Result<Option<StatePatch>, Error>;

/// The completion at position `j` of the batch belongs to the task
/// submitted at index `i`.
pub open spec fn completes_task(c: Seq<(usize, SetupResult)>, j: int, i: int) -> bool {
    0 <= j < c.len() && c[j].0 == i
}

/// Some completion of the batch belongs to the task submitted at `i`.
pub open spec fn covered(c: Seq<(usize, SetupResult)>, i: int) -> bool {
    exists|j: int| #[trigger] completes_task(c, j, i)
}

/// `c` is one completion per submitted task of a batch of `n`: pairs of
/// submission index and outcome, in arbitrary completion order.
pub open spec fn is_completion_batch(c: Seq<(usize, SetupResult)>, n: nat) -> bool {
    &&& c.len() == n
    &&& forall|j: int| 0 <= j < c.len() ==> (#[trigger] c[j]).0 < n
    &&& forall|j: int, k: int|
        0 <= j < k < c.len() ==> (#[trigger] c[j]).0 != (#[trigger] c[k]).0
    &&& forall|i: int| 0 <= i < n ==> #[trigger] covered(c, i)
}

/// The outcome of the task submitted at index `i`.
pub open spec fn outcome_at(c: Seq<(usize, SetupResult)>, i: int) -> SetupResult {
    c[choose|j: int| completes_task(c, j, i)].1
}

/// The batch's outcomes rearranged into submission order.
pub open spec fn submission_view(c: Seq<(usize, SetupResult)>, n: nat) -> Seq<SetupResult> {
    Seq::new(n, |i: int| outcome_at(c, i))
}

/// In a completion batch the outcome of task `i` is the one the unique
/// completion for `i` carries.
pub proof fn lemma_outcome_at(c: Seq<(usize, SetupResult)>, n: nat, j: int, i: int)
    requires
        is_completion_batch(c, n),
        completes_task(c, j, i),
    ensures
        outcome_at(c, i) == c[j].1,
{
    let j2 = choose|j2: int| completes_task(c, j2, i);
    assert(completes_task(c, j, i));
    if j2 != j {
        if j < j2 {
            assert((c[j]).0 != (c[j2]).0);
        } else {
            assert((c[j2]).0 != (c[j]).0);
        }
    }
}

/// Reorder a completion batch into submission order. Tasks resolve
/// concurrently in any order; effects apply by submission index.
pub fn collect_in_order(c: Vec<(usize, SetupResult)>, n: usize) -> (r: Vec<SetupResult>)
    requires
        is_completion_batch(c@, n as nat),
    ensures
        r@ == submission_view(c@, n as nat),
{
    let ghost c0 = c@;
    let mut c = c;
    let mut slots: Vec<Option<SetupResult>> = Vec::new();
    let mut i: usize = 0;
    while i < n
        invariant
            i <= n,
            slots@.len() == i,
        decreases n - i,
    {
        slots.push(None);
        i += 1;
    }
    let ghost total = n as nat;
    let mut processed: usize = 0;
    while processed < n
        invariant
            is_completion_batch(c0, n as nat),
            processed <= n,
            c@ =~= c0.skip(processed as int),
            slots@.len() == n,
            forall|j: int|
                0 <= j < processed ==> slots@[(#[trigger] c0[j]).0 as int] == Some(c0[j].1),
        decreases n - processed,
    {
        assert(c@[0] == c0[processed as int]);
        let (idx, outcome) = c.remove(0);
        assert(idx < n);
        let ghost slots_before = slots@;
        let _ = slots.remove(idx);
        slots.insert(idx, Some(outcome));
        proof {
            assert(slots@ =~= slots_before.update(idx as int, Some(outcome)));
            assert forall|j: int| 0 <= j < processed + 1 implies slots@[(#[trigger] c0[j]).0 as int]
                == Some(c0[j].1) by {
                if j < processed {
                    // distinct indices: the new write does not clobber j's slot
                    assert(c0[j].0 != c0[processed as int].0);
                }
            }
        }
        processed += 1;
    }
    proof {
        assert forall|k: int| 0 <= k < n implies slots@[k] == Some(
            submission_view(c0, n as nat)[k],
        ) by {
            assert(covered(c0, k));
            let j = choose|j: int| completes_task(c0, j, k);
            assert(completes_task(c0, j, k));
            lemma_outcome_at(c0, n as nat, j, k);
            assert(slots@[(c0[j]).0 as int] == Some(c0[j].1));
        }
    }
    let ghost full = slots@;
    let mut r: Vec<SetupResult> = Vec::new();
    let mut k: usize = 0;
    while k < n
        invariant
            k <= n,
            full.len() == n,
            slots@ =~= full.skip(k as int),
            r@.len() == k,
            forall|k2: int| 0 <= k2 < n ==> full[k2] == Some(submission_view(c0, n as nat)[k2]),
            forall|m: int| 0 <= m < k ==> r@[m] == submission_view(c0, n as nat)[m],
        decreases n - k,
    {
        assert(slots@[0] == full[k as int]);
        let s = slots.remove(0);
        match s {
            Some(o) => {
                r.push(o);
            },
            None => {
                proof {
                    assert(false);
                }
                vstd::pervasive::unreached::<()>();
            },
        }
        k += 1;
    }
    proof {
        assert(r@ =~= submission_view(c0, n as nat));
    }
    r
}

/// Law: rearranging a batch never changes the resolved outcome order:
/// any two completion orders of one batch have the same submission view.
pub proof fn lemma_completion_order_irrelevant(
    c1: Seq<(usize, SetupResult)>,
    c2: Seq<(usize, SetupResult)>,
    n: nat,
)
    requires
        is_completion_batch(c1, n),
        is_completion_batch(c2, n),
        forall|j: int| 0 <= j < c1.len() ==> c2.contains(#[trigger] c1[j]),
    ensures
        submission_view(c1, n) == submission_view(c2, n),
{
    assert forall|i: int| 0 <= i < n implies submission_view(c1, n)[i] == submission_view(
        c2,
        n,
    )[i] by {
        assert(covered(c1, i));
        let j = choose|j: int| completes_task(c1, j, i);
        assert(completes_task(c1, j, i));
        lemma_outcome_at(c1, n, j, i);
        assert(c2.contains(c1[j]));
        let k = choose|k: int| 0 <= k < c2.len() && c2[k] == c1[j];
        assert(completes_task(c2, k, i));
        lemma_outcome_at(c2, n, k, i);
    }
    assert(submission_view(c1, n) =~= submission_view(c2, n));
}

} // verus!
