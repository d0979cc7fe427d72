use vstd::prelude::*;

verus! {

/// Declares tonic::Status, the structured failure code of the request
/// interceptor's contract; this crate never inspects one.
#[verifier::external_type_specification]
#[verifier::external_body]
pub struct ExStatus(tonic::Status);

/// What the bounded-retry primitive does after one attempt.
#[derive(Clone, Copy, Debug, PartialEq, Eq, Structural)]
pub enum RetryDecision {
    /// The attempt succeeded: deliver its value.
    Deliver,
    /// The attempt failed and retries remain: log the failure, wait the
    /// fixed delay, try again.
    RetryAfterDelay,
    /// The attempt failed and retries are exhausted: return the failure.
    GiveUp,
}

/// One decision of the retry loop, from whether the attempt failed and
/// how many retries remain.
pub fn retry_step(attempt_failed: bool, retries_left: usize) -> (d: RetryDecision)
    ensures
        !attempt_failed ==> d is Deliver,
        attempt_failed && retries_left > 0 ==> d is RetryAfterDelay,
        attempt_failed && retries_left == 0 ==> d is GiveUp,
{
    if !attempt_failed {
        RetryDecision::Deliver
    } else if retries_left > 0 {
        RetryDecision::RetryAfterDelay
    } else {
        RetryDecision::GiveUp
    }
}

/// How many invocations the retry primitive makes when the operation's
/// successive results are `script` and `retries` retries are allowed:
/// attempts stop at the first success, or once retries are exhausted.
pub open spec fn spec_attempts_used<T, E>(script: Seq<Result<T, E>>, retries: nat) -> nat
    decreases retries,
{
    if script.len() == 0 {
        0
    } else if script[0] is Ok || retries == 0 {
        1
    } else {
        1 + spec_attempts_used(script.skip(1), (retries - 1) as nat)
    }
}

/// Replay of the retry primitive on a script of attempt results: the
/// element at `k` is what the operation returns on its `k`-th
/// invocation. Returns how many invocations are made; the delivered
/// result — the first success, or the failure that exhausted the budget
/// — is the script entry at `used - 1`.
pub fn retry_on_script<T, E>(script: &Vec<Result<T, E>>, retries: usize) -> (used: usize)
    requires
        script@.len() > retries,
    ensures
        used == spec_attempts_used(script@, retries as nat),
        1 <= used <= retries + 1,
        forall|m: int| 0 <= m < used - 1 ==> script@[m] is Err,
        script@[used - 1] is Ok || used == retries + 1,
{
    let n0 = script.len();
    proof {
        assert(script@.skip(0) =~= script@);
    }
    let mut i: usize = 0;
    while i < retries
        invariant
            i <= retries < n0 == script@.len() <= usize::MAX,
            forall|m: int| 0 <= m < i ==> script@[m] is Err,
            spec_attempts_used(script@, retries as nat) == i + spec_attempts_used(
                script@.skip(i as int),
                (retries - i) as nat,
            ),
        decreases retries - i,
    {
        let ghost tail = script@.skip(i as int);
        proof {
            assert(tail.len() == script@.len() - i);
            assert(tail[0] == script@[i as int]);
        }
        let ok = script[i].is_ok();
        if ok {
            proof {
                assert(spec_attempts_used(tail, (retries - i) as nat) == 1);
            }
            return i + 1;
        }
        proof {
            assert(spec_attempts_used(tail, (retries - i) as nat) == 1 + spec_attempts_used(
                tail.skip(1),
                (retries - i - 1) as nat,
            ));
            assert(tail.skip(1) =~= script@.skip(i as int + 1));
        }
        i += 1;
    }
    proof {
        let tail = script@.skip(retries as int);
        assert(tail.len() == script@.len() - retries);
        assert(spec_attempts_used(tail, 0) == 1);
    }
    retries + 1
}

/// Law: if some attempt within the budget succeeds, the primitive
/// delivers the first success, after exactly one invocation more than
/// the failures before it.
pub proof fn lemma_retry_first_success<T, E>(script: Seq<Result<T, E>>, retries: nat, k: int)
    requires
        script.len() > retries,
        0 <= k <= retries,
        script[k] is Ok,
        forall|m: int| 0 <= m < k ==> script[m] is Err,
    ensures
        spec_attempts_used(script, retries) == k + 1,
        script[k + 1 - 1] is Ok,
    decreases k,
{
    if k == 0 {
    } else {
        assert(script[0] is Err);
        lemma_retry_first_success(script.skip(1), (retries - 1) as nat, k - 1);
    }
}

/// Law: if every attempt within the budget fails, the primitive returns
/// the final failure after exactly retries + 1 invocations.
pub proof fn lemma_retry_exhausts<T, E>(script: Seq<Result<T, E>>, retries: nat)
    requires
        script.len() > retries,
        forall|m: int| 0 <= m <= retries ==> script[m] is Err,
    ensures
        spec_attempts_used(script, retries) == retries + 1,
        script[retries + 1 - 1] is Err,
    decreases retries,
{
    if retries == 0 {
    } else {
        assert(script[0] is Err);
        assert forall|m: int| 0 <= m <= retries - 1 implies script.skip(1)[m] is Err by {
            assert(script.skip(1)[m] == script[m + 1]);
        }
        lemma_retry_exhausts(script.skip(1), (retries - 1) as nat);
    }
}

/// Build a request interceptor from a pure mutator: every message is
/// passed through `mutator` and accepted.
pub fn interceptor<T, M: Fn(T) -> T>(mutator: M) -> (r: impl Fn(T) -> Result<T, tonic::Status>)
    requires
        forall|t: T| #[trigger] call_requires(mutator, (t,)),
    ensures
        forall|t: T| #[trigger] call_requires(r, (t,)),
        forall|t: T, out: Result<T, tonic::Status>|
            #[trigger] call_ensures(r, (t,), out) ==> (out matches Ok(v) && call_ensures(
                mutator,
                (t,),
                v,
            )),
{
    move |value: T| -> (res: Result<T, tonic::Status>)
        requires
            call_requires(mutator, (value,)),
        ensures
            res matches Ok(v) && call_ensures(mutator, (value,), v),
        {
            Ok(mutator(value))
        }
}

} // verus!
