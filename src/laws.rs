//! What holds of whole runs of the retry loop, over [`trace`].
use crate::backoff::delay_secs;
use crate::retrier::{decide, initial, trace, RetrierModel, Step};
use vstd::prelude::*;

verus! {

/// The waits of `count` retries in a row, the first of them made after
/// `retries` retries.
pub open spec fn waits<T, E>(retries: nat, count: nat) -> Seq<Step<T, E>> {
    Seq::new(count, |i: int| Step::<T, E>::RetryAfter(delay_secs((retries + i) as nat) as u64))
}

/// While the budget lasts, each failure is answered by a wait and a retry:
/// `f` failures in a row from state `s`, within its budget, give the waits of
/// `f` retries, and the run goes on from `s` with `f` more retries made.
pub proof fn lemma_failures_within_budget<T, E>(
    s: RetrierModel,
    outcomes: Seq<Result<T, E>>,
    f: nat,
)
    requires
        s.retries + f <= s.max_retries,
        f <= outcomes.len(),
        forall|i: int| 0 <= i < f ==> #[trigger] outcomes[i] is Err,
    ensures
        trace(s, outcomes) == waits::<T, E>(s.retries, f) + trace(
            RetrierModel { retries: s.retries + f, max_retries: s.max_retries },
            outcomes.skip(f as int),
        ),
    decreases f,
{
    if f == 0 {
        assert(outcomes.skip(0) =~= outcomes);
        assert(waits::<T, E>(s.retries, 0) + trace(s, outcomes) =~= trace(s, outcomes));
    } else {
        let step = decide(s, outcomes[0]);
        let s1 = RetrierModel { retries: s.retries + 1, max_retries: s.max_retries };
        let rest = outcomes.drop_first();
        assert(outcomes[0] is Err);
        assert(forall|i: int| 0 <= i < f - 1 ==> #[trigger] rest[i] is Err) by {
            assert forall|i: int| 0 <= i < f - 1 implies #[trigger] rest[i] is Err by {
                assert(outcomes[i + 1] is Err);
            }
        }
        lemma_failures_within_budget(s1, rest, (f - 1) as nat);
        assert(rest.skip(f - 1) =~= outcomes.skip(f as int));
        assert(trace(s, outcomes) == seq![step] + trace(s1, rest));
        assert(waits::<T, E>(s.retries, f) =~= seq![step] + waits::<T, E>(s1.retries, (f - 1) as nat));
    }
}

/// With a budget of `n` retries, an operation that fails every time is
/// invoked exactly `n + 1` times: after attempt `i + 1`, for each `i < n`, the
/// run waits `delay_secs(i)` and retries, and it returns the error of attempt
/// `n + 1`.
pub proof fn lemma_always_failing<T, E>(n: nat, outcomes: Seq<Result<T, E>>)
    requires
        n < outcomes.len(),
        forall|i: int| 0 <= i < outcomes.len() ==> #[trigger] outcomes[i] is Err,
    ensures
        trace(initial(n), outcomes).len() == n + 1,
        forall|i: int|
            0 <= i < n ==> #[trigger] trace(initial(n), outcomes)[i] == Step::<T, E>::RetryAfter(
                delay_secs(i as nat) as u64,
            ),
        trace(initial(n), outcomes)[n as int] == Step::<T, E>::Done(Err(outcomes[n as int]->Err_0)),
{
    lemma_failures_within_budget(initial(n), outcomes, n);
    let tail = outcomes.skip(n as int);
    assert(tail[0] == outcomes[n as int]);
    let last = RetrierModel { retries: n, max_retries: n };
    assert(trace(last, tail) == seq![Step::<T, E>::Done(Err(outcomes[n as int]->Err_0))]);
}

/// With a budget of `n` retries, an operation that fails on its first `k - 1`
/// invocations and succeeds on invocation `k <= n + 1` is invoked exactly `k`
/// times: the run waits `delay_secs(i)` after failure `i + 1`, returns the
/// success value, and waits no more after it.
pub proof fn lemma_success_on_attempt<T, E>(n: nat, outcomes: Seq<Result<T, E>>, k: nat)
    requires
        1 <= k <= n + 1,
        k <= outcomes.len(),
        forall|i: int| 0 <= i < k - 1 ==> #[trigger] outcomes[i] is Err,
        outcomes[k - 1] is Ok,
    ensures
        trace(initial(n), outcomes).len() == k,
        forall|i: int|
            0 <= i < k - 1 ==> #[trigger] trace(initial(n), outcomes)[i] == Step::<T, E>::RetryAfter(
                delay_secs(i as nat) as u64,
            ),
        trace(initial(n), outcomes)[k - 1] == Step::<T, E>::Done(outcomes[k - 1]),
{
    let f = (k - 1) as nat;
    lemma_failures_within_budget(initial(n), outcomes, f);
    let tail = outcomes.skip(f as int);
    assert(tail[0] == outcomes[k - 1]);
    let s = RetrierModel { retries: f, max_retries: n };
    assert(trace(s, tail) == seq![Step::<T, E>::Done(outcomes[k - 1])]);
}

/// With no retry budget, a failing operation is invoked once, and its error is
/// returned at once, with no wait.
pub proof fn lemma_no_budget<T, E>(outcomes: Seq<Result<T, E>>)
    requires
        0 < outcomes.len(),
        outcomes[0] is Err,
    ensures
        trace(initial(0), outcomes) == seq![Step::<T, E>::Done(outcomes[0])],
{
    assert(outcomes[0] == Err::<T, E>(outcomes[0]->Err_0));
}

} // verus!
