//! Trying again after a failure, up to a limit.

use vstd::prelude::*;

verus! {

/// A series of attempts: the one under way and the last one allowed, counted from zero.
#[derive(Clone, Copy, Debug)]
pub struct Retry {
    pub attempt: u32,
    pub last: u32,
}

/// What follows an attempt.
#[derive(Debug)]
pub enum Verdict<T, E> {
    /// The series is over with this result.
    Return(Result<T, E>),
    /// The attempt failed and another one is due.
    Again(E),
}

/// What an attempt makes of the series, and what follows.
pub open spec fn judged<T, E>(before: Retry, after: Retry, result: Result<T, E>, r: Verdict<T, E>) -> bool {
    match result {
        Ok(value) => r == Verdict::<T, E>::Return(Ok(value)) && after == before,
        Err(e) => if before.attempt == before.last {
            r == Verdict::<T, E>::Return(Err(e)) && after == before
        } else {
            r == Verdict::<T, E>::Again(e) && after == (Retry {
                attempt: (before.attempt + 1) as u32,
                ..before
            })
        },
    }
}

impl Retry {
    /// The attempt under way is one of those allowed.
    pub open spec fn well_formed(self) -> bool {
        self.attempt <= self.last
    }

    /// A series of so many attempts in all.
    pub fn attempts(max_attempts: u32) -> (r: Retry)
        requires
            max_attempts > 0,
        ensures
            r.attempt == 0,
            r.last == max_attempts - 1,
            r.well_formed(),
    {
        Retry { attempt: 0, last: max_attempts - 1 }
    }

    /// A first attempt and so many more.
    pub fn retries(max_retries: u32) -> (r: Retry)
        ensures
            r.attempt == 0,
            r.last == max_retries,
            r.well_formed(),
    {
        Retry { attempt: 0, last: max_retries }
    }

    /// Takes the result of the attempt under way.
    pub fn judge<T, E>(&mut self, result: Result<T, E>) -> (r: Verdict<T, E>)
        requires
            old(self).well_formed(),
        ensures
            judged(*old(self), *final(self), result, r),
            final(self).well_formed(),
            result is Ok || old(self).attempt == old(self).last <==> r == Verdict::<T, E>::Return(result),
    {
        match result {
            Ok(value) => Verdict::Return(Ok(value)),
            Err(e) => if self.attempt == self.last {
                Verdict::Return(Err(e))
            } else {
                self.attempt = self.attempt + 1;
                Verdict::Again(e)
            },
        }
    }
}

/// How many attempts a series makes, where `outcomes` lists what each attempt would come to.
pub open spec fn attempts_made<T, E>(series: Retry, outcomes: Seq<Result<T, E>>) -> nat
    decreases series.last - series.attempt,
{
    if outcomes[0] is Ok || series.attempt >= series.last {
        1
    } else {
        1 + attempts_made(
            Retry { attempt: (series.attempt + 1) as u32, ..series },
            outcomes.drop_first(),
        )
    }
}

/// A series goes on as `attempts_made` counts: another attempt follows a verdict exactly where the
/// count goes beyond one.
pub proof fn verdicts_follow_the_count<T, E>(
    before: Retry,
    after: Retry,
    outcomes: Seq<Result<T, E>>,
    r: Verdict<T, E>,
)
    requires
        before.well_formed(),
        outcomes.len() > 0,
        judged(before, after, outcomes[0], r),
    ensures
        r is Again <==> attempts_made(before, outcomes) > 1,
        r is Again ==> attempts_made(before, outcomes) == 1 + attempts_made(after, outcomes.drop_first()),
        r is Return ==> r->Return_0 == outcomes[0],
{
    if r is Again {
        attempts_are_limited(after, outcomes.drop_first());
    }
}

/// A series makes at least one attempt and never more than the limit.
proof fn attempts_are_limited<T, E>(series: Retry, outcomes: Seq<Result<T, E>>)
    requires
        series.well_formed(),
    ensures
        1 <= attempts_made(series, outcomes) <= series.last - series.attempt + 1,
    decreases series.last - series.attempt,
{
    if !(outcomes[0] is Ok || series.attempt >= series.last) {
        attempts_are_limited(
            Retry { attempt: (series.attempt + 1) as u32, ..series },
            outcomes.drop_first(),
        );
    }
}

/// A series stops at the first success, and without one at the limit: every attempt but the last
/// one made has failed, and where that failed too the limit was reached.
pub proof fn first_success_or_limit<T, E>(series: Retry, outcomes: Seq<Result<T, E>>)
    requires
        series.well_formed(),
        outcomes.len() > series.last - series.attempt,
    ensures
        1 <= attempts_made(series, outcomes) <= series.last - series.attempt + 1,
        forall|i: int| 0 <= i < attempts_made(series, outcomes) - 1 ==> (#[trigger] outcomes[i]) is Err,
        outcomes[attempts_made(series, outcomes) - 1] is Err ==> attempts_made(series, outcomes) == series.last
            - series.attempt + 1,
    decreases series.last - series.attempt,
{
    if !(outcomes[0] is Ok || series.attempt >= series.last) {
        let next = Retry { attempt: (series.attempt + 1) as u32, ..series };
        let rest = outcomes.drop_first();
        first_success_or_limit(next, rest);
        let n = attempts_made(series, outcomes);
        assert forall|i: int| 0 <= i < n - 1 implies (#[trigger] outcomes[i]) is Err by {
            if i > 0 {
                assert(rest[i - 1] is Err);
                assert(rest[i - 1] == outcomes[i]);
            }
        }
        assert(rest[attempts_made(next, rest) - 1] == outcomes[n - 1]);
    }
}

/// A success ends a series, a failure ends it at the limit, and any other failure is handed back
/// with one more attempt counted.
pub proof fn attempt_is_judged_by_its_result<T, E>(
    before: Retry,
    after: Retry,
    result: Result<T, E>,
    r: Verdict<T, E>,
)
    requires
        judged(before, after, result, r),
        before.attempt <= before.last,
    ensures
        r is Return <==> result is Ok || before.attempt >= before.last,
        r matches Verdict::Return(returned) ==> returned == result && after.attempt == before.attempt,
        r matches Verdict::Again(e) ==> result == Err::<T, E>(e) && after.attempt == before.attempt + 1,
        after.last == before.last,
{
}

/// A series is in order exactly while its attempt is not beyond the last one.
pub proof fn series_in_order(series: Retry)
    ensures
        series.well_formed() <==> series.attempt <= series.last,
{
}

/// Where every attempt fails, a series makes all that are allowed.
pub proof fn failures_use_every_attempt<T, E>(series: Retry, outcomes: Seq<Result<T, E>>)
    requires
        series.attempt <= series.last,
        outcomes.len() > series.last - series.attempt,
        forall|i: int| 0 <= i < outcomes.len() ==> (#[trigger] outcomes[i]) is Err,
    ensures
        attempts_made(series, outcomes) == series.last - series.attempt + 1,
    decreases series.last - series.attempt,
{
    if series.attempt < series.last {
        let rest = outcomes.drop_first();
        assert forall|i: int| 0 <= i < rest.len() implies (#[trigger] rest[i]) is Err by {
            assert(rest[i] == outcomes[i + 1]);
        }
        failures_use_every_attempt(Retry { attempt: (series.attempt + 1) as u32, ..series }, rest);
    }
}

} // verus!
