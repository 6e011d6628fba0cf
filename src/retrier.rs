//! The retry loop's decisions, as a state machine.
//!
//! A run starts from a retry budget, `max_retries`. The caller invokes the
//! operation and hands each outcome to [`Retrier::on_outcome`], which answers
//! with a [`Step`]: stop with a result, or wait and invoke the operation again.
use crate::backoff::{backoff_delay_secs, delay_secs};
use vstd::prelude::*;

verus! {

/// What the caller does after an attempt.
pub enum Step<T, E> {
    /// Stop, and return this result: the success value of the attempt, or,
    /// once the retry budget is spent, its error.
    Done(Result<T, E>),
    /// Wait this many seconds, then invoke the operation again.
    RetryAfter(u64),
}

/// The state of one run of the retry loop: the retries made so far, and the
/// budget.
pub struct Retrier {
    retries: u32,
    max_retries: u32,
}

/// What a [`Retrier`] stands for.
pub struct RetrierModel {
    pub retries: nat,
    pub max_retries: nat,
}

impl View for Retrier {
    type V = RetrierModel;

    closed spec fn view(&self) -> RetrierModel {
        RetrierModel { retries: self.retries as nat, max_retries: self.max_retries as nat }
    }
}

/// The state in which a run with budget `max_retries` starts.
pub open spec fn initial(max_retries: nat) -> RetrierModel {
    RetrierModel { retries: 0, max_retries }
}

/// What the loop decides, in state `s`, on the outcome of an attempt: return a
/// success at once; on a failure, return it if the budget is spent, else wait
/// `delay_secs(s.retries)` and retry.
pub open spec fn decide<T, E>(s: RetrierModel, outcome: Result<T, E>) -> Step<T, E> {
    match outcome {
        Ok(v) => Step::Done(Ok(v)),
        Err(e) => if s.retries >= s.max_retries {
            Step::Done(Err(e))
        } else {
            Step::RetryAfter(delay_secs(s.retries) as u64)
        },
    }
}

/// The state after a decision in `s`: a retry counts one more; otherwise the
/// state stays.
pub open spec fn advance<T, E>(s: RetrierModel, step: Step<T, E>) -> RetrierModel {
    match step {
        Step::RetryAfter(_) => RetrierModel { retries: s.retries + 1, ..s },
        Step::Done(_) => s,
    }
}

/// The decisions of a run from state `s`, one per attempt, when attempt `i`
/// (from 0) has outcome `outcomes[i]`. It ends at the first `Done`, or where
/// the outcomes run out.
pub open spec fn trace<T, E>(s: RetrierModel, outcomes: Seq<Result<T, E>>) -> Seq<Step<T, E>>
    decreases outcomes.len(),
{
    if outcomes.len() == 0 {
        seq![]
    } else {
        let step = decide(s, outcomes[0]);
        match step {
            Step::Done(_) => seq![step],
            Step::RetryAfter(_) => seq![step] + trace(advance(s, step), outcomes.drop_first()),
        }
    }
}

impl Retrier {
    /// A retrier is well formed when it has not made more retries than its
    /// budget allows.
    pub open spec fn wf(&self) -> bool {
        self@.retries <= self@.max_retries
    }

    /// Starts a run with a budget of `max_retries` retries after the first
    /// attempt.
    pub fn new(max_retries: u32) -> (r: Retrier)
        ensures
            r@ == initial(max_retries as nat),
            r.wf(),
    {
        Retrier { retries: 0, max_retries }
    }

    /// Starts a run from the budget that configuration gave, or, when
    /// configuration could not be had, gives its error back: then no run
    /// starts and the operation is never invoked.
    pub fn from_config<C>(config: Result<u32, C>) -> (r: Result<Retrier, C>)
        ensures
            match config {
                Ok(n) => r matches Ok(s) && s@ == initial(n as nat) && s.wf(),
                Err(c) => r == Err::<Retrier, C>(c),
            },
    {
        match config {
            Ok(n) => Ok(Retrier::new(n)),
            Err(c) => Err(c),
        }
    }

    /// The retries made so far.
    pub fn retries(&self) -> (r: u32)
        ensures
            r == self@.retries,
    {
        self.retries
    }

    /// The most retries this run makes after the first attempt.
    pub fn max_retries(&self) -> (r: u32)
        ensures
            r == self@.max_retries,
    {
        self.max_retries
    }

    /// Takes the outcome of an attempt and says what to do next: on success,
    /// return it; on failure with the budget spent, return the error; on
    /// another failure, count a retry and wait `delay_secs` of the retries made
    /// before it.
    pub fn on_outcome<T, E>(&mut self, outcome: Result<T, E>) -> (r: Step<T, E>)
        requires
            old(self).wf(),
        ensures
            r == decide(old(self)@, outcome),
            final(self)@ == advance(old(self)@, r),
            final(self).wf(),
    {
        match outcome {
            Ok(v) => Step::Done(Ok(v)),
            Err(e) => {
                if self.retries >= self.max_retries {
                    Step::Done(Err(e))
                } else {
                    let delay = backoff_delay_secs(self.retries);
                    self.retries = self.retries + 1;
                    Step::RetryAfter(delay)
                }
            },
        }
    }
}

} // verus!
