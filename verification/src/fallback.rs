//! Discovery with a second strategy in reserve.

use crate::discovery::{DiscoveryResponse, Error};
use std::time::Duration;
use vstd::prelude::*;

verus! {

/// Attempts to run the `primary` strategy for an amount of time specified by
/// `timeout` before falling back to `fallback`.
pub struct FallbackPackageDiscovery<P, F> {
    pub primary: P,
    pub fallback: F,
    pub timeout: Duration,
}

/// How a run of the primary strategy ended.
pub enum PrimaryOutcome<E> {
    /// It answered in time.
    Answered(Result<DiscoveryResponse, Error<E>>),
    /// Its time ran out.
    TimedOut,
}

/// What to do next.
pub enum FallbackAction<E> {
    /// Run the primary strategy for no longer than `limit`, and hand the
    /// outcome to [`FallbackPackageDiscovery::after_primary`].
    RunPrimary { limit: Duration },
    /// Run the fallback strategy, and hand its answer and the primary's error,
    /// if it gave one, to [`FallbackPackageDiscovery::after_fallback`].
    RunFallback { primary_error: Option<Error<E>> },
    /// Discovery has ended.
    Return(Result<DiscoveryResponse, Error<E>>),
}

/// The action once the primary strategy has ended: a response is final, an
/// error or the lack of an answer calls for the fallback.
pub open spec fn action_after_primary<E>(outcome: PrimaryOutcome<E>) -> FallbackAction<E> {
    match outcome {
        PrimaryOutcome::Answered(Ok(response)) => FallbackAction::Return(Ok(response)),
        PrimaryOutcome::Answered(Err(error)) => FallbackAction::RunFallback {
            primary_error: Some(error),
        },
        PrimaryOutcome::TimedOut => FallbackAction::RunFallback { primary_error: None },
    }
}

/// The answer once the fallback has answered: its own, unless it is
/// unavailable and the primary strategy left an error.
pub open spec fn answer_after_fallback<E>(
    primary_error: Option<Error<E>>,
    answer: Result<DiscoveryResponse, Error<E>>,
) -> Result<DiscoveryResponse, Error<E>> {
    match (primary_error, answer) {
        (Some(error), Err(Error::Unavailable)) => Err(error),
        _ => answer,
    }
}

/// Whether the fallback is asked at all.
pub open spec fn uses_fallback<E>(outcome: PrimaryOutcome<E>) -> bool {
    action_after_primary(outcome) is RunFallback
}

/// The answer of a whole run, in which the primary strategy ends as `outcome`
/// says and the fallback, if it is asked, gives `answer`.
pub open spec fn fallback_answer<E>(
    outcome: PrimaryOutcome<E>,
    answer: Result<DiscoveryResponse, Error<E>>,
) -> Result<DiscoveryResponse, Error<E>> {
    match action_after_primary(outcome) {
        FallbackAction::RunFallback { primary_error } => answer_after_fallback(
            primary_error,
            answer,
        ),
        FallbackAction::Return(answer) => answer,
        FallbackAction::RunPrimary { .. } => arbitrary(),
    }
}

impl<P, F> FallbackPackageDiscovery<P, F> {
    /// Discovery by `primary`, and by `fallback` where that gives no response
    /// within `timeout`.
    pub fn new(primary: P, fallback: F, timeout: Duration) -> (res: Self)
        ensures
            res.primary == primary,
            res.fallback == fallback,
            res.timeout == timeout,
    {
        Self { primary, fallback, timeout }
    }

    /// Starts discovery.
    pub fn begin<E>(&self) -> (res: FallbackAction<E>)
        ensures
            res == (FallbackAction::<E>::RunPrimary { limit: self.timeout }),
    {
        FallbackAction::RunPrimary { limit: self.timeout }
    }

    /// Goes on from the end of the primary strategy.
    pub fn after_primary<E>(&self, outcome: PrimaryOutcome<E>) -> (res: FallbackAction<E>)
        ensures
            res == action_after_primary(outcome),
            match outcome {
                PrimaryOutcome::Answered(Ok(response)) => res == FallbackAction::<E>::Return(
                    Ok(response),
                ),
                PrimaryOutcome::Answered(Err(error)) => res == (FallbackAction::RunFallback {
                    primary_error: Some(error),
                }),
                PrimaryOutcome::TimedOut => res == (FallbackAction::<E>::RunFallback {
                    primary_error: None,
                }),
            },
    {
        match outcome {
            PrimaryOutcome::Answered(Ok(response)) => FallbackAction::Return(Ok(response)),
            PrimaryOutcome::Answered(Err(error)) => FallbackAction::RunFallback {
                primary_error: Some(error),
            },
            PrimaryOutcome::TimedOut => FallbackAction::RunFallback { primary_error: None },
        }
    }

    /// Ends with the answer of the fallback. If that is unavailable, the
    /// primary's error is the one to report.
    pub fn after_fallback<E>(
        &self,
        primary_error: Option<Error<E>>,
        answer: Result<DiscoveryResponse, Error<E>>,
    ) -> (res: FallbackAction<E>)
        ensures
            res == FallbackAction::Return(answer_after_fallback(primary_error, answer)),
            answer is Ok ==> res == FallbackAction::Return(answer),
            answer matches Err(Error::Failed(_)) ==> res == FallbackAction::Return(answer),
            answer matches Err(Error::Unavailable) ==> res == FallbackAction::<E>::Return(
                Err(
                    match primary_error {
                        Some(error) => error,
                        None => Error::Unavailable,
                    },
                ),
            ),
    {
        match (primary_error, answer) {
            (Some(error), Err(Error::Unavailable)) => FallbackAction::Return(Err(error)),
            (_, answer) => FallbackAction::Return(answer),
        }
    }
}

/// A run starts with the primary strategy, under the time limit that the
/// strategy was made with, and never runs it again. A response in time is the
/// answer. Else the fallback is asked, and what it answers is the answer; only
/// if that is unavailable, and the primary strategy failed in time, is the
/// answer the error that the primary strategy gave.
pub proof fn law_fallback_run<P, F, E>(
    primary: P,
    fallback: F,
    timeout: Duration,
    discovery: FallbackPackageDiscovery<P, F>,
    first: FallbackAction<E>,
    outcome: PrimaryOutcome<E>,
    second: FallbackAction<E>,
    answer: Result<DiscoveryResponse, Error<E>>,
    third: FallbackAction<E>,
)
    requires
        call_ensures(
            FallbackPackageDiscovery::<P, F>::new,
            (primary, fallback, timeout),
            discovery,
        ),
        call_ensures(FallbackPackageDiscovery::<P, F>::begin::<E>, (&discovery,), first),
        call_ensures(
            FallbackPackageDiscovery::<P, F>::after_primary::<E>,
            (&discovery, outcome),
            second,
        ),
        second matches FallbackAction::RunFallback { primary_error } ==> call_ensures(
            FallbackPackageDiscovery::<P, F>::after_fallback::<E>,
            (&discovery, primary_error, answer),
            third,
        ),
    ensures
        discovery.primary == primary,
        discovery.fallback == fallback,
        first == (FallbackAction::<E>::RunPrimary { limit: timeout }),
        match outcome {
            PrimaryOutcome::Answered(Ok(response)) => second == FallbackAction::<E>::Return(
                Ok(response),
            ),
            PrimaryOutcome::Answered(Err(error)) => {
                &&& second is RunFallback
                &&& third == FallbackAction::<E>::Return(
                    if answer matches Err(Error::Unavailable) {
                        Err(error)
                    } else {
                        answer
                    },
                )
            },
            PrimaryOutcome::TimedOut => {
                &&& second is RunFallback
                &&& third == FallbackAction::<E>::Return(answer)
            },
        },
{
}

/// The primary strategy runs once. The fallback is asked just when that gave no
/// response in time; otherwise nothing hangs on what it would say.
pub proof fn law_fallback_used<E>(outcome: PrimaryOutcome<E>)
    ensures
        !(action_after_primary(outcome) is RunPrimary),
        uses_fallback(outcome) <==> !(outcome matches PrimaryOutcome::Answered(Ok(_))),
        !uses_fallback(outcome) ==> forall|answer: Result<DiscoveryResponse, Error<E>>|
            PrimaryOutcome::Answered(#[trigger] fallback_answer(outcome, answer)) == outcome,
{
}

/// There is a response just when one of the strategies that were asked gave
/// one, and it is that one.
pub proof fn law_fallback_response<E>(
    outcome: PrimaryOutcome<E>,
    answer: Result<DiscoveryResponse, Error<E>>,
)
    ensures
        fallback_answer(outcome, answer) is Ok <==> !uses_fallback(outcome) || answer is Ok,
        uses_fallback(outcome) && answer is Ok ==> fallback_answer(outcome, answer) == answer,
        !uses_fallback(outcome) ==> outcome == PrimaryOutcome::Answered(
            fallback_answer(outcome, answer),
        ),
{
}

/// If both strategies fail, the fallback's error is reported, unless it is
/// just unavailable and the primary strategy gave an error of its own.
pub proof fn law_fallback_error<E>(error: Error<E>, fallback_error: Error<E>)
    ensures
        fallback_answer(
            PrimaryOutcome::Answered(Err(error)),
            Err(fallback_error),
        ) == Err::<DiscoveryResponse, Error<E>>(
            if fallback_error is Unavailable {
                error
            } else {
                fallback_error
            },
        ),
{
}

/// Where one strategy is unavailable, or the primary one ran out of time, the
/// answer is the other's, whatever it is. Where that leaves none, discovery is
/// unavailable.
pub proof fn law_fallback_alone<E>(answer: Result<DiscoveryResponse, Error<E>>)
    ensures
        fallback_answer(PrimaryOutcome::TimedOut, answer) == answer,
        fallback_answer(PrimaryOutcome::Answered(Err(Error::Unavailable)), answer) == answer,
        fallback_answer(PrimaryOutcome::Answered(answer), Err(Error::Unavailable)) == answer,
        fallback_answer::<E>(PrimaryOutcome::TimedOut, Err(Error::Unavailable)) == Err::<
            DiscoveryResponse,
            Error<E>,
        >(Error::Unavailable),
{
}

} // verus!
