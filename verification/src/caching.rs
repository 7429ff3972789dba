//! Discovery that keeps a response for the next time.

use crate::discovery::{answer_of, DiscoveryResponse, DiscoveryResponseView, Error};
use vstd::prelude::*;

verus! {

/// Keeps each response of the `primary` strategy and gives it out once more.
pub struct CachingPackageDiscovery<P> {
    pub primary: P,
    pub data: Option<DiscoveryResponse>,
}

/// What to do next.
pub enum CachingAction<E> {
    /// Run the primary strategy, and hand its answer to
    /// [`CachingPackageDiscovery::after_primary`].
    RunPrimary,
    /// Discovery has ended.
    Return(Result<DiscoveryResponse, Error<E>>),
}

/// The mathematical content of a [`CachingAction`].
pub enum CachingActionView<E> {
    RunPrimary,
    Return(Result<DiscoveryResponseView, Error<E>>),
}

impl<E> View for CachingAction<E> {
    type V = CachingActionView<E>;

    open spec fn view(&self) -> CachingActionView<E> {
        match *self {
            CachingAction::RunPrimary => CachingActionView::RunPrimary,
            CachingAction::Return(answer) => CachingActionView::Return(answer_of(answer)),
        }
    }
}

/// The first action with the given response kept: give it out, or ask for one.
pub open spec fn action_with_cache<E>(cache: Option<DiscoveryResponseView>) -> CachingActionView<
    E,
> {
    match cache {
        Some(response) => CachingActionView::Return(Ok(response)),
        None => CachingActionView::RunPrimary,
    }
}

/// What is kept once the primary strategy has answered.
pub open spec fn cache_after_primary<E>(
    cache: Option<DiscoveryResponseView>,
    answer: Result<DiscoveryResponseView, Error<E>>,
) -> Option<DiscoveryResponseView> {
    match answer {
        Ok(response) => Some(response),
        Err(_) => cache,
    }
}

impl<P> CachingPackageDiscovery<P> {
    /// The response that is kept.
    pub open spec fn cache(&self) -> Option<DiscoveryResponseView> {
        match self.data {
            Some(response) => Some(response@),
            None => None,
        }
    }

    /// Discovery by `primary`, with nothing kept yet.
    pub fn new(primary: P) -> (res: Self)
        ensures
            res.primary == primary,
            res.cache() is None,
            res.data is None,
    {
        Self { primary, data: None }
    }

    /// Starts discovery. A kept response is given out and no longer kept.
    pub fn begin<E>(&mut self) -> (res: CachingAction<E>)
        ensures
            res@ == action_with_cache::<E>(old(self).cache()),
            match old(self).data {
                Some(response) => res == CachingAction::<E>::Return(Ok(response)),
                None => res is RunPrimary,
            },
            final(self).data is None,
            final(self).cache() is None,
            final(self).primary == old(self).primary,
    {
        match self.data.take() {
            Some(data) => CachingAction::Return(Ok(data)),
            None => CachingAction::RunPrimary,
        }
    }

    /// Ends with the answer of the primary strategy, and keeps its response.
    pub fn after_primary<E>(&mut self, answer: Result<DiscoveryResponse, Error<E>>) -> (res:
        CachingAction<E>)
        ensures
            res == CachingAction::Return(answer),
            final(self).cache() == cache_after_primary(old(self).cache(), answer_of(answer)),
            match answer {
                Ok(response) => final(self).data matches Some(kept) && kept@ == response@,
                Err(_) => final(self).data == old(self).data,
            },
            final(self).primary == old(self).primary,
    {
        match answer {
            Ok(data) => {
                self.data = Some(data.clone());
                CachingAction::Return(Ok(data))
            },
            Err(error) => CachingAction::Return(Err(error)),
        }
    }
}

/// One whole run of discovery.
pub struct CachingRun<E> {
    /// Whether the primary strategy was asked.
    pub asked: bool,
    /// The answer of the run.
    pub answer: Result<DiscoveryResponseView, Error<E>>,
    /// What is kept after it.
    pub cache: Option<DiscoveryResponseView>,
}

/// The run that starts with `cache` kept, in which the primary strategy, if it
/// is asked, gives `answer`.
pub open spec fn caching_run<E>(
    cache: Option<DiscoveryResponseView>,
    answer: Result<DiscoveryResponseView, Error<E>>,
) -> CachingRun<E> {
    match action_with_cache::<E>(cache) {
        CachingActionView::RunPrimary => CachingRun {
            asked: true,
            answer,
            cache: cache_after_primary(None, answer),
        },
        CachingActionView::Return(answer) => CachingRun { asked: false, answer, cache: None },
    }
}

/// What is kept before the run with the given number, if nothing was kept
/// before the first.
pub open spec fn cache_before<E>(
    answers: Seq<Result<DiscoveryResponseView, Error<E>>>,
    run: nat,
) -> Option<DiscoveryResponseView>
    decreases run,
{
    if run == 0 {
        None
    } else {
        caching_run(cache_before(answers, (run - 1) as nat), answers[run - 1]).cache
    }
}

/// How often the primary strategy is asked in the first `runs` runs, if nothing
/// was kept before the first.
pub open spec fn times_asked<E>(
    answers: Seq<Result<DiscoveryResponseView, Error<E>>>,
    runs: nat,
) -> nat
    decreases runs,
{
    if runs == 0 {
        0
    } else {
        let last = (runs - 1) as nat;
        let run = caching_run(cache_before(answers, last), answers[last as int]);
        times_asked(answers, last) + if run.asked {
            1nat
        } else {
            0nat
        }
    }
}

/// A run asks the primary strategy just when nothing is kept, and its answer is
/// then the primary strategy's; else its answer is what was kept. What is kept
/// after it is the response of the primary strategy, if that was asked and gave
/// one.
pub proof fn law_caching_run<E>(
    cache: Option<DiscoveryResponseView>,
    answer: Result<DiscoveryResponseView, Error<E>>,
)
    ensures
        ({
            let run = caching_run(cache, answer);
            match cache {
                Some(response) => {
                    &&& !run.asked
                    &&& run.answer == Ok::<DiscoveryResponseView, Error<E>>(response)
                    &&& run.cache is None
                },
                None => {
                    &&& run.asked
                    &&& run.answer == answer
                    &&& match answer {
                        Ok(response) => run.cache == Some(response),
                        Err(_) => run.cache is None,
                    }
                },
            }
        }),
{
}

/// What is kept is the content of the kept response.
pub proof fn law_cache_content<P>(discovery: CachingPackageDiscovery<P>)
    ensures
        discovery.cache() is Some <==> discovery.data is Some,
        discovery.data matches Some(response) ==> discovery.cache() == Some(response@),
{
}

/// A response of the primary strategy is given again by the next run, which
/// does not ask the primary strategy, whatever that would answer now.
pub proof fn law_cache_hit<E>(
    response: DiscoveryResponseView,
    later: Result<DiscoveryResponseView, Error<E>>,
)
    ensures
        ({
            let first = caching_run::<E>(None, Ok(response));
            let second = caching_run::<E>(first.cache, later);
            &&& first.asked
            &&& first.answer == Ok::<DiscoveryResponseView, Error<E>>(response)
            &&& !second.asked
            &&& second.answer == first.answer
        }),
{
}

/// An error is passed on and not kept: the next run asks again.
pub proof fn law_error_not_cached<E>(
    error: Error<E>,
    later: Result<DiscoveryResponseView, Error<E>>,
)
    ensures
        ({
            let first = caching_run::<E>(None, Err(error));
            let second = caching_run::<E>(first.cache, later);
            &&& first.answer == Err::<DiscoveryResponseView, Error<E>>(error)
            &&& second.asked
            &&& second.answer == later
        }),
{
}

/// Each response is given at most twice: a run that answers from what is kept
/// leaves nothing, so the next one asks.
pub proof fn law_cache_spent<E>(
    cache: Option<DiscoveryResponseView>,
    answer: Result<DiscoveryResponseView, Error<E>>,
    later: Result<DiscoveryResponseView, Error<E>>,
)
    ensures
        ({
            let first = caching_run::<E>(cache, answer);
            !first.asked ==> caching_run::<E>(first.cache, later).asked
        }),
{
}

/// While the primary strategy does not fail, it is asked by every other run,
/// and every run in between repeats the answer before it.
pub proof fn law_cache_alternates<E>(
    answers: Seq<Result<DiscoveryResponseView, Error<E>>>,
    run: nat,
)
    requires
        run < answers.len(),
        forall|i: int| 0 <= i < answers.len() ==> #[trigger] answers[i] is Ok,
    ensures
        caching_run(cache_before(answers, run), answers[run as int]).asked <==> run % 2 == 0,
        run % 2 == 0 ==> caching_run(cache_before(answers, run), answers[run as int]).answer
            == answers[run as int],
        run % 2 == 1 ==> caching_run(cache_before(answers, run), answers[run as int]).answer
            == answers[run - 1],
    decreases run,
{
    if run > 0 {
        law_cache_alternates(answers, (run - 1) as nat);
    }
}

/// While the primary strategy does not fail, it is asked once for every two
/// runs, the first of them included.
pub proof fn law_cache_halves<E>(
    answers: Seq<Result<DiscoveryResponseView, Error<E>>>,
    runs: nat,
)
    requires
        runs <= answers.len(),
        forall|i: int| 0 <= i < answers.len() ==> #[trigger] answers[i] is Ok,
    ensures
        times_asked(answers, runs) == (runs + 1) / 2,
    decreases runs,
{
    if runs > 0 {
        law_cache_halves(answers, (runs - 1) as nat);
        law_cache_alternates(answers, (runs - 1) as nat);
    }
}

} // verus!
