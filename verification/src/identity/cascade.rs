//! Cascading identity provider selection.
//!
//! Providers are tried in priority order (typically SPIRE, then
//! self-signed, then bootstrap) until one yields an identity:
//!
//! - each provider's availability is checked first (a fast check);
//! - an available provider is asked for an identity;
//! - on success that identity is returned at once;
//! - on failure the next provider is tried;
//! - if all fail, the last error is returned, and with no provider
//!   available at all, [`IdentityError::NoProviderAvailable`].
//!
//! Earlier providers are not retried within one run: upgrading from a
//! bootstrap identity later is the caller's periodic renewal. The identity
//! is returned as the provider gave it; checking its validity is the
//! caller's responsibility.
//!
//! The providers themselves are asynchronous and live with the caller, so
//! this module holds the decisions only: a [`CascadeRun`] says which
//! provider to ask next and what to ask it, and is told each answer.

use vstd::prelude::*;

use super::error::IdentityError;
use super::identity::WorkloadIdentity;

verus! {

/// What a cascade run asks of its driver next.
pub enum CascadeStep {
    /// Ask the provider at this index whether it is available.
    CheckAvailability(usize),
    /// Ask the provider at this index for an identity.
    Acquire(usize),
    /// The run is over, with this result.
    Finished(Result<WorkloadIdentity, IdentityError>),
}

/// The state of one run of the cascade over its providers.
///
/// The fields are private: a run changes only through [`CascadeRun::begin`],
/// [`CascadeRun::on_availability`] and [`CascadeRun::on_answer`].
pub struct CascadeRun {
    /// Number of providers, in priority order.
    provider_count: usize,
    /// Index of the provider the run is at.
    current: usize,
    /// Whether the run waits for the current provider's identity (else for
    /// its availability).
    acquiring: bool,
    /// The error of the last provider that failed so far, if any.
    last_error: Option<IdentityError>,
}

/// The error a run ends with when no provider succeeded: the last
/// provider error, or `NoProviderAvailable` when there was none.
pub open spec fn final_error(last: Option<IdentityError>) -> IdentityError {
    match last {
        Some(e) => e,
        None => IdentityError::NoProviderAvailable,
    }
}

/// The result of the cascade over the providers from index `i` on, given
/// each provider's availability and what it would answer when asked for an
/// identity, when `last` is the last error seen before `i`.
pub open spec fn cascade_result(
    available: Seq<bool>,
    answers: Seq<Result<WorkloadIdentity, IdentityError>>,
    i: int,
    last: Option<IdentityError>,
) -> Result<WorkloadIdentity, IdentityError>
    decreases available.len() - i,
{
    if i < 0 || i >= available.len() {
        Err(final_error(last))
    } else if !available[i] {
        cascade_result(available, answers, i + 1, last)
    } else {
        match answers[i] {
            Ok(id) => Ok(id),
            Err(e) => cascade_result(available, answers, i + 1, Some(e)),
        }
    }
}

impl CascadeRun {
    /// Number of providers, in priority order.
    pub closed spec fn provider_total(&self) -> nat {
        self.provider_count as nat
    }

    /// Index of the provider the run is at.
    pub closed spec fn position(&self) -> nat {
        self.current as nat
    }

    /// Whether the run waits for the current provider's identity (else for
    /// its availability).
    pub closed spec fn is_acquiring(&self) -> bool {
        self.acquiring
    }

    /// The error of the last provider that failed so far, if any.
    pub closed spec fn failure(&self) -> Option<IdentityError> {
        self.last_error
    }

    /// The run is at one of its providers.
    pub closed spec fn wf(&self) -> bool {
        self.current < self.provider_count
    }

    /// The state and first request of a run over `provider_count`
    /// providers.
    pub closed spec fn start(provider_count: usize) -> (CascadeRun, CascadeStep) {
        (
            CascadeRun { provider_count, current: 0, acquiring: false, last_error: None },
            if provider_count == 0 {
                CascadeStep::Finished(Err(IdentityError::NoProviderAvailable))
            } else {
                CascadeStep::CheckAvailability(0)
            },
        )
    }

    /// The state and request that follow the current step's conclusion:
    /// the next provider's availability check, or, after the last
    /// provider, the end of the run with [`final_error`].
    pub closed spec fn advanced(self) -> (CascadeRun, CascadeStep) {
        if self.current + 1 < self.provider_count {
            (
                CascadeRun {
                    provider_count: self.provider_count,
                    current: (self.current + 1) as usize,
                    acquiring: false,
                    last_error: self.last_error,
                },
                CascadeStep::CheckAvailability((self.current + 1) as usize),
            )
        } else {
            (
                CascadeRun {
                    provider_count: self.provider_count,
                    current: self.current,
                    acquiring: self.acquiring,
                    last_error: None,
                },
                CascadeStep::Finished(Err(final_error(self.last_error))),
            )
        }
    }

    /// What follows when the current provider reports its availability.
    pub closed spec fn after_availability(self, available: bool) -> (CascadeRun, CascadeStep) {
        if available {
            (
                CascadeRun {
                    provider_count: self.provider_count,
                    current: self.current,
                    acquiring: true,
                    last_error: self.last_error,
                },
                CascadeStep::Acquire(self.current),
            )
        } else {
            self.advanced()
        }
    }

    /// What follows when the current provider answers a request for an
    /// identity.
    pub closed spec fn after_answer(self, answer: Result<WorkloadIdentity, IdentityError>) -> (
        CascadeRun,
        CascadeStep,
    ) {
        match answer {
            Ok(id) => (self, CascadeStep::Finished(Ok(id))),
            Err(e) => CascadeRun {
                provider_count: self.provider_count,
                current: self.current,
                acquiring: self.acquiring,
                last_error: Some(e),
            }.advanced(),
        }
    }

    /// The result this run will end with, given every provider's
    /// availability and answer.
    pub closed spec fn pending_result(
        self,
        available: Seq<bool>,
        answers: Seq<Result<WorkloadIdentity, IdentityError>>,
    ) -> Result<WorkloadIdentity, IdentityError> {
        if self.acquiring {
            match answers[self.current as int] {
                Ok(id) => Ok(id),
                Err(e) => cascade_result(available, answers, self.current + 1, Some(e)),
            }
        } else {
            cascade_result(available, answers, self.current as int, self.last_error)
        }
    }

    /// Start a run over `provider_count` providers: check the first one's
    /// availability, or, with no provider, finish at once with
    /// `NoProviderAvailable`.
    pub fn begin(provider_count: usize) -> (r: (CascadeRun, CascadeStep))
        ensures
            r == CascadeRun::start(provider_count),
            r.0.provider_total() == provider_count,
            r.0.position() == 0,
            !r.0.is_acquiring(),
            r.0.failure() is None,
            provider_count > 0 ==> r.0.wf(),
            provider_count == 0 ==> r.1 == CascadeStep::Finished(
                Err(IdentityError::NoProviderAvailable),
            ),
            provider_count > 0 ==> r.1 == CascadeStep::CheckAvailability(0),
    {
        let run = CascadeRun { provider_count, current: 0, acquiring: false, last_error: None };
        if provider_count == 0 {
            (run, CascadeStep::Finished(Err(IdentityError::NoProviderAvailable)))
        } else {
            (run, CascadeStep::CheckAvailability(0))
        }
    }

    /// Number of providers this run goes over.
    pub fn provider_count(&self) -> (r: usize)
        ensures
            r == self.provider_total(),
    {
        self.provider_count
    }

    /// Moves past the current provider.
    fn advance(&mut self) -> (step: CascadeStep)
        requires
            old(self).wf(),
        ensures
            (*final(self), step) == old(self).advanced(),
    {
        if self.current + 1 < self.provider_count {
            self.current = self.current + 1;
            self.acquiring = false;
            CascadeStep::CheckAvailability(self.current)
        } else {
            let error = match self.last_error.take() {
                Some(e) => e,
                None => IdentityError::NoProviderAvailable,
            };
            CascadeStep::Finished(Err(error))
        }
    }

    /// The current provider reports whether it is available: an available
    /// one is asked for an identity, an unavailable one is skipped.
    ///
    /// The run moves forward only: an identity request goes to the provider
    /// just found available, an availability check to the next provider.
    /// Whatever the providers' responses, the run either finishes with the
    /// result it had pending or keeps that result pending.
    pub fn on_availability(&mut self, available: bool) -> (step: CascadeStep)
        requires
            old(self).wf(),
            !old(self).is_acquiring(),
        ensures
            (*final(self), step) == old(self).after_availability(available),
            final(self).provider_total() == old(self).provider_total(),
            step matches CascadeStep::Acquire(i) ==> i == old(self).position() && final(self).position() == i && final(self).is_acquiring() && final(self).wf(),
            step matches CascadeStep::CheckAvailability(i) ==> i == old(self).position() + 1
                && final(self).position() == i && !final(self).is_acquiring() && final(self).wf(),
            forall|av: Seq<bool>, ans: Seq<Result<WorkloadIdentity, IdentityError>>|
                av.len() == old(self).provider_total() && ans.len() == old(self).provider_total()
                    && av[old(self).position() as int] == available ==> {
                    &&& step matches CascadeStep::Finished(res) ==> res == #[trigger] old(self).pending_result(av, ans)
                    &&& !(step is Finished) ==> final(self).pending_result(av, ans) == old(self).pending_result(av, ans)
                },
    {
        let ghost before = *self;
        let step = if available {
            self.acquiring = true;
            CascadeStep::Acquire(self.current)
        } else {
            self.advance()
        };
        proof {
            assert forall|av: Seq<bool>, ans: Seq<Result<WorkloadIdentity, IdentityError>>|
                av.len() == before.provider_total() && ans.len() == before.provider_total()
                    && av[before.position() as int] == available implies {
                &&& step matches CascadeStep::Finished(res) ==> res == #[trigger] before.pending_result(
                    av,
                    ans,
                )
                &&& !(step is Finished) ==> self.pending_result(av, ans) == before.pending_result(
                    av,
                    ans,
                )
            } by {
                lemma_step_keeps_result(before, av, ans);
            }
        }
        step
    }

    /// The current provider answers the request for an identity: an
    /// identity ends the run successfully, an error is remembered and the
    /// next provider is tried.
    ///
    /// The run moves forward only: after an error the next request is the
    /// next provider's availability check. Whatever the providers'
    /// responses, the run either finishes with the result it had pending or
    /// keeps that result pending.
    pub fn on_answer(&mut self, answer: Result<WorkloadIdentity, IdentityError>) -> (step:
        CascadeStep)
        requires
            old(self).wf(),
            old(self).is_acquiring(),
        ensures
            (*final(self), step) == old(self).after_answer(answer),
            final(self).provider_total() == old(self).provider_total(),
            !(step is Acquire),
            answer is Ok ==> step == CascadeStep::Finished(answer),
            step matches CascadeStep::CheckAvailability(i) ==> i == old(self).position() + 1
                && final(self).position() == i && !final(self).is_acquiring() && final(self).wf(),
            forall|av: Seq<bool>, ans: Seq<Result<WorkloadIdentity, IdentityError>>|
                av.len() == old(self).provider_total() && ans.len() == old(self).provider_total()
                    && ans[old(self).position() as int] == answer ==> {
                    &&& step matches CascadeStep::Finished(res) ==> res == #[trigger] old(self).pending_result(av, ans)
                    &&& !(step is Finished) ==> final(self).pending_result(av, ans) == old(self).pending_result(av, ans)
                },
    {
        let ghost before = *self;
        let ghost given = answer;
        let step = match answer {
            Ok(id) => CascadeStep::Finished(Ok(id)),
            Err(e) => {
                self.last_error = Some(e);
                self.advance()
            },
        };
        proof {
            assert forall|av: Seq<bool>, ans: Seq<Result<WorkloadIdentity, IdentityError>>|
                av.len() == before.provider_total() && ans.len() == before.provider_total()
                    && ans[before.position() as int] == given implies {
                &&& step matches CascadeStep::Finished(res) ==> res == #[trigger] before.pending_result(
                    av,
                    ans,
                )
                &&& !(step is Finished) ==> self.pending_result(av, ans) == before.pending_result(
                    av,
                    ans,
                )
            } by {
                lemma_step_keeps_result(before, av, ans);
            }
        }
        step
    }
}

/// A run that has just begun ends with the cascade's result over all
/// providers.
pub proof fn lemma_begin_pending(
    provider_count: usize,
    available: Seq<bool>,
    answers: Seq<Result<WorkloadIdentity, IdentityError>>,
)
    requires
        available.len() == provider_count,
    ensures
        CascadeRun::start(provider_count).0.pending_result(available, answers) == cascade_result(
            available,
            answers,
            0,
            None,
        ),
        provider_count == 0 ==> cascade_result(available, answers, 0, None) == Err::<
            WorkloadIdentity,
            IdentityError,
        >(IdentityError::NoProviderAvailable),
{
}

/// Every step keeps the result the run will end with: either the run
/// finishes with it, or the next state still has it pending. Providers are
/// visited in order, each at most once: an availability check moves to the
/// next index, an identity request goes to the provider just found
/// available.
pub proof fn lemma_step_keeps_result(
    run: CascadeRun,
    available: Seq<bool>,
    answers: Seq<Result<WorkloadIdentity, IdentityError>>,
)
    requires
        run.wf(),
        available.len() == run.provider_total(),
        answers.len() == run.provider_total(),
    ensures
        !run.is_acquiring() ==> {
            let (next, step) = run.after_availability(available[run.position() as int]);
            match step {
                CascadeStep::Finished(r) => r == run.pending_result(available, answers),
                CascadeStep::Acquire(i) => i == run.position() && i == next.position()
                    && next.wf() && next.pending_result(available, answers)
                    == run.pending_result(available, answers),
                CascadeStep::CheckAvailability(i) => i == run.position() + 1 && i
                    == next.position() && next.wf() && next.pending_result(available, answers)
                    == run.pending_result(available, answers),
            }
        },
        run.is_acquiring() ==> {
            let (next, step) = run.after_answer(answers[run.position() as int]);
            match step {
                CascadeStep::Finished(r) => r == run.pending_result(available, answers),
                CascadeStep::Acquire(_) => false,
                CascadeStep::CheckAvailability(i) => i == run.position() + 1 && i
                    == next.position() && next.wf() && next.pending_result(available, answers)
                    == run.pending_result(available, answers),
            }
        },
{
    let i = run.current as int;
    assert(cascade_result(available, answers, i + 1, run.last_error) == (if i + 1
        >= available.len() {
        Err(final_error(run.last_error))
    } else {
        cascade_result(available, answers, i + 1, run.last_error)
    }));
    if run.acquiring {
        match answers[i] {
            Ok(_) => {},
            Err(e) => {
                assert(cascade_result(available, answers, i + 1, Some(e)) == (if i + 1
                    >= available.len() {
                    Err(final_error(Some(e)))
                } else {
                    cascade_result(available, answers, i + 1, Some(e))
                }));
            },
        }
    }
}

/// The first provider that is available and answers with an identity
/// wins: earlier providers were unavailable or failed, later ones are not
/// asked.
pub proof fn lemma_first_success_wins(
    available: Seq<bool>,
    answers: Seq<Result<WorkloadIdentity, IdentityError>>,
    k: int,
)
    requires
        available.len() == answers.len(),
        0 <= k < available.len(),
        available[k],
        answers[k] is Ok,
        forall|j: int| 0 <= j < k ==> !available[j] || answers[j] is Err,
    ensures
        forall|i: int, last: Option<IdentityError>|
            0 <= i <= k ==> #[trigger] cascade_result(available, answers, i, last) == answers[k],
    decreases k,
{
    assert forall|i: int, last: Option<IdentityError>| 0 <= i <= k implies #[trigger] cascade_result(
        available,
        answers,
        i,
        last,
    ) == answers[k] by {
        lemma_success_from(available, answers, k, i, last);
    }
}

/// Helper for [`lemma_first_success_wins`], by induction on `k - i`.
proof fn lemma_success_from(
    available: Seq<bool>,
    answers: Seq<Result<WorkloadIdentity, IdentityError>>,
    k: int,
    i: int,
    last: Option<IdentityError>,
)
    requires
        available.len() == answers.len(),
        0 <= i <= k < available.len(),
        available[k],
        answers[k] is Ok,
        forall|j: int| 0 <= j < k ==> !available[j] || answers[j] is Err,
    ensures
        cascade_result(available, answers, i, last) == answers[k],
    decreases k - i,
{
    if i < k {
        if !available[i] {
            lemma_success_from(available, answers, k, i + 1, last);
        } else {
            lemma_success_from(available, answers, k, i + 1, Some(answers[i]->Err_0));
        }
    }
}

/// When no provider yields an identity, the run fails with the error of
/// the last available provider, or with `NoProviderAvailable` when none
/// was available.
pub proof fn lemma_no_success_last_error(
    available: Seq<bool>,
    answers: Seq<Result<WorkloadIdentity, IdentityError>>,
)
    requires
        available.len() == answers.len(),
        forall|j: int| 0 <= j < available.len() ==> !available[j] || answers[j] is Err,
    ensures
        (forall|j: int| 0 <= j < available.len() ==> !available[j]) ==> cascade_result(
            available,
            answers,
            0,
            None,
        ) == Err::<WorkloadIdentity, IdentityError>(IdentityError::NoProviderAvailable),
        forall|k: int|
            0 <= k < available.len() && available[k] && (forall|j: int|
                k < j < available.len() ==> !available[j]) ==> cascade_result(
                available,
                answers,
                0,
                None,
            ) == answers[k],
{
    lemma_failures_from(available, answers, 0, None);
}

/// The error a failing run ends with from index `i` on.
pub open spec fn last_failure_from(
    available: Seq<bool>,
    answers: Seq<Result<WorkloadIdentity, IdentityError>>,
    i: int,
    last: Option<IdentityError>,
) -> IdentityError
    decreases available.len() - i,
{
    if i < 0 || i >= available.len() {
        final_error(last)
    } else if !available[i] {
        last_failure_from(available, answers, i + 1, last)
    } else {
        last_failure_from(available, answers, i + 1, Some(answers[i]->Err_0))
    }
}

/// Helper for [`lemma_no_success_last_error`], by induction on the index.
proof fn lemma_failures_from(
    available: Seq<bool>,
    answers: Seq<Result<WorkloadIdentity, IdentityError>>,
    i: int,
    last: Option<IdentityError>,
)
    requires
        available.len() == answers.len(),
        0 <= i <= available.len(),
        forall|j: int| 0 <= j < available.len() ==> !available[j] || answers[j] is Err,
    ensures
        cascade_result(available, answers, i, last) == Err::<WorkloadIdentity, IdentityError>(
            last_failure_from(available, answers, i, last),
        ),
        (forall|j: int| i <= j < available.len() ==> !available[j]) ==> last_failure_from(
            available,
            answers,
            i,
            last,
        ) == final_error(last),
        forall|k: int|
            i <= k < available.len() && available[k] && (forall|j: int|
                k < j < available.len() ==> !available[j]) ==> Err::<WorkloadIdentity, IdentityError>(
                last_failure_from(available, answers, i, last),
            ) == answers[k],
    decreases available.len() - i,
{
    if i < available.len() {
        if !available[i] {
            lemma_failures_from(available, answers, i + 1, last);
        } else {
            lemma_failures_from(available, answers, i + 1, Some(answers[i]->Err_0));
        }
    }
}

/// Drives a run from `step` on, answering each request with the providers'
/// responses, for at most `fuel` requests: the requests made, in order, and
/// the result the run finished with (none if the fuel ran out first).
pub open spec fn drive(
    run: CascadeRun,
    step: CascadeStep,
    available: Seq<bool>,
    answers: Seq<Result<WorkloadIdentity, IdentityError>>,
    fuel: nat,
) -> (Seq<CascadeStep>, Option<Result<WorkloadIdentity, IdentityError>>)
    decreases fuel,
{
    match step {
        CascadeStep::Finished(r) => (Seq::empty(), Some(r)),
        CascadeStep::CheckAvailability(i) => {
            if fuel == 0 {
                (Seq::empty(), None)
            } else {
                let (next, following) = run.after_availability(available[i as int]);
                let (calls, r) = drive(next, following, available, answers, (fuel - 1) as nat);
                (seq![CascadeStep::CheckAvailability(i)] + calls, r)
            }
        },
        CascadeStep::Acquire(i) => {
            if fuel == 0 {
                (Seq::empty(), None)
            } else {
                let (next, following) = run.after_answer(answers[i as int]);
                let (calls, r) = drive(next, following, available, answers, (fuel - 1) as nat);
                (seq![CascadeStep::Acquire(i)] + calls, r)
            }
        },
    }
}

/// The requests a run makes from provider `i` on: each provider's
/// availability is checked in order; an available one is asked for an
/// identity; the run stops after the first identity it receives.
pub open spec fn expected_calls(
    available: Seq<bool>,
    answers: Seq<Result<WorkloadIdentity, IdentityError>>,
    i: int,
) -> Seq<CascadeStep>
    decreases available.len() - i,
{
    if i < 0 || i >= available.len() {
        Seq::empty()
    } else if !available[i] {
        seq![CascadeStep::CheckAvailability(i as usize)] + expected_calls(available, answers, i + 1)
    } else {
        match answers[i] {
            Ok(_) => seq![CascadeStep::CheckAvailability(i as usize), CascadeStep::Acquire(i as usize)],
            Err(_) => seq![CascadeStep::CheckAvailability(i as usize), CascadeStep::Acquire(i as usize)]
                + expected_calls(available, answers, i + 1),
        }
    }
}

/// A run over `provider_count` providers that is answered with the given
/// availabilities and identity answers makes exactly the requests of
/// [`expected_calls`] and finishes, within two requests per provider, with
/// [`cascade_result`] over all providers.
pub proof fn lemma_driver_run(
    provider_count: usize,
    available: Seq<bool>,
    answers: Seq<Result<WorkloadIdentity, IdentityError>>,
)
    requires
        available.len() == provider_count,
        answers.len() == provider_count,
    ensures
        drive(
            CascadeRun::start(provider_count).0,
            CascadeRun::start(provider_count).1,
            available,
            answers,
            2 * provider_count as nat,
        ) == (expected_calls(available, answers, 0), Some(cascade_result(available, answers, 0, None))),
{
    if provider_count > 0 {
        lemma_drive_from(
            CascadeRun::start(provider_count).0,
            available,
            answers,
            2 * provider_count as nat,
        );
    } else {
        assert(expected_calls(available, answers, 0) =~= Seq::<CascadeStep>::empty());
    }
}

/// Helper for [`lemma_driver_run`], by induction on the providers left.
proof fn lemma_drive_from(
    run: CascadeRun,
    available: Seq<bool>,
    answers: Seq<Result<WorkloadIdentity, IdentityError>>,
    fuel: nat,
)
    requires
        run.wf(),
        !run.acquiring,
        available.len() == run.provider_count,
        answers.len() == run.provider_count,
        fuel >= 2 * (run.provider_count - run.current),
    ensures
        drive(run, CascadeStep::CheckAvailability(run.current), available, answers, fuel) == (
            expected_calls(available, answers, run.current as int),
            Some(cascade_result(available, answers, run.current as int, run.last_error)),
        ),
    decreases run.provider_count - run.current,
{
    let i = run.current as int;
    let n = run.provider_count as int;
    let check = CascadeStep::CheckAvailability(run.current);
    let (acq, acquire) = run.after_availability(available[i]);
    let (calls, r) = drive(acq, acquire, available, answers, (fuel - 1) as nat);
    assert(drive(run, check, available, answers, fuel) == (seq![check] + calls, r));
    if !available[i] {
        assert(cascade_result(available, answers, i, run.last_error) == cascade_result(
            available,
            answers,
            i + 1,
            run.last_error,
        ));
        if i + 1 < n {
            assert(acquire == CascadeStep::CheckAvailability(acq.current));
            assert(acq.current == i + 1 && !acq.acquiring && acq.last_error == run.last_error);
            lemma_drive_from(acq, available, answers, (fuel - 1) as nat);
        } else {
            assert(acquire == CascadeStep::Finished(
                Err::<WorkloadIdentity, IdentityError>(final_error(run.last_error)),
            ));
            assert(calls == Seq::<CascadeStep>::empty());
            assert(expected_calls(available, answers, i + 1) =~= Seq::<CascadeStep>::empty());
        }
        assert(seq![check] + expected_calls(available, answers, i + 1) =~= expected_calls(
            available,
            answers,
            i,
        ));
    } else {
        let acquire_step = CascadeStep::Acquire(run.current);
        assert(acquire == acquire_step);
        assert(acq.current == run.current && acq.acquiring && acq.last_error == run.last_error);
        let (next, following) = acq.after_answer(answers[i]);
        let (rest, r2) = drive(next, following, available, answers, (fuel - 2) as nat);
        assert(drive(acq, acquire, available, answers, (fuel - 1) as nat) == (
            seq![acquire_step] + rest,
            r2,
        ));
        match answers[i] {
            Ok(id) => {
                assert(following == CascadeStep::Finished(Ok::<WorkloadIdentity, IdentityError>(id)));
                assert(rest == Seq::<CascadeStep>::empty());
                assert(seq![check] + (seq![acquire_step] + Seq::<CascadeStep>::empty())
                    =~= expected_calls(available, answers, i));
            },
            Err(e) => {
                assert(cascade_result(available, answers, i, run.last_error) == cascade_result(
                    available,
                    answers,
                    i + 1,
                    Some(e),
                ));
                if i + 1 < n {
                    assert(following == CascadeStep::CheckAvailability(next.current));
                    assert(next.current == i + 1 && !next.acquiring && next.last_error == Some(e));
                    lemma_drive_from(next, available, answers, (fuel - 2) as nat);
                } else {
                    assert(following == CascadeStep::Finished(
                        Err::<WorkloadIdentity, IdentityError>(final_error(Some(e))),
                    ));
                    assert(rest == Seq::<CascadeStep>::empty());
                    assert(expected_calls(available, answers, i + 1)
                        =~= Seq::<CascadeStep>::empty());
                }
                assert(seq![check] + (seq![acquire_step] + expected_calls(
                    available,
                    answers,
                    i + 1,
                )) =~= expected_calls(available, answers, i));
            },
        }
    }
}

/// End to end: when the provider at `k` is the first one that is available
/// and yields an identity, a run finishes with exactly that identity,
/// having asked no provider after `k`.
pub proof fn lemma_driver_first_success(
    provider_count: usize,
    available: Seq<bool>,
    answers: Seq<Result<WorkloadIdentity, IdentityError>>,
    k: int,
)
    requires
        available.len() == provider_count,
        answers.len() == provider_count,
        0 <= k < provider_count,
        available[k],
        answers[k] is Ok,
        forall|j: int| 0 <= j < k ==> !available[j] || answers[j] is Err,
    ensures
        drive(
            CascadeRun::start(provider_count).0,
            CascadeRun::start(provider_count).1,
            available,
            answers,
            2 * provider_count as nat,
        ).1 == Some(answers[k]),
        forall|c: int|
            0 <= c < expected_calls(available, answers, 0).len() ==> match #[trigger] expected_calls(
                available,
                answers,
                0,
            )[c] {
                CascadeStep::CheckAvailability(j) => j <= k,
                CascadeStep::Acquire(j) => j <= k,
                CascadeStep::Finished(_) => false,
            },
{
    lemma_driver_run(provider_count, available, answers);
    lemma_first_success_wins(available, answers, k);
    assert(cascade_result(available, answers, 0, None) == answers[k]);
    lemma_calls_up_to(available, answers, k, 0);
}

/// Helper for [`lemma_driver_first_success`]: before the first success at
/// `k`, every request goes to a provider at or before `k`.
proof fn lemma_calls_up_to(
    available: Seq<bool>,
    answers: Seq<Result<WorkloadIdentity, IdentityError>>,
    k: int,
    i: int,
)
    requires
        available.len() == answers.len(),
        0 <= i <= k < available.len(),
        available.len() <= usize::MAX,
        available[k],
        answers[k] is Ok,
    ensures
        forall|c: int|
            0 <= c < expected_calls(available, answers, i).len() ==> match #[trigger] expected_calls(
                available,
                answers,
                i,
            )[c] {
                CascadeStep::CheckAvailability(j) => i <= j <= k,
                CascadeStep::Acquire(j) => i <= j <= k,
                CascadeStep::Finished(_) => false,
            },
    decreases k - i,
{
    if i < k {
        lemma_calls_up_to(available, answers, k, i + 1);
    }
    let calls = expected_calls(available, answers, i);
    let rest = expected_calls(available, answers, i + 1);
    assert forall|c: int| 0 <= c < calls.len() implies match #[trigger] calls[c] {
        CascadeStep::CheckAvailability(j) => i <= j <= k,
        CascadeStep::Acquire(j) => i <= j <= k,
        CascadeStep::Finished(_) => false,
    } by {
        if !available[i] {
            if c > 0 {
                assert(calls[c] == rest[c - 1]);
            }
        } else if answers[i] is Err {
            if c > 1 {
                assert(calls[c] == rest[c - 2]);
            }
        }
    }
}

/// End to end: when no provider yields an identity, a run fails with the
/// error of the last available provider, or with `NoProviderAvailable`
/// when none was available.
pub proof fn lemma_driver_no_success(
    provider_count: usize,
    available: Seq<bool>,
    answers: Seq<Result<WorkloadIdentity, IdentityError>>,
)
    requires
        available.len() == provider_count,
        answers.len() == provider_count,
        forall|j: int| 0 <= j < provider_count ==> !available[j] || answers[j] is Err,
    ensures
        (forall|j: int| 0 <= j < provider_count ==> !available[j]) ==> drive(
            CascadeRun::start(provider_count).0,
            CascadeRun::start(provider_count).1,
            available,
            answers,
            2 * provider_count as nat,
        ).1 == Some(Err::<WorkloadIdentity, IdentityError>(IdentityError::NoProviderAvailable)),
        forall|m: int|
            0 <= m < provider_count && available[m] && (forall|j: int|
                m < j < provider_count ==> !available[j]) ==> drive(
                CascadeRun::start(provider_count).0,
                CascadeRun::start(provider_count).1,
                available,
                answers,
                2 * provider_count as nat,
            ).1 == Some(#[trigger] answers[m]),
{
    lemma_driver_run(provider_count, available, answers);
    lemma_no_success_last_error(available, answers);
}

} // verus!
