//! Bounded health-check polling: a fixed attempt budget at a fixed interval,
//! where a success-class HTTP response or a not-found response counts as
//! alive, and connection failures merely consume an attempt.

use vstd::prelude::*;

verus! {

/// How many polls are made before the health check gives up.
pub const HEALTH_ATTEMPTS: u32 = 30;

/// Milliseconds the driver sleeps before each poll.
pub const HEALTH_POLL_INTERVAL_MS: u32 = 500;

/// An HTTP status that counts as "server is up": any success-class response,
/// or not-found (the route exists but holds no data yet).
pub open spec fn status_alive(status: u16) -> bool {
    (200 <= status < 300) || status == 404
}

/// One poll outcome: `None` is a connection failure or timeout, `Some` the
/// HTTP status received.
pub open spec fn response_alive(r: Option<u16>) -> bool {
    r is Some && status_alive(r->Some_0)
}

/// Classify one poll outcome.
pub fn response_ok(response: &Option<u16>) -> (r: bool)
    ensures
        r == response_alive(*response),
{
    match response {
        Some(status) => (200 <= *status && *status < 300) || *status == 404,
        None => false,
    }
}

#[derive(Clone, Copy, Debug, PartialEq, Eq)]
pub enum HealthVerdict {
    /// The backend answered: it is up.
    Up,
    /// Not up yet and budget remains: poll again after the interval.
    Poll,
    /// The attempt budget is exhausted.
    TimedOut,
}

/// The polling loop's state: how many attempts were consumed.
#[derive(Clone, Copy, Debug, PartialEq, Eq)]
pub struct HealthCheck {
    pub attempts: u32,
}

/// What one poll outcome does to the check.
pub open spec fn health_step(st: HealthCheck, response: Option<u16>) -> (HealthCheck, HealthVerdict) {
    if response_alive(response) {
        (st, HealthVerdict::Up)
    } else if st.attempts + 1 < HEALTH_ATTEMPTS {
        (HealthCheck { attempts: (st.attempts + 1) as u32 }, HealthVerdict::Poll)
    } else {
        (st, HealthVerdict::TimedOut)
    }
}

impl HealthCheck {
    /// A fresh check with the whole attempt budget.
    pub fn new() -> (r: Self)
        ensures
            r.attempts == 0,
    {
        HealthCheck { attempts: 0 }
    }

    /// Consume one poll outcome. The driver keeps polling while this returns
    /// `Poll`, sleeping the fixed interval before each request.
    pub fn observe(&mut self, response: Option<u16>) -> (v: HealthVerdict)
        requires
            old(self).attempts < HEALTH_ATTEMPTS,
        ensures
            *final(self) == health_step(*old(self), response).0,
            v == health_step(*old(self), response).1,
            final(self).attempts < HEALTH_ATTEMPTS,
    {
        if response_ok(&response) {
            HealthVerdict::Up
        } else if self.attempts + 1 < HEALTH_ATTEMPTS {
            self.attempts = self.attempts + 1;
            HealthVerdict::Poll
        } else {
            HealthVerdict::TimedOut
        }
    }
}

/// The verdict after feeding a sequence of poll outcomes, polling while the
/// budget lasts; `Poll` when the outcomes ran out with the check still
/// pending.
pub open spec fn run_health(st: HealthCheck, responses: Seq<Option<u16>>) -> HealthVerdict
    decreases responses.len(),
{
    if responses.len() == 0 {
        HealthVerdict::Poll
    } else {
        let stepped = health_step(st, responses[0]);
        if stepped.1 == HealthVerdict::Poll {
            run_health(stepped.0, responses.skip(1))
        } else {
            stepped.1
        }
    }
}

/// Law: an alive first response ends the check immediately, whatever budget
/// remains.
pub proof fn lemma_health_first_alive(st: HealthCheck, responses: Seq<Option<u16>>)
    requires
        responses.len() > 0,
        response_alive(responses[0]),
    ensures
        run_health(st, responses) == HealthVerdict::Up,
{
}

/// Law: when no response is ever alive and the outcomes cover the remaining
/// budget exactly, the check times out.
pub proof fn lemma_health_all_dead(st: HealthCheck, responses: Seq<Option<u16>>)
    requires
        st.attempts < HEALTH_ATTEMPTS,
        st.attempts + responses.len() == HEALTH_ATTEMPTS,
        forall|i: int| 0 <= i < responses.len() ==> !response_alive(#[trigger] responses[i]),
    ensures
        run_health(st, responses) == HealthVerdict::TimedOut,
    decreases responses.len(),
{
    assert(!response_alive(responses[0]));
    if st.attempts + 1 < HEALTH_ATTEMPTS {
        let st2 = HealthCheck { attempts: (st.attempts + 1) as u32 };
        let rest = responses.skip(1);
        assert(forall|i: int|
            0 <= i < rest.len() ==> !response_alive(#[trigger] rest[i]) && rest[i] == responses[i
                + 1]);
        lemma_health_all_dead(st2, rest);
    }
}

} // verus!
