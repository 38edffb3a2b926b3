use vstd::prelude::*;

verus! {

/// How many health requests are made before the server is declared not ready.
pub const MAX_ATTEMPTS: u32 = 80;

/// The pause between two health requests, in milliseconds.
pub const POLL_INTERVAL_MS: u64 = 500;

/// A response to a health request counts as healthy when it carries a status below 500.
/// `None` stands for a request that got no response (refused connection, timeout).
pub open spec fn healthy(status: Option<u16>) -> bool {
    match status {
        Some(code) => code < 500,
        None => false,
    }
}

/// What the poller does after one health response.
#[derive(Clone, Copy, Debug, PartialEq, Eq, Structural)]
pub enum PollStep {
    /// The server answered: it is ready.
    Healthy,
    /// Not ready yet: wait one interval and ask again.
    Retry,
    /// The attempt budget is spent: the server is not ready.
    TimedOut,
}

/// The step after the response to attempt number `attempt` (counted from 0).
pub open spec fn step_spec(attempt: nat, status: Option<u16>) -> PollStep {
    if healthy(status) {
        PollStep::Healthy
    } else if attempt + 1 >= MAX_ATTEMPTS {
        PollStep::TimedOut
    } else {
        PollStep::Retry
    }
}

/// The verdict of a poll that has seen the responses `rs`, the first of them to attempt
/// `attempt`: `Some(true)` once healthy, `Some(false)` once timed out, `None` while polling.
pub open spec fn verdict_from(attempt: nat, rs: Seq<Option<u16>>) -> Option<bool>
    decreases rs.len(),
{
    if rs.len() == 0 {
        None
    } else {
        match step_spec(attempt, rs[0]) {
            PollStep::Healthy => Some(true),
            PollStep::TimedOut => Some(false),
            PollStep::Retry => verdict_from(attempt + 1, rs.drop_first()),
        }
    }
}

/// Classifies one health response.
pub fn is_healthy(status: Option<u16>) -> (r: bool)
    ensures
        r == healthy(status),
{
    match status {
        Some(code) => code < 500,
        None => false,
    }
}

/// Decides what follows the response to attempt number `attempt`.
pub fn poll_step(attempt: u32, status: Option<u16>) -> (r: PollStep)
    requires
        attempt < MAX_ATTEMPTS,
    ensures
        r == step_spec(attempt as nat, status),
{
    if is_healthy(status) {
        PollStep::Healthy
    } else if attempt + 1 >= MAX_ATTEMPTS {
        PollStep::TimedOut
    } else {
        PollStep::Retry
    }
}

/// Polls a health endpoint: fed one response per attempt, it says when to stop.
pub struct HealthPoller {
    attempts: u32,
    finished: bool,
}

impl HealthPoller {
    /// The number of responses recorded.
    pub closed spec fn attempts_spec(&self) -> nat {
        self.attempts as nat
    }

    /// Whether a verdict was reached.
    pub closed spec fn finished_spec(&self) -> bool {
        self.finished
    }

    /// Well-formed: the attempt count stays within budget, and an unfinished poller has
    /// attempts left.
    pub closed spec fn wf(&self) -> bool {
        self.attempts <= MAX_ATTEMPTS && (!self.finished ==> self.attempts < MAX_ATTEMPTS)
    }

    /// A poller that has made no attempt.
    pub fn new() -> (r: HealthPoller)
        ensures
            r.wf(),
            r.attempts_spec() == 0,
            !r.finished_spec(),
    {
        HealthPoller { attempts: 0, finished: false }
    }

    /// The number of responses recorded.
    pub fn attempts(&self) -> (r: u32)
        ensures
            r as nat == self.attempts_spec(),
    {
        self.attempts
    }

    /// Whether a verdict was reached.
    pub fn is_finished(&self) -> (r: bool)
        ensures
            r == self.finished_spec(),
    {
        self.finished
    }

    /// Records the response to the next attempt and says what follows.
    pub fn record(&mut self, status: Option<u16>) -> (r: PollStep)
        requires
            old(self).wf(),
            !old(self).finished_spec(),
        ensures
            final(self).wf(),
            r == step_spec(old(self).attempts_spec(), status),
            final(self).attempts_spec() == old(self).attempts_spec() + 1,
            final(self).finished_spec() == (r != PollStep::Retry),
    {
        let r = poll_step(self.attempts, status);
        self.attempts = self.attempts + 1;
        self.finished = r != PollStep::Retry;
        r
    }
}

/// A poll ends healthy at the first response below 500 within the budget, and otherwise
/// ends not ready once the budget of attempts is spent: refused connections are retried,
/// never fatal.
pub proof fn lemma_poll_verdict(attempt: nat, rs: Seq<Option<u16>>)
    requires
        attempt < MAX_ATTEMPTS,
    ensures
        (exists|i: int|
            0 <= i < rs.len() && attempt + i < MAX_ATTEMPTS && healthy(#[trigger] rs[i]) && forall|
                j: int,
            | 0 <= j < i ==> !healthy(#[trigger] rs[j])) ==> verdict_from(attempt, rs) == Some(
            true,
        ),
        (rs.len() + attempt >= MAX_ATTEMPTS && forall|j: int|
            0 <= j < MAX_ATTEMPTS - attempt ==> !healthy(#[trigger] rs[j])) ==> verdict_from(
            attempt,
            rs,
        ) == Some(false),
    decreases rs.len(),
{
    if rs.len() > 0 && !healthy(rs[0]) && attempt + 1 < MAX_ATTEMPTS {
        lemma_poll_verdict(attempt + 1, rs.drop_first());
        if exists|i: int|
            0 <= i < rs.len() && attempt + i < MAX_ATTEMPTS && healthy(#[trigger] rs[i]) && forall|
                j: int,
            | 0 <= j < i ==> !healthy(#[trigger] rs[j]) {
            let i = choose|i: int|
                0 <= i < rs.len() && attempt + i < MAX_ATTEMPTS && healthy(#[trigger] rs[i])
                    && forall|j: int| 0 <= j < i ==> !healthy(#[trigger] rs[j]);
            let t = rs.drop_first();
            assert(i > 0);
            assert(healthy(t[i - 1]));
            assert forall|j: int| 0 <= j < i - 1 implies !healthy(#[trigger] t[j]) by {
                assert(t[j] == rs[j + 1]);
            }
        }
        if rs.len() + attempt >= MAX_ATTEMPTS && forall|j: int|
            0 <= j < MAX_ATTEMPTS - attempt ==> !healthy(#[trigger] rs[j]) {
            let t = rs.drop_first();
            assert forall|j: int| 0 <= j < MAX_ATTEMPTS - (attempt + 1) implies !healthy(
                #[trigger] t[j],
            ) by {
                assert(t[j] == rs[j + 1]);
            }
        }
    } else if rs.len() > 0 && !healthy(rs[0]) {
        if exists|i: int|
            0 <= i < rs.len() && attempt + i < MAX_ATTEMPTS && healthy(#[trigger] rs[i]) && forall|
                j: int,
            | 0 <= j < i ==> !healthy(#[trigger] rs[j]) {
            let i = choose|i: int|
                0 <= i < rs.len() && attempt + i < MAX_ATTEMPTS && healthy(#[trigger] rs[i])
                    && forall|j: int| 0 <= j < i ==> !healthy(#[trigger] rs[j]);
            assert(i > 0);
        }
    } else if rs.len() > 0 {
        if rs.len() + attempt >= MAX_ATTEMPTS && forall|j: int|
            0 <= j < MAX_ATTEMPTS - attempt ==> !healthy(#[trigger] rs[j]) {
            assert(!healthy(rs[0]));
        }
    }
}

} // verus!
