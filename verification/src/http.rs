//! Fetching a page with retries, as a state machine.
//!
//! `fetch_with_retry` starts the machine for a URL and a number of
//! attempts: the page is requested; after each failure `FetchRetrying` is
//! reported with the attempt number, and unless it was the last attempt
//! the machine waits three seconds and tries again. After the last failure
//! the fetch fails with "failed to get thread after N attempts".

use vstd::prelude::*;
use crate::backend::{Action, Reply, RETRY_WAIT_SECS};
use crate::events::Event;
use crate::text::{chars_of, decimal, decimal_chars, extend_chars, extend_str, string_of};

verus! {

/// Where a fetch is.
#[derive(Clone, Copy, PartialEq, Eq, Structural, Debug)]
pub enum FetchPhase {
    Begin,
    Get,
    Retrying,
    Sleeping,
    Finished,
}

/// The state of a fetch.
pub struct FetchRetry {
    pub url: String,
    /// How many requests may be made.
    pub attempts: u32,
    /// The number of the current request, from 1.
    pub attempt: u32,
    pub phase: FetchPhase,
}

/// What a step of a fetch leads to: an action for the driver, or the end
/// with the page text or the failure's text.
pub enum FetchStep {
    Ask(Action),
    Done(Result<String, String>),
}

/// The text of a fetch that failed every attempt.
pub open spec fn fetch_failure(attempts: u32) -> Seq<char> {
    "failed to get thread after "@ + decimal(attempts as nat) + " attempts"@
}

/// The reply is the kind that the phase waits for.
pub open spec fn fetch_expects(phase: FetchPhase, r: Reply) -> bool {
    match phase {
        FetchPhase::Begin => r is Start,
        FetchPhase::Get => r is Got,
        FetchPhase::Retrying | FetchPhase::Sleeping => r is Done,
        FetchPhase::Finished => false,
    }
}

/// No request is made before the start; requests are numbered from 1 up to
/// the number of attempts, and a wait only follows a failure that was not
/// the last attempt.
pub open spec fn fetch_wf(m: FetchRetry) -> bool {
    &&& (m.phase == FetchPhase::Get || m.phase == FetchPhase::Retrying || m.phase
        == FetchPhase::Sleeping) ==> 1 <= m.attempt <= m.attempts
    &&& m.phase == FetchPhase::Sleeping ==> m.attempt < m.attempts
    &&& m.phase == FetchPhase::Begin ==> m.attempt == 0
}

/// The fetch fails with the text of every attempt having failed.
pub open spec fn fetch_gives_up(m: FetchRetry, t: FetchRetry, st: FetchStep) -> bool {
    &&& t == FetchRetry { phase: FetchPhase::Finished, ..m }
    &&& st matches FetchStep::Done(Err(e))
    &&& e@ == fetch_failure(m.attempts)
}

/// One step of a fetch, from the state `m` and the reply `r` to the state
/// `t` and what the step leads to.
pub open spec fn fetch_step(m: FetchRetry, r: Reply, t: FetchRetry, st: FetchStep) -> bool {
    match m.phase {
        FetchPhase::Begin => if m.attempts == 0 {
            fetch_gives_up(m, t, st)
        } else {
            &&& t == FetchRetry { phase: FetchPhase::Get, attempt: 1, ..m }
            &&& st matches FetchStep::Ask(Action::Get(u))
            &&& u@ == m.url@
        },
        FetchPhase::Get => match r {
            Reply::Got(Ok(text)) => {
                &&& t == FetchRetry { phase: FetchPhase::Finished, ..m }
                &&& st == FetchStep::Done(Ok(text))
            },
            Reply::Got(Err(msg)) => {
                &&& t == FetchRetry { phase: FetchPhase::Retrying, ..m }
                &&& st matches FetchStep::Ask(
                    Action::Report(Event::FetchRetrying { url, attempt, max_attempts, error }),
                )
                &&& url@ == m.url@
                &&& attempt == m.attempt
                &&& max_attempts == m.attempts
                &&& error@ == msg@
            },
            _ => false,
        },
        FetchPhase::Retrying => if m.attempt < m.attempts {
            &&& t == FetchRetry { phase: FetchPhase::Sleeping, ..m }
            &&& st == FetchStep::Ask(Action::Sleep(RETRY_WAIT_SECS))
        } else {
            fetch_gives_up(m, t, st)
        },
        FetchPhase::Sleeping => {
            &&& t == FetchRetry { phase: FetchPhase::Get, attempt: (m.attempt + 1) as u32, ..m }
            &&& st matches FetchStep::Ask(Action::Get(u))
            &&& u@ == m.url@
        },
        FetchPhase::Finished => false,
    }
}

/// Every failure a fetch reports is numbered from 1 up to the number of
/// attempts, which it reports too, and a fetch ends only with the page or
/// after its last attempt.
pub proof fn lemma_fetch_reports_in_range(m: FetchRetry, r: Reply, t: FetchRetry, st: FetchStep)
    requires
        fetch_wf(m),
        fetch_step(m, r, t, st),
    ensures
        fetch_wf(t),
        t.url == m.url,
        t.attempts == m.attempts,
        st matches FetchStep::Ask(Action::Report(Event::FetchRetrying { attempt, max_attempts, .. }))
            ==> 1 <= attempt <= max_attempts && max_attempts == m.attempts,
        st matches FetchStep::Done(Err(_)) ==> m.attempt == m.attempts,
{
}

/// The number of requests among the steps of a fetch.
pub open spec fn requests(steps: Seq<FetchStep>) -> nat
    decreases steps.len(),
{
    if steps.len() == 0 {
        0
    } else {
        requests(steps.drop_last()) + if steps.last() matches FetchStep::Ask(Action::Get(_)) {
            1nat
        } else {
            0nat
        }
    }
}

/// `ms` are the states of a fetch that took the replies `replies` and made
/// the steps `steps`, one after the other.
pub open spec fn fetch_trace(ms: Seq<FetchRetry>, replies: Seq<Reply>, steps: Seq<FetchStep>) -> bool {
    &&& ms.len() == replies.len() + 1
    &&& steps.len() == replies.len()
    &&& forall|i: int|
        0 <= i < replies.len() ==> #[trigger] fetch_step(ms[i], replies[i], ms[i + 1], steps[i])
}

/// Over a whole fetch from its start: the attempt number is always the
/// number of requests made so far; each failure is reported with the
/// number of the request that failed and the number of attempts; the fetch
/// gives up only after as many requests as attempts, and when a request
/// brings the page, the fetch ends with exactly that page.
pub proof fn lemma_fetch_trace(ms: Seq<FetchRetry>, replies: Seq<Reply>, steps: Seq<FetchStep>)
    requires
        fetch_trace(ms, replies, steps),
        ms[0].phase == FetchPhase::Begin,
        fetch_wf(ms[0]),
    ensures
        forall|i: int|
            0 <= i <= replies.len() ==> fetch_wf(#[trigger] ms[i]) && ms[i].attempt == requests(
                steps.take(i),
            ) && ms[i].attempts == ms[0].attempts && ms[i].url == ms[0].url,
        forall|i: int|
            0 <= i < replies.len() ==> (#[trigger] steps[i] matches FetchStep::Ask(
                Action::Report(Event::FetchRetrying { attempt, max_attempts, .. }),
            ) ==> attempt == requests(steps.take(i)) && max_attempts == ms[0].attempts),
        forall|i: int|
            0 <= i < replies.len() ==> (#[trigger] steps[i] matches FetchStep::Done(Err(_))
                ==> requests(steps.take(i)) == ms[0].attempts),
        forall|i: int|
            0 <= i < replies.len() ==> (#[trigger] steps[i] matches FetchStep::Done(Ok(text))
                ==> replies[i] == Reply::Got(Ok(text))),
    decreases replies.len(),
{
    let n = replies.len() as int;
    if n > 0 {
        let ms2 = ms.drop_last();
        let rs2 = replies.drop_last();
        let st2 = steps.drop_last();
        assert(fetch_trace(ms2, rs2, st2)) by {
            assert forall|i: int| 0 <= i < rs2.len() implies #[trigger] fetch_step(
                ms2[i],
                rs2[i],
                ms2[i + 1],
                st2[i],
            ) by {
                assert(fetch_step(ms[i], replies[i], ms[i + 1], steps[i]));
            }
        }
        lemma_fetch_trace(ms2, rs2, st2);
        let k = n - 1;
        assert(fetch_step(ms[k], replies[k], ms[k + 1], steps[k]));
        assert(ms[k] == ms2[k]);
        assert(fetch_wf(ms2[k]));
        assert(steps.take(k) == st2.take(k));
        assert(steps.take(n).drop_last() == steps.take(k));
        lemma_fetch_reports_in_range(ms[k], replies[k], ms[k + 1], steps[k]);
        assert forall|i: int| 0 <= i <= n implies fetch_wf(#[trigger] ms[i]) && ms[i].attempt
            == requests(steps.take(i)) && ms[i].attempts == ms[0].attempts && ms[i].url
            == ms[0].url by {
            if i < n {
                assert(ms[i] == ms2[i]);
                assert(steps.take(i) == st2.take(i));
            }
        }
        assert forall|i: int| 0 <= i < n implies (#[trigger] steps[i] matches FetchStep::Ask(
            Action::Report(Event::FetchRetrying { attempt, max_attempts, .. }),
        ) ==> attempt == requests(steps.take(i)) && max_attempts == ms[0].attempts) by {
            if i < k {
                assert(steps[i] == st2[i]);
                assert(steps.take(i) == st2.take(i));
            }
        }
        assert forall|i: int| 0 <= i < n implies (#[trigger] steps[i] matches FetchStep::Done(Err(_))
            ==> requests(steps.take(i)) == ms[0].attempts) by {
            if i < k {
                assert(steps[i] == st2[i]);
                assert(steps.take(i) == st2.take(i));
            }
        }
        assert forall|i: int| 0 <= i < n implies (#[trigger] steps[i] matches FetchStep::Done(Ok(text))
            ==> replies[i] == Reply::Got(Ok(text))) by {
            if i < k {
                assert(steps[i] == st2[i]);
                assert(replies[i] == rs2[i]);
            }
        }
    } else {
        assert(steps.take(0) =~= Seq::<FetchStep>::empty());
    }
}

fn fetch_failure_text(attempts: u32) -> (r: String)
    ensures
        r@ == fetch_failure(attempts),
{
    let mut v: Vec<char> = Vec::new();
    extend_str(&mut v, "failed to get thread after ");
    extend_chars(&mut v, &decimal_chars(attempts as u64));
    extend_str(&mut v, " attempts");
    string_of(&v)
}

fn copy_string(s: &String) -> (r: String)
    ensures
        r@ == s@,
{
    string_of(&chars_of(s.as_str()))
}

/// Starts a fetch of `url` that may make `attempts` requests; nothing has
/// been done yet.
pub fn fetch_with_retry(url: &str, attempts: u32) -> (m: FetchRetry)
    ensures
        m.url@ == url@,
        m.attempts == attempts,
        m.attempt == 0,
        m.phase == FetchPhase::Begin,
        fetch_wf(m),
{
    FetchRetry { url: string_of(&chars_of(url)), attempts, attempt: 0, phase: FetchPhase::Begin }
}

impl FetchRetry {
    /// Advances the fetch by one step (see `fetch_step`). It is driven from
    /// `fetch_with_retry` with `Reply::Start` until it is `Done`.
    pub fn step(&mut self, reply: Reply) -> (st: FetchStep)
        requires
            fetch_wf(*old(self)),
            fetch_expects(old(self).phase, reply),
        ensures
            fetch_step(*old(self), reply, *final(self), st),
            fetch_wf(*final(self)),
    {
        match self.phase {
            FetchPhase::Begin => {
                if self.attempts == 0 {
                    self.phase = FetchPhase::Finished;
                    FetchStep::Done(Err(fetch_failure_text(self.attempts)))
                } else {
                    self.phase = FetchPhase::Get;
                    self.attempt = 1;
                    FetchStep::Ask(Action::Get(copy_string(&self.url)))
                }
            },
            FetchPhase::Get => match reply {
                Reply::Got(Ok(text)) => {
                    self.phase = FetchPhase::Finished;
                    FetchStep::Done(Ok(text))
                },
                Reply::Got(Err(msg)) => {
                    self.phase = FetchPhase::Retrying;
                    FetchStep::Ask(
                        Action::Report(
                            Event::FetchRetrying {
                                url: copy_string(&self.url),
                                attempt: self.attempt,
                                max_attempts: self.attempts,
                                error: msg,
                            },
                        ),
                    )
                },
                _ => {
                    proof {
                        assert(false);
                    }
                    FetchStep::Done(Err(String::new()))
                },
            },
            FetchPhase::Retrying => {
                if self.attempt < self.attempts {
                    self.phase = FetchPhase::Sleeping;
                    FetchStep::Ask(Action::Sleep(RETRY_WAIT_SECS))
                } else {
                    self.phase = FetchPhase::Finished;
                    FetchStep::Done(Err(fetch_failure_text(self.attempts)))
                }
            },
            FetchPhase::Sleeping => {
                self.phase = FetchPhase::Get;
                self.attempt = self.attempt + 1;
                FetchStep::Ask(Action::Get(copy_string(&self.url)))
            },
            FetchPhase::Finished => {
                proof {
                    assert(false);
                }
                FetchStep::Done(Err(String::new()))
            },
        }
    }
}

} // verus!
