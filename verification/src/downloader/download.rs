//! Retrying downloads.
//!
//! A download is tried up to a given number of times. Before every attempt
//! but the first the downloader waits, twice as long each time (500 ms
//! times two to the attempt number). A client error (status 4xx) ends the
//! download at once, a server error (any other status) is retried, and any
//! other failure ends it with that failure.

use vstd::prelude::*;
use crate::error::Error;
use crate::text::{chars_of, string_of};
use vstd::arithmetic::power2::pow2;

verus! {

/// How a failed attempt is treated.
pub enum Failure {
    /// The server refused the request (status 4xx): stop with this status.
    Client(u16),
    /// The server failed (any other status): try again.
    Retry,
    /// The request failed without a status: stop with that failure.
    Fatal,
}

/// How a failed attempt with the given status (if the failure had one) is
/// treated.
pub open spec fn spec_classify(status: Option<u16>) -> Failure {
    match status {
        Some(code) => if 400 <= code && code < 500 {
            Failure::Client(code)
        } else {
            Failure::Retry
        },
        None => Failure::Fatal,
    }
}

/// How a failed attempt is treated, from the status it came with.
pub fn classify(status: Option<u16>) -> (f: Failure)
    ensures
        f == spec_classify(status),
{
    match status {
        Some(code) => if 400 <= code && code < 500 {
            Failure::Client(code)
        } else {
            Failure::Retry
        },
        None => Failure::Fatal,
    }
}

/// The wait before an attempt, in milliseconds: none before the first
/// attempt, 500 times two to the attempt number before the others.
pub open spec fn backoff_ms(attempt: nat) -> nat {
    if attempt == 0 {
        0
    } else {
        500 * pow2(attempt)
    }
}

/// The wait before an attempt.
pub fn backoff(attempt: u32) -> (ms: u64)
    requires
        attempt <= 55,
    ensures
        ms == backoff_ms(attempt as nat),
{
    if attempt == 0 {
        return 0;
    }
    let mut p: u64 = 1;
    let mut k: u32 = 0;
    proof {
        vstd::arithmetic::power2::lemma2_to64();
    }
    while k < attempt
        invariant
            k <= attempt <= 55,
            p == pow2(k as nat),
        decreases attempt - k,
    {
        proof {
            vstd::arithmetic::power2::lemma_pow2_unfold((k + 1) as nat);
            vstd::arithmetic::power2::lemma_pow2_strictly_increases(k as nat, 55);
            vstd::arithmetic::power2::lemma2_to64();
        }
        assert(pow2(55) == 0x80000000000000) by {
            vstd::arithmetic::power2::lemma2_to64_rest();
        }
        p = p * 2;
        k = k + 1;
    }
    proof {
        vstd::arithmetic::power2::lemma_pow2_pos(attempt as nat);
        if attempt < 55 {
            vstd::arithmetic::power2::lemma_pow2_strictly_increases(attempt as nat, 55);
        }
        vstd::arithmetic::power2::lemma2_to64_rest();
    }
    500 * p
}

/// What the downloader does next.
pub enum Attempt {
    /// Wait this long, then make the request.
    Call { delay_ms: u64 },
    /// Stop with this error.
    GiveUp(Error),
}

/// The state of a retrying download.
pub struct DownloadRetry {
    /// The URL being downloaded.
    pub url: String,
    /// How many attempts may be made.
    pub tries: u32,
    /// How many attempts were made.
    pub attempt: u32,
}

impl DownloadRetry {
    /// A download of `url` that may be tried `tries` times; no attempt made
    /// yet.
    pub fn new(url: &str, tries: u32) -> (d: DownloadRetry)
        ensures
            d.url@ == url@,
            d.tries == tries,
            d.attempt == 0,
    {
        DownloadRetry { url: string_of(&chars_of(url)), tries, attempt: 0 }
    }

    /// The next attempt: a request after the backoff wait while attempts are
    /// left, else `DownloadFailed` with the URL and the number of tries.
    /// The wait overflows past attempt 55, so no attempt beyond it is asked
    /// for.
    pub fn next_attempt(&mut self) -> (a: Attempt)
        requires
            old(self).attempt <= old(self).tries,
            old(self).attempt < old(self).tries ==> old(self).attempt <= 55,
        ensures
            final(self).url == old(self).url,
            final(self).tries == old(self).tries,
            old(self).attempt < old(self).tries ==> {
                &&& final(self).attempt == old(self).attempt + 1
                &&& a matches Attempt::Call { delay_ms }
                &&& delay_ms == backoff_ms(old(self).attempt as nat)
            },
            old(self).attempt == old(self).tries ==> {
                &&& final(self).attempt == old(self).attempt
                &&& a matches Attempt::GiveUp(Error::DownloadFailed { url, tries })
                &&& url@ == old(self).url@
                &&& tries == old(self).tries
            },
    {
        if self.attempt < self.tries {
            let delay_ms = backoff(self.attempt);
            self.attempt = self.attempt + 1;
            Attempt::Call { delay_ms }
        } else {
            Attempt::GiveUp(
                Error::DownloadFailed { url: string_of(&chars_of(self.url.as_str())), tries: self.tries },
            )
        }
    }

    /// What a failed attempt leads to, given the failure and the HTTP
    /// status it carries (`ureq::Error::StatusCode`), if any: `None` to go
    /// on with the next attempt after a server error, `HttpClientError`
    /// after a client error (4xx), and the failure itself when it had no
    /// status.
    pub fn on_failure(&self, status: Option<u16>, e: ureq::Error) -> (r: Option<Error>)
        ensures
            r == failure_result(status, e),
    {
        match classify(status) {
            Failure::Client(code) => Some(Error::HttpClientError(code)),
            Failure::Retry => None,
            Failure::Fatal => Some(Error::Ureq(e)),
        }
    }
}

/// What a failed attempt with the given status (if it had one) leads to:
/// `None` to try again after a server error, `HttpClientError` after a
/// client error, and the failure itself when it had no status.
pub open spec fn failure_result(status: Option<u16>, e: ureq::Error) -> Option<Error> {
    match spec_classify(status) {
        Failure::Client(code) => Some(Error::HttpClientError(code)),
        Failure::Retry => None,
        Failure::Fatal => Some(Error::Ureq(e)),
    }
}

/// The waits double from one retry to the next.
pub proof fn lemma_backoff_doubles(attempt: nat)
    requires
        attempt >= 1,
    ensures
        backoff_ms(attempt + 1) == 2 * backoff_ms(attempt),
{
    vstd::arithmetic::power2::lemma_pow2_unfold(attempt + 1);
}

} // verus!
