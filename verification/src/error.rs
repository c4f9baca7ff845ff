//! Errors of the library.

use vstd::prelude::*;
use crate::text::{decimal, decimal_chars, extend_chars, extend_str, string_of};

verus! {

/// Everything that can go wrong while fetching, parsing and exporting.
#[derive(Debug)]
pub enum Error {
    Io(std::io::Error),
    Ureq(ureq::Error),
    ParseInt(std::num::ParseIntError),
    HttpClientError(u16),
    DownloadFailed { url: String, tries: u32 },
    MissingElement(&'static str),
    EmptyFile(String),
    NoPosts,
    UnknownExporter(String),
    ChannelSend,
}

/// The message of an error whose text the library itself determines; the
/// variants that carry an outside error are described by `message`.
pub open spec fn spec_message(e: Error) -> Seq<char> {
    match e {
        Error::HttpClientError(code) => "client error: "@ + decimal(code as nat),
        Error::DownloadFailed { url, tries } => "failed to download "@ + url@ + " after "@
            + decimal(tries as nat) + " tries"@,
        Error::MissingElement(name) => "missing element: "@ + name@,
        Error::EmptyFile(url) => "empty file: "@ + url@,
        Error::NoPosts => "no posts to export"@,
        Error::UnknownExporter(name) => "unknown exporter: "@ + name@,
        Error::ChannelSend => "failed to send event"@,
        Error::Io(_) => "I/O error: "@,
        Error::Ureq(_) => "network error: "@,
        Error::ParseInt(_) => "parse error: "@,
    }
}

/// The error is one that wraps an outside error, whose own text follows the
/// prefix in the message.
pub open spec fn wraps_outside(e: Error) -> bool {
    e is Io || e is Ureq || e is ParseInt
}

fn wraps(e: &Error) -> (b: bool)
    ensures
        b == wraps_outside(*e),
{
    match e {
        Error::Io(_) | Error::Ureq(_) | Error::ParseInt(_) => true,
        _ => false,
    }
}

/// `m` is the message of `e`: exactly the library's text, or for a wrapped
/// outside error its prefix followed by the outside error's own text.
pub open spec fn is_message(e: Error, m: Seq<char>) -> bool {
    if wraps_outside(e) {
        m.len() >= spec_message(e).len() && m.take(spec_message(e).len() as int) == spec_message(e)
    } else {
        m == spec_message(e)
    }
}

/// A message `m` under the context `ctx`, as a chain of causes is printed.
pub open spec fn in_context(ctx: Seq<char>, m: Seq<char>) -> Seq<char> {
    ctx + ": "@ + m
}

/// The text `m` under the context `ctx`.
pub fn in_context_text(ctx: &str, m: &str) -> (r: String)
    ensures
        r@ == in_context(ctx@, m@),
{
    let mut v: Vec<char> = Vec::new();
    extend_str(&mut v, ctx);
    extend_str(&mut v, ": ");
    extend_str(&mut v, m);
    string_of(&v)
}

/// `t` is what an error chain prints for `e` (each cause after ": "): the
/// message of `e`, and for a wrapped outside error, after it, the text of
/// that outside error with its own causes, `causes`.
pub open spec fn is_chain_text(e: Error, causes: Seq<char>, t: Seq<char>) -> bool {
    if wraps_outside(e) {
        exists|m: Seq<char>| is_message(e, m) && t == in_context(m, causes)
    } else {
        t == spec_message(e)
    }
}

impl Error {
    /// What an error chain prints for the error: its message, followed for a
    /// wrapped outside error by ": " and `causes`, the text of the outside
    /// error with its own causes.
    pub fn chain_text(&self, causes: &str) -> (t: String)
        ensures
            is_chain_text(*self, causes@, t@),
    {
        let m = self.message();
        if wraps(self) {
            in_context_text(m.as_str(), causes)
        } else {
            m
        }
    }

    /// A human-readable description of the error.
    pub fn message(&self) -> (m: String)
        ensures
            is_message(*self, m@),
    {
        let mut out: Vec<char> = Vec::new();
        match self {
            Error::Io(e) => {
                extend_str(&mut out, "I/O error: ");
                let t = e.to_string();
                extend_str(&mut out, t.as_str());
            },
            Error::Ureq(e) => {
                extend_str(&mut out, "network error: ");
                let t = e.to_string();
                extend_str(&mut out, t.as_str());
            },
            Error::ParseInt(e) => {
                extend_str(&mut out, "parse error: ");
                let t = e.to_string();
                extend_str(&mut out, t.as_str());
            },
            Error::HttpClientError(code) => {
                extend_str(&mut out, "client error: ");
                extend_chars(&mut out, &decimal_chars(*code as u64));
            },
            Error::DownloadFailed { url, tries } => {
                extend_str(&mut out, "failed to download ");
                extend_str(&mut out, url.as_str());
                extend_str(&mut out, " after ");
                extend_chars(&mut out, &decimal_chars(*tries as u64));
                extend_str(&mut out, " tries");
            },
            Error::MissingElement(name) => {
                extend_str(&mut out, "missing element: ");
                extend_str(&mut out, name);
            },
            Error::EmptyFile(url) => {
                extend_str(&mut out, "empty file: ");
                extend_str(&mut out, url.as_str());
            },
            Error::NoPosts => extend_str(&mut out, "no posts to export"),
            Error::UnknownExporter(name) => {
                extend_str(&mut out, "unknown exporter: ");
                extend_str(&mut out, name.as_str());
            },
            Error::ChannelSend => extend_str(&mut out, "failed to send event"),
        }
        assert(wraps_outside(*self) ==> out@.take(spec_message(*self).len() as int)
            =~= spec_message(*self));
        string_of(&out)
    }
}

impl From<std::io::Error> for Error {
    fn from(e: std::io::Error) -> (r: Error) {
        Error::Io(e)
    }
}

impl vstd::std_specs::convert::FromSpecImpl<std::io::Error> for Error {
    open spec fn obeys_from_spec() -> bool {
        true
    }

    open spec fn from_spec(e: std::io::Error) -> Error {
        Error::Io(e)
    }
}

impl From<ureq::Error> for Error {
    fn from(e: ureq::Error) -> (r: Error) {
        Error::Ureq(e)
    }
}

impl vstd::std_specs::convert::FromSpecImpl<ureq::Error> for Error {
    open spec fn obeys_from_spec() -> bool {
        true
    }

    open spec fn from_spec(e: ureq::Error) -> Error {
        Error::Ureq(e)
    }
}

impl From<std::num::ParseIntError> for Error {
    fn from(e: std::num::ParseIntError) -> (r: Error) {
        Error::ParseInt(e)
    }
}

impl vstd::std_specs::convert::FromSpecImpl<std::num::ParseIntError> for Error {
    open spec fn obeys_from_spec() -> bool {
        true
    }

    open spec fn from_spec(e: std::num::ParseIntError) -> Error {
        Error::ParseInt(e)
    }
}

} // verus!
