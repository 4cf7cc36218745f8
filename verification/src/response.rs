//! Building an HTTP response from what the script produced.
//!
//! The `http` crate is the authority on what a header name, header
//! value or status code may look like; its parsers are called through
//! trusted wrappers whose contracts restate the grammar its source
//! enforces. Everything else — the order of the checks, which error a
//! bad response yields, and that a good response carries the script's
//! status, headers and body through unchanged — is verified here.

use vstd::prelude::*;

use crate::error::WorkerError;
use crate::fetch_event::{PromiseSnapshot, ResponseSnapshot};

verus! {

/// A finished HTTP response: a valid status, valid header pairs, and
/// the body bytes, ready for the boundary to write out.
#[derive(Debug)]
pub struct HttpResponse {
    pub status: u16,
    pub headers: Vec<(String, String)>,
    pub body: Vec<u8>,
}

/// Whether one character is acceptable in an HTTP header name: the
/// token characters `! " # $ % & ' * + - . ^ _ ` | ~`, digits, and
/// letters of either case.
pub open spec fn header_name_char_ok(c: char) -> bool {
    ||| c == '!'
    ||| c == '"'
    ||| c == '#'
    ||| c == '$'
    ||| c == '%'
    ||| c == '&'
    ||| c == '\''
    ||| c == '*'
    ||| c == '+'
    ||| c == '-'
    ||| c == '.'
    ||| '0' <= c <= '9'
    ||| 'A' <= c <= 'Z'
    ||| c == '^'
    ||| c == '_'
    ||| c == '`'
    ||| 'a' <= c <= 'z'
    ||| c == '|'
    ||| c == '~'
}

/// Whether a string parses as an HTTP header name: nonempty, at most
/// 65535 bytes, every character from the token alphabet.
pub open spec fn header_name_ok(s: Seq<char>) -> bool {
    &&& 1 <= s.len() <= 65535
    &&& forall|i: int| 0 <= i < s.len() ==> header_name_char_ok(#[trigger] s[i])
}

/// Whether one character is acceptable in an HTTP header value: tab,
/// or anything whose encoded bytes are at least 32 and never DEL —
/// every character above ASCII qualifies, since its UTF-8 bytes all
/// lie in 128..=255.
pub open spec fn header_value_char_ok(c: char) -> bool {
    ||| c == '\t'
    ||| (c as u32) >= 32 && (c as u32) != 127
}

/// Whether a string parses as an HTTP header value.
pub open spec fn header_value_ok(s: Seq<char>) -> bool {
    forall|i: int| 0 <= i < s.len() ==> header_value_char_ok(#[trigger] s[i])
}

/// Whether a number is a representable HTTP status code.
pub open spec fn status_ok(s: u16) -> bool {
    100 <= s < 1000
}

/// Relies on `http::header::HeaderName::from_str`: parsing succeeds
/// exactly for a nonempty input of at most 65535 bytes each of which
/// the crate's `HEADER_CHARS` table accepts — the token characters,
/// digits, and letters of either case.
#[verifier::external_body]
fn header_name_valid(s: &String) -> (r: bool)
    ensures
        r == header_name_ok(s@),
{
    s.as_str().parse::<http::header::HeaderName>().is_ok()
}

/// Relies on `http::header::HeaderValue::from_str`: parsing succeeds
/// exactly when every byte is at least 32 and not 127, or is a tab.
#[verifier::external_body]
fn header_value_valid(s: &String) -> (r: bool)
    ensures
        r == header_value_ok(s@),
{
    s.as_str().parse::<http::header::HeaderValue>().is_ok()
}

/// Relies on `http::StatusCode::from_u16`: codes 100..=999 are
/// accepted and everything else is refused.
#[verifier::external_body]
fn status_code_valid(s: u16) -> (r: bool)
    ensures
        r == status_ok(s),
{
    http::StatusCode::from_u16(s).is_ok()
}

/// The first violation among the header pairs, scanned in order, each
/// name before its value — or `None` when every pair is valid.
pub open spec fn find_bad_header(hs: Seq<(String, String)>) -> Option<WorkerError>
    decreases hs.len(),
{
    if hs.len() == 0 {
        None
    } else if !header_name_ok(hs[0].0@) {
        Some(WorkerError::InvalidHeaderName(hs[0].0))
    } else if !header_value_ok(hs[0].1@) {
        Some(WorkerError::InvalidHeaderValue(hs[0].1))
    } else {
        find_bad_header(hs.drop_first())
    }
}

/// What building a response from a `Response` snapshot yields: the
/// checks run in the order the worker performs them — instance check,
/// headers in order, body read, status — and a clean pass carries
/// status, headers and body through unchanged.
pub open spec fn build_response_spec(snap: ResponseSnapshot) -> Result<HttpResponse, WorkerError> {
    if !snap.is_response_instance {
        Err(WorkerError::NotResponseInstance)
    } else {
        match find_bad_header(snap.headers@) {
            Some(e) => Err(e),
            None => match snap.body {
                Err(m) => Err(WorkerError::BodyReadFailed(m)),
                Ok(b) => if !status_ok(snap.status) {
                    Err(WorkerError::InvalidStatus(snap.status))
                } else {
                    Ok(HttpResponse { status: snap.status, headers: snap.headers, body: b })
                },
            },
        }
    }
}

proof fn lemma_find_bad_header_step(hs: Seq<(String, String)>, i: int)
    requires
        0 <= i < hs.len(),
        header_name_ok(hs[i].0@),
        header_value_ok(hs[i].1@),
    ensures
        find_bad_header(hs.skip(i)) == find_bad_header(hs.skip(i + 1)),
{
    assert(hs.skip(i).drop_first() =~= hs.skip(i + 1));
}

/// Converts a script `Response` snapshot into an HTTP response, or the
/// error the snapshot earns: the exact outcome is `build_response_spec`.
pub fn build_response(snap: ResponseSnapshot) -> (r: Result<HttpResponse, WorkerError>)
    ensures
        r == build_response_spec(snap),
{
    if !snap.is_response_instance {
        return Err(WorkerError::NotResponseInstance);
    }
    let n = snap.headers.len();
    let mut i: usize = 0;
    proof {
        assert(snap.headers@.skip(0) =~= snap.headers@);
    }
    while i < n
        invariant
            snap.is_response_instance,
            n == snap.headers.len(),
            0 <= i <= n,
            find_bad_header(snap.headers@) == find_bad_header(snap.headers@.skip(i as int)),
        decreases n - i,
    {
        let pair = &snap.headers[i];
        if !header_name_valid(&pair.0) {
            assert(snap.headers@.skip(i as int)[0] == snap.headers@[i as int]);
            return Err(WorkerError::InvalidHeaderName(pair.0.clone()));
        }
        if !header_value_valid(&pair.1) {
            assert(snap.headers@.skip(i as int)[0] == snap.headers@[i as int]);
            return Err(WorkerError::InvalidHeaderValue(pair.1.clone()));
        }
        proof {
            assert(snap.headers@.skip(i as int)[0] == snap.headers@[i as int]);
            lemma_find_bad_header_step(snap.headers@, i as int);
        }
        i = i + 1;
    }
    proof {
        assert(snap.headers@.skip(n as int) =~= Seq::<(String, String)>::empty());
    }
    match snap.body {
        Err(m) => Err(WorkerError::BodyReadFailed(m)),
        Ok(b) => {
            if !status_code_valid(snap.status) {
                Err(WorkerError::InvalidStatus(snap.status))
            } else {
                Ok(HttpResponse { status: snap.status, headers: snap.headers, body: b })
            }
        },
    }
}

/// What finalising a polled promise yields. A promise that settled
/// into a `Response` builds like an immediate one; a rejection becomes
/// a script-execution failure carrying the rejection's message, or the
/// fixed placeholder when the rejection value had none; finalising a
/// still-pending promise is the internal error the shutdown drain
/// reports for abandoned work.
pub open spec fn settle_response_spec(p: PromiseSnapshot) -> Result<HttpResponse, WorkerError> {
    match p {
        PromiseSnapshot::Pending => Err(WorkerError::PromiseNotSettled),
        PromiseSnapshot::Rejected(m) => Err(WorkerError::RejectedPromise(m)),
        PromiseSnapshot::FulfilledNonObject => Err(WorkerError::FulfilledNotObject),
        PromiseSnapshot::FulfilledObject(snap) => build_response_spec(snap),
    }
}

/// Converts a settled (or abandoned) promise into the response its
/// request receives: the exact outcome is `settle_response_spec`.
pub fn build_response_from_pending(p: PromiseSnapshot) -> (r: Result<HttpResponse, WorkerError>)
    ensures
        r == settle_response_spec(p),
{
    match p {
        PromiseSnapshot::Pending => Err(WorkerError::PromiseNotSettled),
        PromiseSnapshot::Rejected(m) => Err(WorkerError::RejectedPromise(m)),
        PromiseSnapshot::FulfilledNonObject => Err(WorkerError::FulfilledNotObject),
        PromiseSnapshot::FulfilledObject(snap) => build_response(snap),
    }
}

/// The boundary's translation of a failed request: HTTP 500, with the
/// error's message as the whole body text.
pub fn error_response(e: &WorkerError) -> (r: (u16, String))
    ensures
        r.0 == 500,
        r.1@ == e.message_spec(),
{
    (500, e.message())
}

} // verus!
