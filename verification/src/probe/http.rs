//! Probes that an HTTP endpoint answers with an expected status.

use vstd::prelude::*;
use vstd::string::*;
use url::Url;
use crate::error::HamsError;
use crate::text::has_nul;

verus! {

/// What `Url::parse` makes of an input: nothing when it parses, else the text of its
/// parse error.
pub uninterp spec fn url_parse_error(input: Seq<char>) -> Option<Seq<char>>;

/// `Url::parse`: whether the input is an absolute URL, and else the text of the parse
/// error. Claimed: the result depends on the input alone, as named by
/// [`url_parse_error`].
#[verifier::external_body]
fn parse_url(input: &str) -> (r: Result<(), String>)
    ensures
        r is Ok <==> url_parse_error(input@) is None,
        r matches Err(m) ==> url_parse_error(input@) == Some(m@),
{
    match Url::parse(input) {
        Ok(_) => Ok(()),
        Err(e) => Err(format!("{}", e)),
    }
}

/// Whether a number is an HTTP status code: from 100 to 999, as `StatusCode::from_u16`
/// accepts.
pub open spec fn is_status_code(code: u16) -> bool {
    100 <= code <= 999
}

/// The status codes a probe accepts: those given that are status codes, in order; 200
/// (OK) alone when none are given.
pub open spec fn spec_expected_codes(codes: Option<Seq<u16>>) -> Seq<u16> {
    match codes {
        Some(cs) => cs.filter(|c: u16| is_status_code(c)),
        None => seq![200u16],
    }
}

/// The status codes a probe accepts.
pub fn expected_codes(codes: Option<Vec<u16>>) -> (r: Vec<u16>)
    ensures
        r@ == spec_expected_codes(match codes { Some(v) => Some(v@), None => None }),
{
    match codes {
        None => {
            let mut r: Vec<u16> = Vec::new();
            r.push(200);
            assert(r@ =~= seq![200u16]);
            r
        },
        Some(cs) => {
            let mut r: Vec<u16> = Vec::new();
            let mut i: usize = 0;
            while i < cs.len()
                invariant
                    i <= cs@.len(),
                    r@ == cs@.take(i as int).filter(|c: u16| is_status_code(c)),
                decreases cs@.len() - i,
            {
                let c = cs[i];
                proof {
                    reveal_with_fuel(Seq::<u16>::filter, 1);
                    assert(cs@.take(i + 1).drop_last() =~= cs@.take(i as int));
                }
                if 100 <= c && c <= 999 {
                    r.push(c);
                }
                i = i + 1;
            }
            assert(cs@.take(cs@.len() as int) =~= cs@);
            r
        },
    }
}

/// Whether a status code is one of those a probe accepts.
pub fn accepts_status(expected: &Vec<u16>, status: u16) -> (r: bool)
    ensures
        r == expected@.contains(status),
{
    let mut i: usize = 0;
    while i < expected.len()
        invariant
            i <= expected@.len(),
            forall|j: int| 0 <= j < i ==> expected@[j] != status,
        decreases expected@.len() - i,
    {
        if expected[i] == status {
            return true;
        }
        i = i + 1;
    }
    false
}

/// A probe that is healthy while a GET of its URL answers with an expected status.
/// The request itself is made by the application, which owns the network.
#[derive(Debug, Clone)]
pub struct HttpProbe {
    /// Name of the probe
    pub name: String,
    /// URL to request, as given; it parses as an absolute URL
    pub url: String,
    /// Status codes that count as healthy
    pub expected_codes: Vec<u16>,
}

impl HttpProbe {
    /// A probe of `url`: `NulError` when the name holds a NUL; `Invalid URL: <reason>`
    /// when the URL does not parse; else accepting [`expected_codes`].
    pub fn new(name: &str, url: &str, codes: Option<Vec<u16>>) -> (r: Result<HttpProbe, HamsError>)
        ensures
            name@.contains('\0') ==> r == Err::<HttpProbe, HamsError>(HamsError::NulError),
            !name@.contains('\0') ==> match url_parse_error(url@) {
                Some(reason) => r matches Err(HamsError::Message(m)) && m@ == "Invalid URL: "@ + reason,
                None => r matches Ok(p) && p.name@ == name@ && p.url@ == url@
                    && p.expected_codes@ == spec_expected_codes(match codes { Some(v) => Some(v@), None => None }),
            },
    {
        if has_nul(name) {
            return Err(HamsError::NulError);
        }
        match parse_url(url) {
            Err(reason) => {
                let mut m = String::from_str("Invalid URL: ");
                m.append(reason.as_str());
                Err(HamsError::Message(m))
            },
            Ok(()) => Ok(HttpProbe {
                name: name.to_owned(),
                url: url.to_owned(),
                expected_codes: expected_codes(codes),
            }),
        }
    }

    /// Whether a status answered by the endpoint counts as healthy.
    pub fn accepts(&self, status: u16) -> (r: bool)
        ensures
            r == self.expected_codes@.contains(status),
    {
        accepts_status(&self.expected_codes, status)
    }
}

/// A probe like [`HttpProbe`], checked asynchronously, with a timeout per request.
#[derive(Debug, Clone)]
pub struct AsyncHttpProbe {
    /// Name of the probe
    pub name: String,
    /// URL to request, as given; it parses as an absolute URL
    pub url: String,
    /// Status codes that count as healthy
    pub expected_codes: Vec<u16>,
    /// Time allowed for a request, in milliseconds
    pub timeout_ms: u64,
}

impl AsyncHttpProbe {
    /// A probe of `url`: `Invalid URL: <reason>` when the URL does not parse; else
    /// accepting [`expected_codes`], with the timeout given or five seconds.
    pub fn new(name: &str, url: &str, codes: Option<Vec<u16>>, timeout_ms: Option<u64>) -> (r: Result<AsyncHttpProbe, HamsError>)
        ensures
            match url_parse_error(url@) {
                Some(reason) => r matches Err(HamsError::Message(m)) && m@ == "Invalid URL: "@ + reason,
                None => r matches Ok(p) && p.name@ == name@ && p.url@ == url@
                    && p.expected_codes@ == spec_expected_codes(match codes { Some(v) => Some(v@), None => None })
                    && p.timeout_ms == match timeout_ms { Some(t) => t, None => 5000u64 },
            },
    {
        match parse_url(url) {
            Err(reason) => {
                let mut m = String::from_str("Invalid URL: ");
                m.append(reason.as_str());
                Err(HamsError::Message(m))
            },
            Ok(()) => Ok(AsyncHttpProbe {
                name: name.to_owned(),
                url: url.to_owned(),
                expected_codes: expected_codes(codes),
                timeout_ms: match timeout_ms { Some(t) => t, None => 5000 },
            }),
        }
    }

    /// Whether a status answered by the endpoint counts as healthy.
    pub fn accepts(&self, status: u16) -> (r: bool)
        ensures
            r == self.expected_codes@.contains(status),
    {
        accepts_status(&self.expected_codes, status)
    }
}

} // verus!
