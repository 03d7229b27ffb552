//! HTTP-level vocabulary: methods, status codes, and header values.

use vstd::prelude::*;
use vstd::string::*;

verus! {

/// The recognized HTTP verbs. A request can only be prepared for one of
/// these.
#[derive(Clone, Copy, Debug, PartialEq, Eq, Structural)]
pub enum HttpMethod {
    Get,
    Head,
    Post,
    Put,
    Delete,
    Connect,
    Options,
    Trace,
    Patch,
}

impl HttpMethod {
    /// The canonical (upper-case) spelling of the verb.
    pub open spec fn spec_name(self) -> Seq<char> {
        match self {
            HttpMethod::Get => "GET"@,
            HttpMethod::Head => "HEAD"@,
            HttpMethod::Post => "POST"@,
            HttpMethod::Put => "PUT"@,
            HttpMethod::Delete => "DELETE"@,
            HttpMethod::Connect => "CONNECT"@,
            HttpMethod::Options => "OPTIONS"@,
            HttpMethod::Trace => "TRACE"@,
            HttpMethod::Patch => "PATCH"@,
        }
    }

    /// The canonical spelling, for handing to a transport.
    pub fn name(self) -> (r: &'static str)
        ensures
            r@ == self.spec_name(),
    {
        match self {
            HttpMethod::Get => "GET",
            HttpMethod::Head => "HEAD",
            HttpMethod::Post => "POST",
            HttpMethod::Put => "PUT",
            HttpMethod::Delete => "DELETE",
            HttpMethod::Connect => "CONNECT",
            HttpMethod::Options => "OPTIONS",
            HttpMethod::Trace => "TRACE",
            HttpMethod::Patch => "PATCH",
        }
    }
}

/// ASCII upper-casing of one character: `'a'..='z'` map to `'A'..='Z'`,
/// everything else is unchanged.
pub open spec fn upper_char(c: char) -> char {
    if 'a' <= c && c <= 'z' {
        (((c as u8) - 32) as char)
    } else {
        c
    }
}

/// ASCII upper-casing of a whole string.
pub open spec fn upper_chars(s: Seq<char>) -> Seq<char> {
    Seq::new(s.len(), |i: int| upper_char(s[i]))
}

/// Relies on `str::to_ascii_uppercase`: returns a copy of the string with
/// each character mapped to its ASCII upper-case equivalent, i.e. `'a'..='z'`
/// become `'A'..='Z'` and all other characters are left unchanged.
#[verifier::external_body]
fn to_ascii_uppercase(s: &str) -> (r: String)
    ensures
        r@ == upper_chars(s@),
{
    s.to_ascii_uppercase()
}

/// Which verb, if any, a method string names, compared without regard to
/// ASCII case.
pub open spec fn spec_parse_method(s: Seq<char>) -> Option<HttpMethod> {
    if upper_chars(s) == "GET"@ {
        Some(HttpMethod::Get)
    } else if upper_chars(s) == "HEAD"@ {
        Some(HttpMethod::Head)
    } else if upper_chars(s) == "POST"@ {
        Some(HttpMethod::Post)
    } else if upper_chars(s) == "PUT"@ {
        Some(HttpMethod::Put)
    } else if upper_chars(s) == "DELETE"@ {
        Some(HttpMethod::Delete)
    } else if upper_chars(s) == "CONNECT"@ {
        Some(HttpMethod::Connect)
    } else if upper_chars(s) == "OPTIONS"@ {
        Some(HttpMethod::Options)
    } else if upper_chars(s) == "TRACE"@ {
        Some(HttpMethod::Trace)
    } else if upper_chars(s) == "PATCH"@ {
        Some(HttpMethod::Patch)
    } else {
        None
    }
}

/// Parse a method string, case-insensitively, against the known verb set.
pub fn parse_method(method: &str) -> (r: Option<HttpMethod>)
    ensures
        r == spec_parse_method(method@),
{
    let upper = to_ascii_uppercase(method);
    if upper == String::from_str("GET") {
        Some(HttpMethod::Get)
    } else if upper == String::from_str("HEAD") {
        Some(HttpMethod::Head)
    } else if upper == String::from_str("POST") {
        Some(HttpMethod::Post)
    } else if upper == String::from_str("PUT") {
        Some(HttpMethod::Put)
    } else if upper == String::from_str("DELETE") {
        Some(HttpMethod::Delete)
    } else if upper == String::from_str("CONNECT") {
        Some(HttpMethod::Connect)
    } else if upper == String::from_str("OPTIONS") {
        Some(HttpMethod::Options)
    } else if upper == String::from_str("TRACE") {
        Some(HttpMethod::Trace)
    } else if upper == String::from_str("PATCH") {
        Some(HttpMethod::Patch)
    } else {
        None
    }
}

/// HTTP status codes in the success range.
pub open spec fn is_success_status(status: u16) -> bool {
    200 <= status < 300
}

/// Validate an HTTP status code against the success range.
pub fn status_is_success(status: u16) -> (r: bool)
    ensures
        r == is_success_status(status),
{
    200 <= status && status < 300
}

/// Whether one character may appear in an HTTP header value: horizontal tab,
/// or any character outside the ASCII control range other than DEL.
pub open spec fn header_char_ok(c: char) -> bool {
    c == '\t' || (c as u32 >= 32 && c as u32 != 127)
}

/// Whether a whole string can be carried as an HTTP header value.
pub open spec fn valid_header_value(s: Seq<char>) -> bool {
    forall|i: int| 0 <= i < s.len() ==> header_char_ok(#[trigger] s[i])
}

/// Relies on `reqwest::header::HeaderValue::from_bytes`, which accepts a byte
/// string exactly when every byte is either horizontal tab or in
/// `32..=255` excluding DEL (127). Over the UTF-8 encoding of a string this
/// is the same as `valid_header_value`: characters below `' '` other than
/// tab, and DEL, encode to exactly the rejected single bytes, while every
/// multi-byte character encodes to bytes of `128..=255`, which are all
/// accepted.
#[verifier::external_body]
pub fn header_value_ok(s: &str) -> (r: bool)
    ensures
        r == valid_header_value(s@),
{
    reqwest::header::HeaderValue::from_bytes(s.as_bytes()).is_ok()
}

} // verus!
