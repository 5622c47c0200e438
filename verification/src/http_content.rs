//! The HTTP content check: a page is fetched and a regular expression is
//! matched against its body, within a limit on the body's size.
use vstd::prelude::*;

use vstd::utf8::encode_utf8;

use crate::text::decimal;
use crate::text::decimal_string;

verus! {

broadcast use vstd::string::group_string_axioms;

/// Largest body that is read and matched.
pub const MAX_RESPONSE_SIZE: u64 = 104857600;

/// `regex::Regex`, held opaque.
#[verifier::external_type_specification]
#[verifier::external_body]
pub struct ExRegex(regex::Regex);

/// `regex::Error`, held opaque.
#[verifier::external_type_specification]
#[verifier::external_body]
pub struct ExRegexError(regex::Error);

/// Whether `regex::Regex::new` accepts a pattern.
pub uninterp spec fn regex_compiles(pattern: Seq<char>) -> bool;

/// Whether the regular expression of `pattern` matches somewhere in `text`,
/// as `regex::Regex::is_match` decides.
pub uninterp spec fn regex_matches(pattern: Seq<char>, text: Seq<char>) -> bool;

/// A regular expression together with the pattern it was compiled from.
#[derive(Debug)]
pub struct ContentPattern {
    pattern: String,
    re: regex::Regex,
}

impl ContentPattern {
    /// The pattern.
    pub closed spec fn source(&self) -> Seq<char> {
        self.pattern@
    }
}

/// Compiles a pattern with `regex::Regex::new`. Claimed: it succeeds exactly
/// on the patterns that the crate accepts (`regex_compiles`), and the result
/// keeps the pattern it was compiled from.
#[verifier::external_body]
fn regex_new(pattern: &str) -> (r: Result<ContentPattern, regex::Error>)
    ensures
        (r is Ok) == regex_compiles(pattern@),
        (r matches Ok(c) ==> c.source() == pattern@),
{
    match regex::Regex::new(pattern) {
        Ok(re) => Ok(ContentPattern { pattern: pattern.to_string(), re }),
        Err(e) => Err(e),
    }
}

/// Matches with `regex::Regex::is_match`. Claimed: the answer is
/// `regex_matches` of the pattern the expression was compiled from.
#[verifier::external_body]
fn regex_is_match(p: &ContentPattern, text: &str) -> (r: bool)
    ensures
        r == regex_matches(p.source(), text@),
{
    p.re.is_match(text)
}

/// Compiles the check's pattern; a pattern that the regular expression crate
/// refuses gives the message with which the check fails.
pub fn compile_pattern(pattern: &str) -> (r: Result<ContentPattern, String>)
    ensures
        (r is Ok) == regex_compiles(pattern@),
        (r matches Ok(c) ==> c.source() == pattern@),
        (r matches Err(m) ==> m@ == "Failed to compile regexp: "@ + pattern@),
{
    match regex_new(pattern) {
        Ok(c) => Ok(c),
        Err(_) => {
            let mut m = String::new();
            m.append("Failed to compile regexp: ");
            m.append(pattern);
            Err(m)
        },
    }
}

/// The outcome of one content check.
#[derive(Debug, Clone, PartialEq, Eq)]
pub struct ContentMetric {
    /// HTTP status, when a response came.
    pub status_code: Option<u16>,
    /// Time until the body was read (or refused), in nanoseconds.
    pub total_time_ns: Option<u64>,
    /// Size of the body in bytes, declared or read.
    pub total_size: Option<u64>,
    /// Whether the pattern matched the body.
    pub regexp_match: Option<bool>,
    /// The response succeeded (2xx) and was checked.
    pub success: bool,
    /// Why the check failed.
    pub error: Option<String>,
    /// The task's target label.
    pub target_id: Option<String>,
}

/// A response whose declared length exceeds the limit is refused before its
/// body is read; the result is then the failed check.
pub fn check_declared_length(
    status: u16,
    content_length: Option<u64>,
    elapsed_ns: u64,
    target_id: Option<String>,
) -> (r: Option<ContentMetric>)
    ensures
        match content_length {
            Some(n) if n > MAX_RESPONSE_SIZE => (r matches Some(m) && {
                &&& m.status_code == Some(status)
                &&& m.total_time_ns == Some(elapsed_ns)
                &&& m.total_size == Some(n)
                &&& m.regexp_match is None
                &&& !m.success
                &&& m.target_id == target_id
                &&& (m.error matches Some(e) && e@ == "Response size ("@ + decimal(n as nat)
                    + " bytes) exceeds maximum of "@ + decimal(MAX_RESPONSE_SIZE as nat)
                    + " bytes (detected from Content-Length header)"@)
            }),
            _ => r is None,
        },
{
    match content_length {
        Some(n) => {
            if n > MAX_RESPONSE_SIZE {
                let mut e = String::new();
                e.append("Response size (");
                e.append(decimal_string(n).as_str());
                e.append(" bytes) exceeds maximum of ");
                e.append(decimal_string(MAX_RESPONSE_SIZE).as_str());
                e.append(" bytes (detected from Content-Length header)");
                Some(
                    ContentMetric {
                        status_code: Some(status),
                        total_time_ns: Some(elapsed_ns),
                        total_size: Some(n),
                        regexp_match: None,
                        success: false,
                        error: Some(e),
                        target_id,
                    },
                )
            } else {
                None
            }
        },
        None => None,
    }
}

/// The check of a body that was read: too large a body fails, else the
/// pattern is matched and the check succeeds when the status was a success.
pub fn check_body(
    pattern: &ContentPattern,
    status: u16,
    status_is_success: bool,
    body: &str,
    elapsed_ns: u64,
    target_id: Option<String>,
) -> (m: ContentMetric)
    ensures
        m.status_code == Some(status),
        m.total_time_ns == Some(elapsed_ns),
        m.total_size == Some(body.len() as u64),
        m.target_id == target_id,
        body.len() > MAX_RESPONSE_SIZE ==> {
            &&& m.regexp_match is None
            &&& !m.success
            &&& (m.error matches Some(e) && e@ == "Response size ("@ + decimal(body.len() as nat)
                + " bytes) exceeds maximum of "@ + decimal(MAX_RESPONSE_SIZE as nat)
                + " bytes (Content-Length header not provided)"@)
        },
        body.len() <= MAX_RESPONSE_SIZE ==> {
            &&& m.regexp_match == Some(regex_matches(pattern.source(), body@))
            &&& m.success == status_is_success
            &&& m.error is None
        },
{
    let size = body.len();
    if size as u64 > MAX_RESPONSE_SIZE {
        let mut e = String::new();
        e.append("Response size (");
        e.append(decimal_string(size as u64).as_str());
        e.append(" bytes) exceeds maximum of ");
        e.append(decimal_string(MAX_RESPONSE_SIZE).as_str());
        e.append(" bytes (Content-Length header not provided)");
        ContentMetric {
            status_code: Some(status),
            total_time_ns: Some(elapsed_ns),
            total_size: Some(size as u64),
            regexp_match: None,
            success: false,
            error: Some(e),
            target_id,
        }
    } else {
        let matched = regex_is_match(pattern, body);
        ContentMetric {
            status_code: Some(status),
            total_time_ns: Some(elapsed_ns),
            total_size: Some(size as u64),
            regexp_match: Some(matched),
            success: status_is_success,
            error: None,
            target_id,
        }
    }
}

/// The check when the body could not be read.
pub fn body_read_failed(status: u16, url: &str, error: &str, target_id: Option<String>) -> (m:
    ContentMetric)
    ensures
        m.status_code == Some(status),
        m.total_time_ns is None,
        m.total_size is None,
        m.regexp_match is None,
        !m.success,
        m.target_id == target_id,
        (m.error matches Some(e) && e@ == "Failed to read response body from "@ + url@ + ": "@
            + error@),
{
    let mut e = String::new();
    e.append("Failed to read response body from ");
    e.append(url);
    e.append(": ");
    e.append(error);
    ContentMetric {
        status_code: Some(status),
        total_time_ns: None,
        total_size: None,
        regexp_match: None,
        success: false,
        error: Some(e),
        target_id,
    }
}

/// The check when the request itself failed, by timeout or otherwise.
pub fn request_failed(
    url: &str,
    timed_out: bool,
    timeout_seconds: u32,
    error: &str,
    target_id: Option<String>,
) -> (m: ContentMetric)
    ensures
        m.status_code is None,
        m.total_time_ns is None,
        m.total_size is None,
        m.regexp_match is None,
        !m.success,
        m.target_id == target_id,
        timed_out ==> (m.error matches Some(e) && e@ == "Request to "@ + url@
            + " timed out after "@ + decimal(timeout_seconds as nat) + "s"@),
        !timed_out ==> (m.error matches Some(e) && e@ == "Request to "@ + url@ + " failed: "@
            + error@),
{
    let mut e = String::new();
    e.append("Request to ");
    e.append(url);
    if timed_out {
        e.append(" timed out after ");
        e.append(decimal_string(timeout_seconds as u64).as_str());
        e.append("s");
    } else {
        e.append(" failed: ");
        e.append(error);
    }
    ContentMetric {
        status_code: None,
        total_time_ns: None,
        total_size: None,
        regexp_match: None,
        success: false,
        error: Some(e),
        target_id,
    }
}

/// The check when it could not run at all (its pattern did not compile):
/// the error alone.
pub fn check_failed(error: String, target_id: Option<String>) -> (m: ContentMetric)
    ensures
        m == (ContentMetric {
            status_code: None,
            total_time_ns: None,
            total_size: None,
            regexp_match: None,
            success: false,
            error: Some(error),
            target_id,
        }),
{
    ContentMetric {
        status_code: None,
        total_time_ns: None,
        total_size: None,
        regexp_match: None,
        success: false,
        error: Some(error),
        target_id,
    }
}

/// What came back for the request of a content check.
pub enum ContentResponse {
    /// No response: the request timed out or failed with `error`.
    Failed { timed_out: bool, error: String },
    /// A response with `status`. Its body was read (or failed to be read)
    /// unless its declared length exceeded the limit; `elapsed_ns` is the
    /// time when the check stopped.
    Answered {
        status: u16,
        status_is_success: bool,
        content_length: Option<u64>,
        body: Option<Result<String, String>>,
        elapsed_ns: u64,
    },
}

/// The length in bytes of a text, as `str::len` gives it.
pub open spec fn byte_len(t: Seq<char>) -> usize {
    encode_utf8(t).len() as usize
}

/// Whether a declared length refuses a response before its body is read.
pub open spec fn declared_too_large(content_length: Option<u64>) -> bool {
    content_length matches Some(n) && n > MAX_RESPONSE_SIZE
}

/// The result of a content check with a compiled pattern, from what came
/// back for its request. The check carries a match result exactly when it
/// carries no error, and a check with an error failed.
pub fn content_check(
    pattern: &ContentPattern,
    url: &str,
    timeout_seconds: u32,
    response: ContentResponse,
    target_id: Option<String>,
) -> (m: ContentMetric)
    requires
        response matches ContentResponse::Answered { content_length, body, .. } ==> (body is None
            <==> declared_too_large(content_length)),
    ensures
        m.target_id == target_id,
        m.regexp_match is Some <==> m.error is None,
        m.error is Some ==> !m.success,
        match response {
            ContentResponse::Failed { timed_out, error } => {
                &&& m.status_code is None
                &&& m.total_time_ns is None
                &&& m.total_size is None
                &&& timed_out ==> (m.error matches Some(e) && e@ == "Request to "@ + url@
                    + " timed out after "@ + decimal(timeout_seconds as nat) + "s"@)
                &&& !timed_out ==> (m.error matches Some(e) && e@ == "Request to "@ + url@
                    + " failed: "@ + error@)
            },
            ContentResponse::Answered { status, status_is_success, content_length, body, elapsed_ns } => {
                &&& m.status_code == Some(status)
                &&& match body {
                    None => {
                        &&& m.total_time_ns == Some(elapsed_ns)
                        &&& m.total_size == content_length
                        &&& (m.error matches Some(e) && e@ == "Response size ("@ + decimal(
                            content_length->0 as nat,
                        ) + " bytes) exceeds maximum of "@ + decimal(MAX_RESPONSE_SIZE as nat)
                            + " bytes (detected from Content-Length header)"@)
                    },
                    Some(Ok(b)) => {
                        &&& m.total_time_ns == Some(elapsed_ns)
                        &&& m.total_size == Some(byte_len(b@) as u64)
                        &&& byte_len(b@) > MAX_RESPONSE_SIZE ==> (m.error matches Some(e) && e@
                            == "Response size ("@ + decimal(byte_len(b@) as nat)
                            + " bytes) exceeds maximum of "@ + decimal(MAX_RESPONSE_SIZE as nat)
                            + " bytes (Content-Length header not provided)"@)
                        &&& byte_len(b@) <= MAX_RESPONSE_SIZE ==> {
                            &&& m.regexp_match == Some(regex_matches(pattern.source(), b@))
                            &&& m.success == status_is_success
                        }
                    },
                    Some(Err(e)) => {
                        &&& m.total_time_ns is None
                        &&& m.total_size is None
                        &&& (m.error matches Some(t) && t@ == "Failed to read response body from "@
                            + url@ + ": "@ + e@)
                    },
                }
            },
        },
{
    match response {
        ContentResponse::Failed { timed_out, error } => request_failed(
            url,
            timed_out,
            timeout_seconds,
            error.as_str(),
            target_id,
        ),
        ContentResponse::Answered { status, status_is_success, content_length, body, elapsed_ns } => {
            match body {
                None => match check_declared_length(status, content_length, elapsed_ns, target_id) {
                    Some(m) => m,
                    None => {
                        proof {
                            assert(false);
                        }
                        check_failed(String::new(), None)
                    },
                },
                Some(Ok(b)) => check_body(
                    pattern,
                    status,
                    status_is_success,
                    b.as_str(),
                    elapsed_ns,
                    target_id,
                ),
                Some(Err(e)) => body_read_failed(status, url, e.as_str(), target_id),
            }
        },
    }
}

} // verus!
