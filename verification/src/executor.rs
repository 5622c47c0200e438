//! What a task's run reports: each probe's raw outcome becomes a metric,
//! and the metric decides whether the run counts as a success. Times are
//! handled in nanoseconds and reported in whole milliseconds.
use vstd::prelude::*;

use crate::tasks::{timeout_of, TaskConfig};
use crate::text::{decimal, decimal_string, str_eq};
use crate::target::{days_until_expiry, days_until_expiry_of};

verus! {

broadcast use vstd::string::group_string_axioms;

/// Whole milliseconds in a number of nanoseconds.
pub open spec fn ms_of(ns: u64) -> u64 {
    ns / 1_000_000
}

/// An optional text by its characters.
pub open spec fn text_of(o: Option<String>) -> Option<Seq<char>> {
    match o {
        Some(s) => Some(s@),
        None => None,
    }
}

/// A certificate as the probes see it: its expiry, in seconds since the
/// Unix epoch, and whether it was active when it was read.
#[derive(Debug, Clone, Copy, PartialEq, Eq, Structural)]
pub struct CertificateInformation {
    pub expires_at: u64,
    pub is_active: bool,
}

/// The certificate check reported beside a probe: valid or not, and the
/// days left (negative once expired), when a certificate was seen.
pub open spec fn ssl_fields(cert: Option<CertificateInformation>, now: u64) -> (
    Option<bool>,
    Option<int>,
) {
    match cert {
        Some(c) => (Some(c.is_active), Some(days_until_expiry_of(c.expires_at, now))),
        None => (None, None),
    }
}

fn ssl_fields_exec(cert: Option<CertificateInformation>, now: u64) -> (r: (Option<bool>, Option<i64>))
    ensures
        r.0 == ssl_fields(cert, now).0,
        (r.1 is Some) == (ssl_fields(cert, now).1 is Some),
        r.1 matches Some(d) ==> d as int == ssl_fields(cert, now).1->0,
{
    match cert {
        Some(c) => (Some(c.is_active), Some(days_until_expiry(c.expires_at, now))),
        None => (None, None),
    }
}

/// The metric of an HTTP GET probe.
#[derive(Debug, Clone, PartialEq, Eq)]
pub struct HttpMetric {
    pub status_code: Option<u16>,
    pub tcp_timing_ms: Option<u64>,
    pub tls_timing_ms: Option<u64>,
    pub ttfb_timing_ms: Option<u64>,
    pub content_download_timing_ms: Option<u64>,
    pub total_time_ms: Option<u64>,
    pub success: bool,
    pub error: Option<String>,
    pub ssl_valid: Option<bool>,
    pub ssl_cert_days_until_expiry: Option<i64>,
    pub target_id: Option<String>,
}

/// The timings of an HTTP exchange, in nanoseconds.
#[derive(Debug, Clone, Copy, PartialEq, Eq, Structural)]
pub struct HttpTimingsNs {
    pub tcp: u64,
    pub tls: Option<u64>,
    pub ttfb: u64,
    pub content_download: u64,
}

/// The whole exchange's time: the sum of its phases.
pub open spec fn total_ns(t: HttpTimingsNs) -> int {
    t.tcp + (match t.tls {
        Some(x) => x as int,
        None => 0,
    }) + t.ttfb + t.content_download
}

/// The metric of an HTTP exchange that got a response: each phase and the
/// whole in milliseconds, success for a status from 200 to 399.
pub fn http_metric_from_response(
    status: u16,
    timings: HttpTimingsNs,
    cert: Option<CertificateInformation>,
    now: u64,
    target_id: Option<String>,
) -> (m: HttpMetric)
    requires
        total_ns(timings) <= u64::MAX,
    ensures
        m.status_code == Some(status),
        m.tcp_timing_ms == Some(ms_of(timings.tcp)),
        m.tls_timing_ms == match timings.tls {
            Some(x) => Some(ms_of(x)),
            None => None::<u64>,
        },
        m.ttfb_timing_ms == Some(ms_of(timings.ttfb)),
        m.content_download_timing_ms == Some(ms_of(timings.content_download)),
        m.total_time_ms == Some(ms_of(total_ns(timings) as u64)),
        m.success == (200 <= status < 400),
        m.error is None,
        m.ssl_valid == ssl_fields(cert, now).0,
        (m.ssl_cert_days_until_expiry is Some) == (ssl_fields(cert, now).1 is Some),
        m.ssl_cert_days_until_expiry matches Some(d) ==> d as int == ssl_fields(cert, now).1->0,
        m.target_id == target_id,
{
    let tls_ns: u64 = match timings.tls {
        Some(x) => x,
        None => 0,
    };
    let total = timings.tcp + tls_ns + timings.ttfb + timings.content_download;
    let (ssl_valid, days) = ssl_fields_exec(cert, now);
    HttpMetric {
        status_code: Some(status),
        tcp_timing_ms: Some(timings.tcp / 1_000_000),
        tls_timing_ms: match timings.tls {
            Some(x) => Some(x / 1_000_000),
            None => None,
        },
        ttfb_timing_ms: Some(timings.ttfb / 1_000_000),
        content_download_timing_ms: Some(timings.content_download / 1_000_000),
        total_time_ms: Some(total / 1_000_000),
        success: 200 <= status && status < 400,
        error: None,
        ssl_valid,
        ssl_cert_days_until_expiry: days,
        target_id,
    }
}

/// The metric of an HTTP exchange that failed with an error.
pub fn http_metric_from_error(error: String, target_id: Option<String>) -> (m: HttpMetric)
    ensures
        m == (HttpMetric {
            status_code: None,
            tcp_timing_ms: None,
            tls_timing_ms: None,
            ttfb_timing_ms: None,
            content_download_timing_ms: None,
            total_time_ms: None,
            success: false,
            error: Some(error),
            ssl_valid: None,
            ssl_cert_days_until_expiry: None,
            target_id,
        }),
{
    HttpMetric {
        status_code: None,
        tcp_timing_ms: None,
        tls_timing_ms: None,
        ttfb_timing_ms: None,
        content_download_timing_ms: None,
        total_time_ms: None,
        success: false,
        error: Some(error),
        ssl_valid: None,
        ssl_cert_days_until_expiry: None,
        target_id,
    }
}

/// The error text of a probe, or "Unknown error" when it gave none.
pub open spec fn error_or_unknown(e: Option<Seq<char>>) -> Seq<char> {
    match e {
        Some(t) => t,
        None => "Unknown error"@,
    }
}

fn error_or_unknown_exec(e: &Option<String>) -> (r: String)
    ensures
        r@ == error_or_unknown(text_of(*e)),
{
    match e {
        Some(t) => t.clone(),
        None => String::from_str("Unknown error"),
    }
}

/// The message of a failed certificate validation.
pub open spec fn ssl_failed_text() -> Seq<char> {
    "SSL certificate validation failed"@
}

/// An HTTP GET run: a failed probe fails the run with its error, and so does
/// an invalid certificate when validation was asked for; otherwise the run
/// reports the metric.
pub fn http_task_outcome(metric: HttpMetric, verify_ssl: bool) -> (r: Result<HttpMetric, String>)
    ensures
        !metric.success ==> (r matches Err(e) && e@ == "HTTP request failed: "@ + error_or_unknown(
            text_of(metric.error),
        )),
        metric.success && verify_ssl && metric.ssl_valid == Some(false) ==> (r matches Err(e) && e@
            == ssl_failed_text()),
        metric.success && !(verify_ssl && metric.ssl_valid == Some(false)) ==> r == Ok::<
            HttpMetric,
            String,
        >(metric),
{
    if !metric.success {
        let mut e = String::from_str("HTTP request failed: ");
        e.append(error_or_unknown_exec(&metric.error).as_str());
        return Err(e);
    }
    if verify_ssl && metric.ssl_valid == Some(false) {
        return Err(String::from_str("SSL certificate validation failed"));
    }
    Ok(metric)
}

/// The metric of a TLS handshake probe.
#[derive(Debug, Clone, PartialEq, Eq)]
pub struct TlsMetric {
    pub tcp_timing_ms: Option<u64>,
    pub tls_timing_ms: Option<u64>,
    pub ssl_valid: Option<bool>,
    pub ssl_cert_days_until_expiry: Option<i64>,
    pub success: bool,
    pub error: Option<String>,
    pub target_id: Option<String>,
}

/// The outcome of a completed TLS handshake check.
#[derive(Debug)]
pub struct TlsCheckResult {
    /// TCP connection time, in nanoseconds
    pub tcp_timing_ns: u64,
    /// TLS handshake time, in nanoseconds
    pub tls_timing_ns: Option<u64>,
    pub ssl_valid: Option<bool>,
    pub ssl_cert_days_until_expiry: Option<i64>,
    pub success: bool,
    pub error: Option<String>,
}

/// The result of a handshake that completed: both timings, and the
/// certificate's validity and days left when a certificate was seen.
pub fn tls_check_result(
    tcp_ns: u64,
    tls_ns: u64,
    cert: Option<CertificateInformation>,
    now: u64,
) -> (r: TlsCheckResult)
    ensures
        r.tcp_timing_ns == tcp_ns,
        r.tls_timing_ns == Some(tls_ns),
        r.ssl_valid == ssl_fields(cert, now).0,
        (r.ssl_cert_days_until_expiry is Some) == (ssl_fields(cert, now).1 is Some),
        r.ssl_cert_days_until_expiry matches Some(d) ==> d as int == ssl_fields(cert, now).1->0,
        r.success,
        r.error is None,
{
    let (ssl_valid, days) = ssl_fields_exec(cert, now);
    TlsCheckResult {
        tcp_timing_ns: tcp_ns,
        tls_timing_ns: Some(tls_ns),
        ssl_valid,
        ssl_cert_days_until_expiry: days,
        success: true,
        error: None,
    }
}

/// The metric of a TLS check: the check's fields, or its error.
pub fn tls_metric(check: Result<TlsCheckResult, String>, target_id: Option<String>) -> (m: TlsMetric)
    ensures
        m.target_id == target_id,
        match check {
            Ok(c) => m.tcp_timing_ms == Some(ms_of(c.tcp_timing_ns)) && m.tls_timing_ms == match c.tls_timing_ns {
                Some(x) => Some(ms_of(x)),
                None => None::<u64>,
            } && m.ssl_valid == c.ssl_valid && m.ssl_cert_days_until_expiry
                == c.ssl_cert_days_until_expiry && m.success == c.success && m.error == c.error,
            Err(e) => m.tcp_timing_ms is None && m.tls_timing_ms is None && m.ssl_valid is None
                && m.ssl_cert_days_until_expiry is None && !m.success && m.error == Some(e),
        },
{
    match check {
        Ok(c) => TlsMetric {
            tcp_timing_ms: Some(c.tcp_timing_ns / 1_000_000),
            tls_timing_ms: match c.tls_timing_ns {
                Some(x) => Some(x / 1_000_000),
                None => None,
            },
            ssl_valid: c.ssl_valid,
            ssl_cert_days_until_expiry: c.ssl_cert_days_until_expiry,
            success: c.success,
            error: c.error,
            target_id,
        },
        Err(e) => TlsMetric {
            tcp_timing_ms: None,
            tls_timing_ms: None,
            ssl_valid: None,
            ssl_cert_days_until_expiry: None,
            success: false,
            error: Some(e),
            target_id,
        },
    }
}

/// A TLS handshake run: the same rules as for HTTP GET.
pub fn tls_task_outcome(metric: TlsMetric, verify_ssl: bool) -> (r: Result<TlsMetric, String>)
    ensures
        !metric.success ==> (r matches Err(e) && e@ == "TLS handshake failed: "@ + error_or_unknown(
            text_of(metric.error),
        )),
        metric.success && verify_ssl && metric.ssl_valid == Some(false) ==> (r matches Err(e) && e@
            == ssl_failed_text()),
        metric.success && !(verify_ssl && metric.ssl_valid == Some(false)) ==> r == Ok::<
            TlsMetric,
            String,
        >(metric),
{
    if !metric.success {
        let mut e = String::from_str("TLS handshake failed: ");
        e.append(error_or_unknown_exec(&metric.error).as_str());
        return Err(e);
    }
    if verify_ssl && metric.ssl_valid == Some(false) {
        return Err(String::from_str("SSL certificate validation failed"));
    }
    Ok(metric)
}

/// The metric of a DNS query.
#[derive(Debug, Clone, PartialEq, Eq)]
pub struct DnsMetric {
    /// Query time in nanoseconds.
    pub query_time_ns: Option<u64>,
    pub success: bool,
    pub record_count: Option<u32>,
    pub resolved_addresses: Option<Vec<String>>,
    pub domain_queried: String,
    pub error: Option<String>,
    pub expected_ip: Option<String>,
    pub resolved_ip: Option<String>,
    pub correct_resolution: bool,
    pub target_id: Option<String>,
}

/// Whether an answer matches the expected address: any answer equal to it,
/// or always when none is expected.
pub open spec fn resolution_correct(answers: Seq<Seq<char>>, expected: Option<Seq<char>>) -> bool {
    match expected {
        Some(e) => answers.contains(e),
        None => true,
    }
}

/// With an expected address, the resolution is correct exactly when some
/// answer, at any position (the first among them), is that address; with
/// none expected it is always correct.
pub proof fn lemma_resolution_correct_iff_answered(answers: Seq<Seq<char>>, expected: Seq<char>)
    ensures
        resolution_correct(answers, Some(expected)) <==> exists|i: int|
            0 <= i < answers.len() && answers[i] == expected,
        answers.len() > 0 && answers[0] == expected ==> resolution_correct(answers, Some(expected)),
        resolution_correct(answers, None),
{
    if answers.len() > 0 && answers[0] == expected {
        assert(answers.contains(expected));
    }
}

/// The answers by their characters.
pub open spec fn texts_of(v: Seq<String>) -> Seq<Seq<char>> {
    v.map_values(|s: String| s@)
}

fn any_equals(answers: &Vec<String>, expected: &str) -> (r: bool)
    ensures
        r == texts_of(answers@).contains(expected@),
{
    let mut i: usize = 0;
    while i < answers.len()
        invariant
            0 <= i <= answers@.len(),
            forall|j: int| 0 <= j < i ==> (#[trigger] answers@[j])@ != expected@,
        decreases answers@.len() - i,
    {
        if str_eq(answers[i].as_str(), expected) {
            assert(texts_of(answers@)[i as int] == expected@);
            return true;
        }
        i = i + 1;
    }
    proof {
        if texts_of(answers@).contains(expected@) {
            let j = choose|j: int| 0 <= j < texts_of(answers@).len() && texts_of(answers@)[j] == expected@;
            assert(answers@[j]@ == expected@);
        }
    }
    false
}

/// The metric of a DNS query: with the answers, their count, the first as
/// the resolved address and whether any matches the expected one; without,
/// the error, and the resolution counts as wrong.
pub fn dns_metric(
    answers: Result<Vec<String>, String>,
    elapsed_ns: u64,
    domain: &str,
    expected_ip: Option<String>,
    target_id: Option<String>,
) -> (m: DnsMetric)
    requires
        answers matches Ok(a) ==> a@.len() <= u32::MAX,
    ensures
        m.domain_queried@ == domain@,
        m.expected_ip == expected_ip,
        m.target_id == target_id,
        match answers {
            Ok(a) => {
                &&& m.query_time_ns == Some(elapsed_ns)
                &&& m.success
                &&& m.record_count == Some(a@.len() as u32)
                &&& m.resolved_addresses == Some(a)
                &&& m.error is None
                &&& m.resolved_ip == if a@.len() > 0 {
                    Some(a@[0])
                } else {
                    None::<String>
                }
                &&& m.correct_resolution == resolution_correct(texts_of(a@), text_of(expected_ip))
            },
            Err(e) => {
                &&& m.query_time_ns is None
                &&& !m.success
                &&& m.record_count is None
                &&& m.resolved_addresses is None
                &&& m.error == Some(e)
                &&& m.resolved_ip is None
                &&& !m.correct_resolution
            },
        },
{
    match answers {
        Ok(a) => {
            let correct = match &expected_ip {
                Some(e) => any_equals(&a, e.as_str()),
                None => true,
            };
            let resolved_ip = if a.len() > 0 {
                Some(a[0].clone())
            } else {
                None
            };
            DnsMetric {
                query_time_ns: Some(elapsed_ns),
                success: true,
                record_count: Some(a.len() as u32),
                resolved_addresses: Some(a),
                domain_queried: String::from_str(domain),
                error: None,
                expected_ip,
                resolved_ip,
                correct_resolution: correct,
                target_id,
            }
        },
        Err(e) => DnsMetric {
            query_time_ns: None,
            success: false,
            record_count: None,
            resolved_addresses: None,
            domain_queried: String::from_str(domain),
            error: Some(e),
            expected_ip,
            resolved_ip: None,
            correct_resolution: false,
            target_id,
        },
    }
}

/// An address by its characters, or "none".
pub open spec fn or_none(o: Option<Seq<char>>) -> Seq<char> {
    match o {
        Some(t) => t,
        None => "none"@,
    }
}

fn or_none_exec(o: &Option<String>) -> (r: String)
    ensures
        r@ == or_none(text_of(*o)),
{
    match o {
        Some(t) => t.clone(),
        None => String::from_str("none"),
    }
}

/// A DNS run (`over_https` for DNS over HTTPS): a failed query fails the
/// run, and so does an answer that does not match the expected address.
pub fn dns_task_outcome(metric: DnsMetric, over_https: bool) -> (r: Result<DnsMetric, String>)
    ensures
        !metric.success ==> (r matches Err(e) && e@ == (if over_https {
            "DNS over HTTPS query failed: "@
        } else {
            "DNS query failed: "@
        }) + error_or_unknown(text_of(metric.error))),
        metric.success && !metric.correct_resolution ==> (r matches Err(e) && e@ == "Resolved IP '"@
            + or_none(text_of(metric.resolved_ip)) + "' does not match expected IP '"@ + or_none(
            text_of(metric.expected_ip),
        ) + "'"@),
        metric.success && metric.correct_resolution ==> r == Ok::<DnsMetric, String>(metric),
{
    if !metric.success {
        let mut e = if over_https {
            String::from_str("DNS over HTTPS query failed: ")
        } else {
            String::from_str("DNS query failed: ")
        };
        e.append(error_or_unknown_exec(&metric.error).as_str());
        return Err(e);
    }
    if !metric.correct_resolution {
        let mut e = String::from_str("Resolved IP '");
        e.append(or_none_exec(&metric.resolved_ip).as_str());
        e.append("' does not match expected IP '");
        e.append(or_none_exec(&metric.expected_ip).as_str());
        e.append("'");
        return Err(e);
    }
    Ok(metric)
}

/// The metric of a TCP connection probe.
#[derive(Debug, Clone, PartialEq, Eq)]
pub struct TcpMetric {
    /// Connection time in nanoseconds.
    pub connect_time_ns: Option<u64>,
    pub success: bool,
    pub error: Option<String>,
    pub host: String,
    pub target_id: Option<String>,
}

/// How a TCP probe ended.
#[derive(Debug, Clone, PartialEq, Eq)]
pub enum TcpOutcome {
    /// The host resolved to no address.
    NoAddress,
    /// The host could not be resolved; the resolver's message.
    ResolveFailed(String),
    /// Connected after this many nanoseconds.
    Connected(u64),
    /// The connection failed; the error's message.
    ConnectFailed(String),
    /// No connection within the timeout, in seconds.
    TimedOut(u32),
}

/// The error reported for a TCP probe's outcome, if any.
pub open spec fn tcp_error_text(o: TcpOutcome) -> Option<Seq<char>> {
    match o {
        TcpOutcome::NoAddress => Some("Failed to parse host: no addresses found"@),
        TcpOutcome::ResolveFailed(e) => Some("Failed to parse host: "@ + e@),
        TcpOutcome::Connected(_) => None,
        TcpOutcome::ConnectFailed(e) => Some("Connection error: "@ + e@),
        TcpOutcome::TimedOut(s) => Some("Connection timeout after "@ + decimal(s as nat) + " seconds"@),
    }
}

/// The metric of a TCP probe.
pub fn tcp_metric(host: String, outcome: TcpOutcome, target_id: Option<String>) -> (m: TcpMetric)
    ensures
        m.host == host,
        m.target_id == target_id,
        m.success == (outcome is Connected),
        m.connect_time_ns == match outcome {
            TcpOutcome::Connected(ns) => Some(ns),
            _ => None::<u64>,
        },
        text_of(m.error) == tcp_error_text(outcome),
{
    let (time, error) = match outcome {
        TcpOutcome::NoAddress => (None, Some(String::from_str("Failed to parse host: no addresses found"))),
        TcpOutcome::ResolveFailed(e) => {
            let mut t = String::from_str("Failed to parse host: ");
            t.append(e.as_str());
            (None, Some(t))
        },
        TcpOutcome::Connected(ns) => (Some(ns), None),
        TcpOutcome::ConnectFailed(e) => {
            let mut t = String::from_str("Connection error: ");
            t.append(e.as_str());
            (None, Some(t))
        },
        TcpOutcome::TimedOut(s) => {
            let mut t = String::from_str("Connection timeout after ");
            t.append(decimal_string(s as u64).as_str());
            t.append(" seconds");
            (None, Some(t))
        },
    };
    TcpMetric { connect_time_ns: time, success: time.is_some(), error, host, target_id }
}

/// The report of one task run, sent back to the scheduler.
#[derive(Debug, Clone)]
pub struct TaskResult<M> {
    pub task_name: String,
    pub success: bool,
    pub metric_data: Option<M>,
    pub error: Option<String>,
    /// How long the run took, in nanoseconds.
    pub execution_time_ns: u64,
}

/// The report of a run: its metric when it succeeded, else its error.
pub fn task_result<M>(task_name: String, outcome: Result<M, String>, execution_time_ns: u64) -> (r:
    TaskResult<M>)
    ensures
        r.task_name == task_name,
        r.execution_time_ns == execution_time_ns,
        match outcome {
            Ok(m) => r.success && r.metric_data == Some(m) && r.error is None,
            Err(e) => !r.success && r.metric_data is None && r.error == Some(e),
        },
{
    match outcome {
        Ok(m) => TaskResult {
            task_name,
            success: true,
            metric_data: Some(m),
            error: None,
            execution_time_ns,
        },
        Err(e) => TaskResult {
            task_name,
            success: false,
            metric_data: None,
            error: Some(e),
            execution_time_ns,
        },
    }
}

/// The error of a run that outlived its timeout.
pub fn timeout_message(timeout_seconds: u32) -> (s: String)
    ensures
        s@ == "Task timed out after "@ + decimal(timeout_seconds as nat) + " seconds"@,
{
    let mut s = String::from_str("Task timed out after ");
    s.append(decimal_string(timeout_seconds as u64).as_str());
    s.append(" seconds");
    s
}

/// How a run ended: its work finished, or its timeout came first.
pub enum RunOutcome<M> {
    Finished(Result<M, String>),
    TimedOut,
}

/// The report of a run of `task`. It succeeded exactly when it carries a
/// metric and no error; a run that outlived the task's timeout failed with
/// the timeout message for that timeout.
pub fn run_report<M>(task: &TaskConfig, outcome: RunOutcome<M>, execution_time_ns: u64) -> (r: TaskResult<M>)
    ensures
        r.task_name@ == task.name@,
        r.execution_time_ns == execution_time_ns,
        r.success <==> r.metric_data is Some,
        r.success <==> r.error is None,
        match outcome {
            RunOutcome::Finished(Ok(m)) => r.success && r.metric_data == Some(m),
            RunOutcome::Finished(Err(e)) => !r.success && r.error == Some(e),
            RunOutcome::TimedOut => !r.success && (r.error matches Some(e) && e@
                == "Task timed out after "@ + decimal(timeout_of(*task) as nat) + " seconds"@),
        },
{
    let name = task.name.clone();
    match outcome {
        RunOutcome::Finished(o) => task_result(name, o, execution_time_ns),
        RunOutcome::TimedOut => task_result(
            name,
            Err(timeout_message(task.effective_timeout())),
            execution_time_ns,
        ),
    }
}

/// The message of a task whose parameters do not fit its type.
pub fn invalid_parameters_message(kind: &str) -> (s: String)
    ensures
        s@ == "Invalid parameters for "@ + kind@ + " task"@,
{
    let mut s = String::from_str("Invalid parameters for ");
    s.append(kind);
    s.append(" task");
    s
}

/// The server settings a bandwidth test needs, when all three are present.
pub fn bandwidth_credentials(
    server_url: &Option<String>,
    api_key: &Option<String>,
    agent_id: &Option<String>,
) -> (r: Result<(String, String, String), String>)
    ensures
        match (*server_url, *api_key, *agent_id) {
            (Some(u), Some(k), Some(i)) => (r matches Ok(t) && t.0 == u && t.1 == k && t.2 == i),
            _ => (r matches Err(e) && e@
                == "Bandwidth test requires server configuration (not available in local-only mode)"@),
        },
{
    match (server_url, api_key, agent_id) {
        (Some(u), Some(k), Some(i)) => Ok((u.clone(), k.clone(), i.clone())),
        _ => Err(
            String::from_str(
                "Bandwidth test requires server configuration (not available in local-only mode)",
            ),
        ),
    }
}

/// Adds a downloaded chunk to the byte count.
pub fn add_downloaded(total: u64, chunk_len: usize) -> (t: u64)
    requires
        total + chunk_len <= u64::MAX,
    ensures
        t == total + chunk_len,
{
    total + chunk_len as u64
}

/// The expiry of a DER certificate as a Unix timestamp, or the parser's
/// message when the bytes are no certificate.
pub uninterp spec fn x509_not_after(der: Seq<u8>) -> Result<i64, Seq<char>>;

/// A parse result with its message by characters.
pub open spec fn timestamp_result(r: Result<i64, String>) -> Result<i64, Seq<char>> {
    match r {
        Ok(t) => Ok(t),
        Err(e) => Err(e@),
    }
}

/// `x509_parser::parse_x509_certificate` (`X509Certificate::from_der`), then
/// the timestamp of `validity().not_after`; on failure the error's display
/// text. Claimed: the outcome is `x509_not_after` of the bytes.
#[verifier::external_body]
fn parse_cert_not_after(der: &[u8]) -> (r: Result<i64, String>)
    ensures
        timestamp_result(r) == x509_not_after(der@),
{
    match x509_parser::parse_x509_certificate(der) {
        Ok((_, cert)) => Ok(cert.validity().not_after.timestamp()),
        Err(e) => Err(format!("{}", e)),
    }
}

/// The expiry of a DER certificate, in seconds since the Unix epoch.
pub fn extract_cert_expiry(der: &[u8]) -> (r: Result<u64, String>)
    ensures
        match x509_not_after(der@) {
            Ok(t) => r == Ok::<u64, String>(t as u64),
            Err(e) => (r matches Err(m) && m@ == "Failed to parse certificate DER: "@ + e),
        },
{
    match parse_cert_not_after(der) {
        Ok(t) => Ok(t as u64),
        Err(e) => {
            let mut m = String::from_str("Failed to parse certificate DER: ");
            m.append(e.as_str());
            Err(m)
        },
    }
}

/// The information on a peer's certificate read at `now`: its expiry, and
/// whether that lies after `now`.
pub fn certificate_information(der: &[u8], now: u64) -> (r: Result<CertificateInformation, String>)
    ensures
        match x509_not_after(der@) {
            Ok(t) => r == Ok::<CertificateInformation, String>(
                CertificateInformation { expires_at: t as u64, is_active: t as u64 > now },
            ),
            Err(e) => (r matches Err(m) && m@ == "Failed to parse certificate DER: "@ + e),
        },
{
    match extract_cert_expiry(der) {
        Ok(expires_at) => Ok(CertificateInformation { expires_at, is_active: expires_at > now }),
        Err(e) => Err(e),
    }
}

/// What a TLS handshake gives: its duration, the encrypted stream `S`, and
/// the peer's certificate with what was read from it.
pub struct TlsTimingResponse<S> {
    pub timing: std::time::Duration,
    pub stream: S,
    pub certificate_information: Option<CertificateInformation>,
    /// The DER bytes of the peer's first certificate.
    pub certificate: Option<Vec<u8>>,
}

/// The handshake's outcome once its certificate, if any, was read at `now`;
/// a certificate that cannot be parsed fails the handshake.
pub fn tls_timing_response<S>(
    timing: std::time::Duration,
    stream: S,
    peer_certificate: Option<Vec<u8>>,
    now: u64,
) -> (r: Result<TlsTimingResponse<S>, String>)
    ensures
        match peer_certificate {
            None => (r matches Ok(t) && t.timing == timing && t.stream == stream
                && t.certificate_information is None && t.certificate is None),
            Some(der) => match x509_not_after(der@) {
                Ok(ts) => (r matches Ok(t) && t.timing == timing && t.stream == stream
                    && t.certificate_information == Some(
                    CertificateInformation { expires_at: ts as u64, is_active: ts as u64 > now },
                ) && t.certificate == Some(der)),
                Err(e) => (r matches Err(m) && m@ == "Failed to parse certificate DER: "@ + e),
            },
        },
{
    match peer_certificate {
        None => Ok(
            TlsTimingResponse { timing, stream, certificate_information: None, certificate: None },
        ),
        Some(der) => match certificate_information(der.as_slice(), now) {
            Ok(info) => Ok(
                TlsTimingResponse {
                    timing,
                    stream,
                    certificate_information: Some(info),
                    certificate: Some(der),
                },
            ),
            Err(e) => Err(e),
        },
    }
}

/// A record of a DNS answer, with what its text is made of.
#[derive(Debug, Clone, PartialEq, Eq)]
pub enum DnsAnswer {
    /// An IPv4 address, in its text form.
    A(String),
    /// An IPv6 address, in its text form.
    Aaaa(String),
    /// A canonical name.
    Cname(String),
    /// A mail exchanger: its preference and its name.
    Mx(u16, String),
    /// Text record strings, as raw bytes.
    Txt(Vec<Vec<u8>>),
    /// A name server.
    Ns(String),
    /// Another record type, by its debug text.
    Other(String),
}

/// The text of bytes read as UTF-8, invalid sequences replaced.
pub uninterp spec fn utf8_lossy(bytes: Seq<u8>) -> Seq<char>;

/// `String::from_utf8_lossy`. Claimed: the text is `utf8_lossy` of the bytes,
/// and valid UTF-8 is decoded as it is.
#[verifier::external_body]
fn lossy_text(bytes: &[u8]) -> (s: String)
    ensures
        s@ == utf8_lossy(bytes@),
        vstd::utf8::valid_utf8(bytes@) ==> s@ == vstd::utf8::decode_utf8(bytes@),
{
    String::from_utf8_lossy(bytes).into_owned()
}

/// The texts of a TXT record's strings, joined by spaces.
pub open spec fn txt_text(parts: Seq<Vec<u8>>) -> Seq<char>
    decreases parts.len(),
{
    if parts.len() == 0 {
        Seq::empty()
    } else if parts.len() == 1 {
        utf8_lossy(parts[0]@)
    } else {
        txt_text(parts.drop_last()) + " "@ + utf8_lossy(parts.last()@)
    }
}

/// How an answer is reported among the resolved addresses.
pub open spec fn answer_text(a: DnsAnswer) -> Seq<char> {
    match a {
        DnsAnswer::A(t) => t@,
        DnsAnswer::Aaaa(t) => t@,
        DnsAnswer::Cname(t) => t@,
        DnsAnswer::Mx(p, n) => decimal(p as nat) + " "@ + n@,
        DnsAnswer::Txt(parts) => txt_text(parts@),
        DnsAnswer::Ns(t) => t@,
        DnsAnswer::Other(d) => "Unsupported record type: "@ + d@,
    }
}

fn answer_string(a: &DnsAnswer) -> (s: String)
    ensures
        s@ == answer_text(*a),
{
    match a {
        DnsAnswer::A(t) => t.clone(),
        DnsAnswer::Aaaa(t) => t.clone(),
        DnsAnswer::Cname(t) => t.clone(),
        DnsAnswer::Mx(p, n) => {
            let mut s = decimal_string(*p as u64);
            s.append(" ");
            s.append(n.as_str());
            s
        },
        DnsAnswer::Txt(parts) => {
            let mut s = String::new();
            let mut i: usize = 0;
            while i < parts.len()
                invariant
                    0 <= i <= parts@.len(),
                    s@ == txt_text(parts@.take(i as int)),
                decreases parts@.len() - i,
            {
                let ghost pre = parts@.take(i as int);
                let ghost next = parts@.take(i + 1);
                assert(next.drop_last() =~= pre);
                assert(next.last() == parts@[i as int]);
                if i > 0 {
                    s.append(" ");
                } else {
                    assert(pre =~= Seq::<Vec<u8>>::empty());
                }
                let t = lossy_text(parts[i].as_slice());
                s.append(t.as_str());
                i = i + 1;
            }
            assert(parts@.take(parts@.len() as int) =~= parts@);
            s
        },
        DnsAnswer::Ns(t) => t.clone(),
        DnsAnswer::Other(d) => {
            let mut s = String::from_str("Unsupported record type: ");
            s.append(d.as_str());
            s
        },
    }
}

/// The answers of a response: their number and their texts, in order.
pub fn parse_answers(answers: &Vec<DnsAnswer>) -> (r: (u32, Vec<String>))
    requires
        answers@.len() <= u32::MAX,
    ensures
        r.0 == answers@.len(),
        r.1@.len() == answers@.len(),
        forall|i: int| 0 <= i < answers@.len() ==> (#[trigger] r.1@[i])@ == answer_text(answers@[i]),
{
    let mut texts: Vec<String> = Vec::new();
    let mut i: usize = 0;
    while i < answers.len()
        invariant
            0 <= i <= answers@.len(),
            texts@.len() == i,
            forall|j: int| 0 <= j < i ==> (#[trigger] texts@[j])@ == answer_text(answers@[j]),
        decreases answers@.len() - i,
    {
        texts.push(answer_string(&answers[i]));
        i = i + 1;
    }
    (answers.len() as u32, texts)
}

} // verus!
