use agent::bandwidth::{
    bandwidth_metric, BandwidthError, BandwidthSession, PermissionReply, ReplyStep,
};
use agent::clock::current_timestamp;
use agent::executor::{
    add_downloaded, bandwidth_credentials, parse_answers, DnsAnswer, certificate_information, dns_metric,
    dns_task_outcome, extract_cert_expiry, http_metric_from_error, http_metric_from_response,
    http_task_outcome, invalid_parameters_message, task_result, tcp_metric, timeout_message,
    tls_check_result, tls_metric, tls_task_outcome, tls_timing_response, CertificateInformation,
    HttpTimingsNs, TcpOutcome,
};
use agent::http_content::{
    body_read_failed, check_body, check_declared_length, check_failed, compile_pattern,
    content_check, request_failed, ContentResponse,
};
use agent::http_wire::{
    body_plan, chunk_step, get_request, next_read_size, parse_chunk_size, until_close_step,
    BodyPlan, ChunkStep, LineOutcome, ResponseHead, ResponseTimings, WireError,
};
use agent::target::{
    certificate_active, connect_target, days_until_expiry, dns_server_address, http_url,
    is_https, parse_url, snmp_host_address, tls_url,
};
use std::time::Duration;

#[test]
fn response_head_is_read_line_by_line() {
    let mut h = ResponseHead::new(b'H');
    assert!(h.has_room());
    assert_eq!(h.push_line("TTP/1.1 200 OK\r\n"), LineOutcome::More);
    assert_eq!(h.push_line("Content-Length: 42\r\n"), LineOutcome::More);
    assert_eq!(h.push_line("\r\n"), LineOutcome::EndOfHead);
    let f = h.fields();
    assert_eq!(f.status, Some(200));
    assert_eq!(f.content_length, Some(42));
    assert!(!f.chunked);
    assert_eq!(body_plan(&f), Ok((200, BodyPlan::Fixed(42))));
}

#[test]
fn response_head_chunked_and_case_insensitive() {
    let mut h = ResponseHead::new(b'H');
    h.push_line("TTP/1.1 404 Not Found\r\n");
    h.push_line("TRANSFER-ENCODING: Chunked\r\n");
    assert_eq!(h.push_line(""), LineOutcome::Closed);
    let f = h.fields();
    assert_eq!(f.status, Some(404));
    assert_eq!(f.content_length, None);
    assert!(f.chunked);
    assert_eq!(body_plan(&f), Ok((404, BodyPlan::Chunked)));
}

#[test]
fn response_head_without_status_or_too_large() {
    let mut h = ResponseHead::new(b'x');
    h.push_line("garbage\r\n");
    let f = h.fields();
    assert_eq!(f.status, None);
    assert_eq!(body_plan(&f), Err(WireError::InvalidStatusLine));
    let mut big = ResponseHead::new(b'H');
    let line = format!("X-Pad: {}\r\n", "a".repeat(70_000));
    assert_eq!(big.push_line(&line), LineOutcome::TooLarge);
    assert!(!big.has_room());
    let mut h2 = ResponseHead::new(b'H');
    h2.push_line("TTP/1.1 200 OK\r\n");
    h2.push_line("content-length: 104857601\r\n");
    assert_eq!(body_plan(&h2.fields()), Err(WireError::ContentTooLarge(104857601)));
    let mut h3 = ResponseHead::new(b'H');
    h3.push_line("TTP/1.0 204 No Content\r\n");
    assert_eq!(body_plan(&h3.fields()), Ok((204, BodyPlan::UntilClose)));
}

#[test]
fn chunked_body_framing() {
    assert_eq!(parse_chunk_size("1a\r\n"), Ok(26));
    assert_eq!(parse_chunk_size("  FF  "), Ok(255));
    assert_eq!(parse_chunk_size("0\r\n"), Ok(0));
    assert_eq!(parse_chunk_size("zz\r\n"), Err(WireError::InvalidChunkSize));
    assert_eq!(parse_chunk_size("\r\n"), Err(WireError::InvalidChunkSize));
    assert_eq!(chunk_step(10, 0), Ok(ChunkStep::Last));
    assert_eq!(chunk_step(10, 5), Ok(ChunkStep::Data));
    assert_eq!(
        chunk_step(104857600, 1),
        Err(WireError::ChunkedTooLarge(104857601))
    );
    assert_eq!(until_close_step(100, 8192), Ok(8292));
    assert_eq!(until_close_step(104857600, 1), Err(WireError::BodyTooLarge(104857601)));
    assert_eq!(next_read_size(100), 100);
    assert_eq!(next_read_size(100_000), 8192);
}

#[test]
fn get_request_text() {
    assert_eq!(
        get_request("", Some("example.com")),
        Ok("GET / HTTP/1.1\r\nHost: example.com\r\nUser-Agent: curl/8.7.1\r\nConnection: close\r\nAccept: */*\r\n\r\n".to_string())
    );
    assert!(get_request("/a/b", Some("h")).unwrap().starts_with("GET /a/b HTTP/1.1\r\nHost: h\r\n"));
    assert_eq!(get_request("/", None), Err(WireError::InvalidHost));
}

#[test]
fn response_timings_keep_their_parts() {
    let t = ResponseTimings::new(
        Duration::from_millis(3),
        None,
        Duration::from_millis(5),
        Duration::from_millis(7),
    );
    assert_eq!(t.tcp, Duration::from_millis(3));
    assert!(t.tls.is_none());
    assert_eq!(t.ttfb, Duration::from_millis(5));
    assert_eq!(t.content_download, Duration::from_millis(7));
}

#[test]
fn urls_and_targets() {
    let u = parse_url("https://example.com/x?y=1").unwrap();
    assert_eq!(u.scheme, "https");
    assert_eq!(u.host.as_deref(), Some("example.com"));
    assert_eq!(u.port, None);
    assert_eq!(u.path, "/x");
    assert!(is_https(&u));
    assert_eq!(connect_target(&u), Ok(("example.com".to_string(), 443)));
    let v = parse_url("http://example.com:8080/").unwrap();
    assert_eq!(connect_target(&v), Ok(("example.com".to_string(), 8080)));
    let w = parse_url("http://example.com").unwrap();
    assert_eq!(w.path, "/");
    assert_eq!(connect_target(&w), Ok(("example.com".to_string(), 80)));
    let f = parse_url("ftp://example.com:21/").unwrap();
    assert_eq!(connect_target(&f), Err(WireError::InvalidScheme));
    let m = parse_url("mailto:someone@example.com").unwrap();
    assert_eq!(connect_target(&m), Err(WireError::InvalidHost));
    assert_eq!(
        parse_url("not a url"),
        Err(WireError::InvalidUrl("relative URL without a base".to_string()))
    );
    assert_eq!(http_url("example.com"), "https://example.com");
    assert_eq!(http_url("http://info.cern.ch"), "http://info.cern.ch");
    assert_eq!(tls_url("example.com:443"), "https://example.com:443");
    assert_eq!(tls_url("https://example.com"), "https://example.com");
}

#[test]
fn default_ports_of_dns_and_snmp() {
    assert_eq!(dns_server_address("8.8.8.8"), "8.8.8.8:53");
    assert_eq!(dns_server_address("8.8.8.8:5353"), "8.8.8.8:5353");
    assert_eq!(snmp_host_address("10.0.0.1"), "10.0.0.1:161");
    assert_eq!(snmp_host_address("10.0.0.1:1161"), "10.0.0.1:1161");
    assert_eq!(snmp_host_address("fe80::1"), "[fe80::1]:161");
    assert_eq!(snmp_host_address("[fe80::1]:162"), "[fe80::1]:162");
}

#[test]
fn certificate_lifetime() {
    assert_eq!(days_until_expiry(1000 + 3 * 86400 + 5, 1000), 3);
    assert_eq!(days_until_expiry(1000, 1000 + 86400 * 2 + 1), -2);
    assert_eq!(days_until_expiry(1000, 1000), 0);
    assert!(certificate_active(10, 9));
    assert!(!certificate_active(10, 10));
}

#[test]
fn http_probe_metrics_and_outcomes() {
    let timings = HttpTimingsNs {
        tcp: 1_500_000,
        tls: Some(2_600_000),
        ttfb: 3_000_000,
        content_download: 900_000,
    };
    let cert = Some(CertificateInformation { expires_at: 1000 + 10 * 86400, is_active: true });
    let m = http_metric_from_response(200, timings, cert, 1000, Some("t1".to_string()));
    assert_eq!(m.status_code, Some(200));
    assert_eq!(m.tcp_timing_ms, Some(1));
    assert_eq!(m.tls_timing_ms, Some(2));
    assert_eq!(m.ttfb_timing_ms, Some(3));
    assert_eq!(m.content_download_timing_ms, Some(0));
    // the total is summed before it is rounded down
    assert_eq!(m.total_time_ms, Some(8));
    assert!(m.success);
    assert_eq!(m.ssl_valid, Some(true));
    assert_eq!(m.ssl_cert_days_until_expiry, Some(10));
    assert_eq!(http_task_outcome(m.clone(), true), Ok(m));

    let redirect = http_metric_from_response(301, timings, None, 0, None);
    assert!(redirect.success);
    assert_eq!(redirect.ssl_valid, None);
    let missing = http_metric_from_response(404, timings, None, 0, None);
    assert!(!missing.success);
    assert_eq!(
        http_task_outcome(missing, false),
        Err("HTTP request failed: Unknown error".to_string())
    );
    let expired = CertificateInformation { expires_at: 10, is_active: false };
    let bad_cert = http_metric_from_response(200, timings, Some(expired), 20, None);
    assert_eq!(
        http_task_outcome(bad_cert.clone(), true),
        Err("SSL certificate validation failed".to_string())
    );
    assert!(http_task_outcome(bad_cert, false).is_ok());
    let failed = http_metric_from_error("io error: refused".to_string(), None);
    assert_eq!(
        http_task_outcome(failed, true),
        Err("HTTP request failed: io error: refused".to_string())
    );
}

#[test]
fn tls_probe_metrics_and_outcomes() {
    let check = tls_check_result(4_000_000, 12_345_678, None, 0);
    assert!(check.success);
    let m = tls_metric(Ok(check), None);
    assert_eq!(m.tcp_timing_ms, Some(4));
    assert_eq!(m.tls_timing_ms, Some(12));
    assert!(tls_task_outcome(m, true).is_ok());
    let e = tls_metric(Err("timeout error: deadline has elapsed".to_string()), None);
    assert_eq!(
        tls_task_outcome(e, false),
        Err("TLS handshake failed: timeout error: deadline has elapsed".to_string())
    );
    let expired = CertificateInformation { expires_at: 0, is_active: false };
    let c = tls_metric(Ok(tls_check_result(1, 1, Some(expired), 86400 * 3)), None);
    assert_eq!(c.ssl_cert_days_until_expiry, Some(-3));
    assert_eq!(
        tls_task_outcome(c, true),
        Err("SSL certificate validation failed".to_string())
    );
}

#[test]
fn certificates_that_cannot_be_parsed() {
    let e = extract_cert_expiry(&[1, 2, 3]).unwrap_err();
    assert!(e.starts_with("Failed to parse certificate DER: "));
    assert!(certificate_information(&[], 0).is_err());
    let r = tls_timing_response(Duration::from_millis(1), (), Some(vec![0u8; 4]), 0);
    assert!(r.is_err());
    let ok = tls_timing_response(Duration::from_millis(1), 7u8, None, 0).unwrap();
    assert_eq!(ok.stream, 7);
    assert!(ok.certificate_information.is_none());
}

#[test]
fn dns_metrics_and_outcomes() {
    let answers = vec!["93.184.216.34".to_string(), "93.184.216.35".to_string()];
    let m = dns_metric(
        Ok(answers.clone()),
        25_000_000,
        "example.com",
        Some("93.184.216.35".to_string()),
        None,
    );
    assert!(m.success);
    assert_eq!(m.query_time_ns, Some(25_000_000));
    assert_eq!(m.record_count, Some(2));
    assert_eq!(m.resolved_ip.as_deref(), Some("93.184.216.34"));
    assert!(m.correct_resolution);
    assert!(dns_task_outcome(m, false).is_ok());

    let wrong = dns_metric(Ok(answers), 0, "example.com", Some("1.2.3.4".to_string()), None);
    assert!(!wrong.correct_resolution);
    assert_eq!(
        dns_task_outcome(wrong, false),
        Err("Resolved IP '93.184.216.34' does not match expected IP '1.2.3.4'".to_string())
    );
    let none = dns_metric(Ok(vec![]), 0, "example.com", Some("1.2.3.4".to_string()), None);
    assert_eq!(
        dns_task_outcome(none, false),
        Err("Resolved IP 'none' does not match expected IP '1.2.3.4'".to_string())
    );
    let any = dns_metric(Ok(vec![]), 0, "example.com", None, None);
    assert!(any.correct_resolution);
    let failed = dns_metric(Err("DNS query failed".to_string()), 5, "example.com", None, None);
    assert!(!failed.success && !failed.correct_resolution);
    assert_eq!(failed.query_time_ns, None);
    assert_eq!(
        dns_task_outcome(failed.clone(), false),
        Err("DNS query failed: DNS query failed".to_string())
    );
    assert_eq!(
        dns_task_outcome(failed, true),
        Err("DNS over HTTPS query failed: DNS query failed".to_string())
    );
}

#[test]
fn tcp_probe_metrics() {
    let ok = tcp_metric("h:80".to_string(), TcpOutcome::Connected(7_900_000), None);
    assert!(ok.success);
    assert_eq!(ok.connect_time_ns, Some(7_900_000));
    assert_eq!(ok.error, None);
    let cases = [
        (TcpOutcome::NoAddress, "Failed to parse host: no addresses found"),
        (TcpOutcome::ResolveFailed("bad".to_string()), "Failed to parse host: bad"),
        (TcpOutcome::ConnectFailed("refused".to_string()), "Connection error: refused"),
        (TcpOutcome::TimedOut(5), "Connection timeout after 5 seconds"),
    ];
    for (o, msg) in cases {
        let m = tcp_metric("h:80".to_string(), o, Some("id".to_string()));
        assert!(!m.success);
        assert_eq!(m.connect_time_ns, None);
        assert_eq!(m.error.as_deref(), Some(msg));
        assert_eq!(m.host, "h:80");
    }
}

#[test]
fn task_results_and_messages() {
    let r = task_result("a".to_string(), Ok::<u8, String>(3), 10);
    assert!(r.success);
    assert_eq!(r.metric_data, Some(3));
    assert_eq!(r.error, None);
    let e = task_result::<u8>("b".to_string(), Err("x".to_string()), 0);
    assert!(!e.success);
    assert_eq!(e.error.as_deref(), Some("x"));
    assert_eq!(timeout_message(30), "Task timed out after 30 seconds");
    assert_eq!(invalid_parameters_message("HTTP"), "Invalid parameters for HTTP task");
    assert_eq!(add_downloaded(10, 5), 15);
}

#[test]
fn bandwidth_needs_server_settings() {
    let u = Some("https://s".to_string());
    let k = Some("key".to_string());
    let i = Some("id".to_string());
    assert_eq!(
        bandwidth_credentials(&u, &k, &i),
        Ok(("https://s".to_string(), "key".to_string(), "id".to_string()))
    );
    assert_eq!(
        bandwidth_credentials(&u, &None, &i),
        Err("Bandwidth test requires server configuration (not available in local-only mode)".to_string())
    );
}

#[test]
fn bandwidth_negotiation() {
    let mut s = BandwidthSession::new(300, 3);
    assert_eq!(s.check_before_request(0), Ok(()));
    assert_eq!(s.on_reply(PermissionReply::Delay(Some(10)), 0), Ok(ReplyStep::Wait(10)));
    assert_eq!(s.retry_count, 1);
    assert_eq!(s.on_reply(PermissionReply::Delay(None), 10), Ok(ReplyStep::Wait(60)));
    assert_eq!(
        s.on_reply(PermissionReply::Proceed(Some(1000)), 70),
        Ok(ReplyStep::Download { timeout_secs: 230, data_size: 1000 })
    );
    assert_eq!(s.retry_count, 2);
    assert_eq!(s.on_reply(PermissionReply::Proceed(None), 70), Err(BandwidthError::NoDataSize));
    assert_eq!(
        s.on_reply(PermissionReply::Delay(Some(250)), 70),
        Err(BandwidthError::WaitTooLong { delay_secs: 250, remaining_secs: 230 })
    );
    s.retry_count = 3;
    assert_eq!(
        s.check_before_request(100),
        Err(BandwidthError::RetriesExhausted { max_retries: 3 })
    );
    assert_eq!(
        s.check_before_request(300),
        Err(BandwidthError::TimedOut { retries: 3, elapsed_secs: 300 })
    );
}

#[test]
fn bandwidth_messages_and_metric() {
    assert_eq!(
        BandwidthError::TimedOut { retries: 2, elapsed_secs: 61 }.message(),
        "Bandwidth test timed out after 2 retry attempts (61 seconds elapsed)"
    );
    assert_eq!(
        BandwidthError::RetriesExhausted { max_retries: 5 }.message(),
        "Exceeded maximum retry attempts (5) waiting for bandwidth test slot"
    );
    assert_eq!(
        BandwidthError::WaitTooLong { delay_secs: 90, remaining_secs: 20 }.message(),
        "Cannot wait 90 seconds - would exceed task timeout (20 seconds remaining)"
    );
    assert_eq!(BandwidthError::NoDataSize.message(), "Server did not provide data size");
    let m = bandwidth_metric(Ok((1_000_000, 800)), None);
    assert!(m.success);
    assert_eq!(m.bytes_downloaded, Some(1_000_000));
    assert_eq!(m.duration_ms, Some(800));
    let e = bandwidth_metric(Err("x".to_string()), Some("t".to_string()));
    assert!(!e.success && e.duration_ms.is_none());
}

#[test]
fn content_pattern_matching() {
    let p = compile_pattern("Example\\s+Domain").unwrap();
    let m = check_body(&p, 200, true, "<h1>Example   Domain</h1>", 5, None);
    assert_eq!(m.regexp_match, Some(true));
    assert!(m.success);
    assert_eq!(m.total_size, Some(25));
    let n = check_body(&p, 500, false, "nothing here", 5, None);
    assert_eq!(n.regexp_match, Some(false));
    assert!(!n.success);
    assert_eq!(n.error, None);
    let e = compile_pattern("(unclosed").unwrap_err();
    assert_eq!(e, "Failed to compile regexp: (unclosed");
    let f = check_failed(e.clone(), None);
    assert_eq!(f.error, Some(e));
}

#[test]
fn content_check_failures() {
    assert_eq!(check_declared_length(200, Some(100), 1, None), None);
    assert_eq!(check_declared_length(200, None, 1, None), None);
    let big = check_declared_length(200, Some(104857601), 9, Some("t".to_string())).unwrap();
    assert!(!big.success);
    assert_eq!(big.total_size, Some(104857601));
    assert_eq!(
        big.error.as_deref(),
        Some("Response size (104857601 bytes) exceeds maximum of 104857600 bytes (detected from Content-Length header)")
    );
    let r = body_read_failed(200, "http://x", "eof", None);
    assert_eq!(r.error.as_deref(), Some("Failed to read response body from http://x: eof"));
    let t = request_failed("http://x", true, 10, "ignored", None);
    assert_eq!(t.error.as_deref(), Some("Request to http://x timed out after 10s"));
    let f = request_failed("http://x", false, 10, "dns error", None);
    assert_eq!(f.error.as_deref(), Some("Request to http://x failed: dns error"));
}

#[test]
fn clock_reads_seconds_since_epoch() {
    assert!(current_timestamp() > 1_600_000_000);
}

#[test]
fn dns_answers_as_text() {
    let answers = vec![
        DnsAnswer::A("1.2.3.4".to_string()),
        DnsAnswer::Aaaa("::1".to_string()),
        DnsAnswer::Mx(10, "mail.example.com.".to_string()),
        DnsAnswer::Txt(vec![b"v=spf1".to_vec(), b"-all".to_vec()]),
        DnsAnswer::Txt(vec![vec![0x68, 0x69, 0xff]]),
        DnsAnswer::Cname("alias.example.com.".to_string()),
        DnsAnswer::Ns("ns1.example.com.".to_string()),
        DnsAnswer::Other("SOA(..)".to_string()),
    ];
    let (count, texts) = parse_answers(&answers);
    assert_eq!(count, 8);
    assert_eq!(
        texts,
        vec![
            "1.2.3.4".to_string(),
            "::1".to_string(),
            "10 mail.example.com.".to_string(),
            "v=spf1 -all".to_string(),
            "hi\u{FFFD}".to_string(),
            "alias.example.com.".to_string(),
            "ns1.example.com.".to_string(),
            "Unsupported record type: SOA(..)".to_string(),
        ]
    );
}

#[test]
fn status_codes_are_counted_per_code() {
    let d = agent::summary::status_code_distribution(&vec![200, 404, 200, 500, 200]);
    assert_eq!(d, vec![(200, 3), (404, 1), (500, 1)]);
    assert_eq!(agent::summary::status_code_distribution(&vec![]), vec![]);
}

#[test]
fn content_check_from_what_came_back() {
    let p = compile_pattern("Example (Domain)?").unwrap();
    let url = "http://example.com";
    let answered = |body: Option<Result<String, String>>, len: Option<u64>| ContentResponse::Answered {
        status: 200,
        status_is_success: true,
        content_length: len,
        body,
        elapsed_ns: 42,
    };
    let hit = content_check(&p, url, 10, answered(Some(Ok("An Example Domain".to_string())), None), None);
    assert_eq!(hit.regexp_match, Some(true));
    assert!(hit.success && hit.error.is_none());
    assert_eq!(hit.total_size, Some(17));
    assert_eq!(hit.total_time_ns, Some(42));
    let miss = content_check(&p, url, 10, answered(Some(Ok("nothing".to_string())), Some(7)), Some("t".to_string()));
    assert_eq!(miss.regexp_match, Some(false));
    assert!(miss.success);
    assert_eq!(miss.target_id.as_deref(), Some("t"));
    let big = content_check(&p, url, 10, answered(None, Some(200 * 1024 * 1024)), None);
    assert!(!big.success && big.regexp_match.is_none());
    assert_eq!(big.total_size, Some(200 * 1024 * 1024));
    assert_eq!(
        big.error.as_deref(),
        Some("Response size (209715200 bytes) exceeds maximum of 104857600 bytes (detected from Content-Length header)")
    );
    let unread = content_check(&p, url, 10, answered(Some(Err("reset".to_string())), None), None);
    assert_eq!(unread.error.as_deref(), Some("Failed to read response body from http://example.com: reset"));
    assert_eq!(unread.status_code, Some(200));
    let late = content_check(&p, url, 10, ContentResponse::Failed { timed_out: true, error: "x".to_string() }, None);
    assert_eq!(late.error.as_deref(), Some("Request to http://example.com timed out after 10s"));
    assert!(late.status_code.is_none() && !late.success);
    let down = content_check(&p, url, 10, ContentResponse::Failed { timed_out: false, error: "refused".to_string() }, None);
    assert_eq!(down.error.as_deref(), Some("Request to http://example.com failed: refused"));
}
