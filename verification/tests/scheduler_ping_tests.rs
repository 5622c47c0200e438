use agent::ping::{ping_timed_out, resolution_failed, PingFallback, PingStep};
use agent::scheduler::{RunDecision, SchedulerState, TaskScheduler, MAX_METRICS_BUFFER_SIZE};
use agent::snmp::{
    bytes_to_hex, extract_value, parse_oid, snmp_metric, timeticks_string, v3_security,
    value_to_string, value_type_name, version_str, ComplexKind, SnmpAuthProtocol,
    SnmpOutcome, SnmpSecurityLevel, SnmpValue, SnmpVersion, V3Security,
};
use agent::sql::{build_connection_url, truncate_json_result, RowCollector};

fn scheduler() -> TaskScheduler<u32> {
    TaskScheduler::new(5, 30, 1000, 3600)
}

#[test]
fn scheduler_starts_stopped_and_empty() {
    let s = scheduler();
    assert_eq!(s.state, SchedulerState::Stopped);
    assert!(!s.is_running());
    assert_eq!(s.task_count(), 0);
    assert_eq!(s.max_metrics_buffer_size, MAX_METRICS_BUFFER_SIZE);
    assert_eq!(s.flush_interval_seconds, 5);
    assert!(s.get_current_timestamp() > 0);
}

#[test]
fn a_running_task_is_not_started_again() {
    let mut s = scheduler();
    s.add_task("ping".to_string());
    s.add_task("http".to_string());
    s.mark_running();
    assert!(s.is_running());
    assert_eq!(s.task_count(), 2);
    assert!(!s.has_in_flight());
    assert_eq!(s.begin_run("ping"), RunDecision::Start);
    assert!(s.has_in_flight());
    assert_eq!(s.begin_run("ping"), RunDecision::Skip);
    assert_eq!(s.begin_run("http"), RunDecision::Start);
    s.finish_run("ping");
    assert_eq!(s.begin_run("ping"), RunDecision::Start);
    assert_eq!(s.begin_run("dns"), RunDecision::Unknown);
    s.finish_run("ping");
    s.finish_run("http");
    assert!(!s.has_in_flight());
    s.add_task("ping".to_string());
    assert_eq!(s.task_count(), 2);
    s.clear_tasks();
    assert_eq!(s.task_count(), 0);
    s.mark_stopped();
    assert_eq!(s.state, SchedulerState::Stopped);
}

#[test]
fn buffer_flushes_when_full_or_due() {
    let mut s = scheduler();
    assert!(!s.flush_due(100));
    assert!(!s.buffer_metric(1));
    assert!(s.flush_due(5));
    assert!(!s.flush_due(4));
    let taken = s.take_buffer();
    assert_eq!(taken, vec![1]);
    assert!(s.metrics_buffer.is_empty());
    s.record_flush(50);
    assert_eq!(s.last_db_write, 50);
    s.max_metrics_buffer_size = 4;
    assert!(!s.buffer_metric(2));
    assert!(!s.buffer_metric(3));
    assert!(!s.buffer_metric(4));
    assert!(s.buffer_metric(5));
    s.trim_after_failed_flush();
    assert_eq!(s.metrics_buffer, vec![4, 5]);
    s.trim_after_failed_flush();
    assert_eq!(s.metrics_buffer, vec![4, 5]);
}

#[test]
fn aggregation_once_per_minute() {
    let mut s = scheduler();
    assert_eq!(s.aggregation_due(59), None);
    assert_eq!(s.aggregation_due(125), Some((60, 120)));
    s.record_aggregation(120);
    assert_eq!(s.aggregation_due(179), None);
    assert_eq!(s.aggregation_due(180), Some((120, 180)));
    let fresh = scheduler();
    assert_eq!(fresh.aggregation_due(61), Some((0, 60)));
}

#[test]
fn queue_cleanup_interval() {
    let mut s = scheduler();
    assert!(!s.take_queue_cleanup(3599));
    assert!(s.take_queue_cleanup(3600));
    assert_eq!(s.last_queue_cleanup, 3600);
    assert!(!s.take_queue_cleanup(7199));
    assert!(s.take_queue_cleanup(7200));
}

#[test]
fn ping_of_an_address() {
    let mut p = PingFallback::for_address("10.0.0.1".to_string(), Some("t".to_string()));
    assert_eq!(p.current_target(), "10.0.0.1");
    let ok = p.on_reply(1234);
    assert!(ok.success);
    assert_eq!(ok.rtt_us, Some(1234));
    assert_eq!(ok.ip_address, "10.0.0.1");
    assert_eq!(ok.domain, None);
    match p.on_send_error("timeout") {
        PingStep::Finished(m) => {
            assert_eq!(m.error.as_deref(), Some("Ping failed: timeout"));
            assert_eq!(m.ip_address, "10.0.0.1");
            assert_eq!(m.target_id.as_deref(), Some("t"));
        },
        PingStep::Next => panic!("a single address has no fallback"),
    }
}

#[test]
fn ping_falls_back_through_resolved_addresses() {
    let addrs = vec!["1.1.1.1".to_string(), "2.2.2.2".to_string(), "3.3.3.3".to_string()];
    let mut p = PingFallback::for_resolved(addrs.clone(), "host.example", None).unwrap();
    let mut tried = vec![p.current_target().clone()];
    assert_eq!(p.on_send_error("a"), PingStep::Next);
    tried.push(p.current_target().clone());
    assert_eq!(p.on_init_error("b"), PingStep::Next);
    tried.push(p.current_target().clone());
    let mut sorted = tried.clone();
    sorted.sort();
    assert_eq!(sorted, addrs);
    match p.on_send_error("c") {
        PingStep::Finished(m) => {
            assert_eq!(m.error.as_deref(), Some("Ping failed: c"));
            assert_eq!(m.ip_address, tried[0]);
            assert_eq!(m.domain.as_deref(), Some("host.example"));
        },
        PingStep::Next => panic!("all addresses were tried"),
    }
}

#[test]
fn ping_permission_hint_on_last_address() {
    let mut p = PingFallback::for_address("10.0.0.2".to_string(), None);
    match p.on_init_error("Operation not permitted (os error 1)") {
        PingStep::Finished(m) => {
            assert_eq!(
                m.error.as_deref(),
                Some("Cannot initiate ICMP ping: Operation not permitted (os error 1). Hint: On Linux, add user to 'ping' group or set capabilities: sudo setcap cap_net_raw+ep /path/to/agent")
            );
            assert_eq!(m.ip_address, "10.0.0.2");
        },
        PingStep::Next => panic!("no fallback"),
    }
    let mut q = PingFallback::for_address("10.0.0.3".to_string(), None);
    match q.on_init_error("other") {
        PingStep::Finished(m) => assert_eq!(m.error.as_deref(), Some("Cannot initiate ICMP ping: other")),
        PingStep::Next => panic!("no fallback"),
    }
}

#[test]
fn ping_resolution_errors() {
    let e = PingFallback::for_resolved(vec![], "nowhere.example", None).err().unwrap();
    assert_eq!(e.error.as_deref(), Some("DNS resolution returned no addresses for: nowhere.example"));
    assert_eq!(e.ip_address, "");
    assert_eq!(e.domain.as_deref(), Some("nowhere.example"));
    let f = resolution_failed("h", "failed to lookup", None);
    assert_eq!(f.error.as_deref(), Some("DNS resolution failed for h: failed to lookup"));
    let t = ping_timed_out("h", 3, None);
    assert_eq!(t.error.as_deref(), Some("Operation timed out after 3s"));
    assert!(!t.success);
}

#[test]
fn sql_connection_urls() {
    let u = Some("user".to_string());
    let p = Some("pw".to_string());
    assert_eq!(build_connection_url("postgres", &u, &p, "db:5432/x"), "postgres://user:pw@db:5432/x");
    assert_eq!(build_connection_url("mysql", &u, &None, "db/x"), "mysql://user@db/x");
    assert_eq!(build_connection_url("sqlite", &None, &p, "file.db"), "sqlite://file.db");
}

#[test]
fn sql_rows_are_counted_and_limited() {
    let mut c: RowCollector<u8> = RowCollector::new(2);
    for r in 0..5 {
        c.add(r);
    }
    assert_eq!(c.total_row_count, 5);
    assert_eq!(c.rows, vec![0, 1]);
}

#[test]
fn sql_json_is_truncated_to_fitting_rows() {
    let rows: Vec<String> = vec!["{\"a\":1}".to_string(), "{\"a\":22}".to_string(), "{\"a\":333}".to_string()];
    // full array: [{"a":1},{"a":22},{"a":333}] is 28 bytes
    assert_eq!(truncate_json_result(&rows, 28), ("[{\"a\":1},{\"a\":22},{\"a\":333}]".to_string(), false));
    assert_eq!(truncate_json_result(&rows, 27), ("[{\"a\":1},{\"a\":22}]".to_string(), true));
    assert_eq!(truncate_json_result(&rows, 9), ("[{\"a\":1}]".to_string(), true));
    assert_eq!(truncate_json_result(&rows, 8), ("[]".to_string(), true));
    assert_eq!(truncate_json_result(&vec![], 0), ("[]".to_string(), true));
    let unicode = vec!["\"é\"".to_string()];
    assert_eq!(truncate_json_result(&unicode, 5), ("[]".to_string(), true));
    assert_eq!(truncate_json_result(&unicode, 6), ("[\"é\"]".to_string(), false));
}

#[test]
fn snmp_hex_and_timeticks() {
    assert_eq!(bytes_to_hex(&[0xaa, 0x0b, 0xff]), "aa:0b:ff");
    assert_eq!(bytes_to_hex(&[7]), "07");
    assert_eq!(bytes_to_hex(&[]), "");
    assert_eq!(timeticks_string(123456), "0d 0h 20m 34s (123456 ticks)");
    assert_eq!(timeticks_string(8640000 * 2 + 360000 + 100), "2d 1h 0m 1s (17640100 ticks)");
}

#[test]
fn snmp_oid_parsing() {
    assert_eq!(parse_oid(".1.3.6.1.2.1.1.3.0"), Ok(vec![1, 3, 6, 1, 2, 1, 1, 3, 0]));
    assert_eq!(parse_oid("1.3.6"), Ok(vec![1, 3, 6]));
    assert_eq!(parse_oid("1.x.3"), Err("Invalid OID component: x".to_string()));
    assert_eq!(parse_oid("1..3"), Err("Invalid OID component: ".to_string()));
    assert_eq!(parse_oid(""), Err("Invalid OID component: ".to_string()));
    assert_eq!(parse_oid("1.18446744073709551616"), Err("Invalid OID component: 18446744073709551616".to_string()));
}

#[test]
fn snmp_values_as_text() {
    assert_eq!(value_to_string(&SnmpValue::Boolean(true)), "true");
    assert_eq!(value_to_string(&SnmpValue::Null), "null");
    assert_eq!(value_to_string(&SnmpValue::Integer(-42)), "-42");
    assert_eq!(value_to_string(&SnmpValue::OctetString(b"Linux host\n".to_vec())), "Linux host\n");
    assert_eq!(value_to_string(&SnmpValue::OctetString(vec![0x00, 0x1b])), "00:1b");
    assert_eq!(value_to_string(&SnmpValue::OctetString(vec![0xff, 0xfe])), "ff:fe");
    assert_eq!(value_to_string(&SnmpValue::IpAddress(192, 168, 0, 1)), "192.168.0.1");
    assert_eq!(value_to_string(&SnmpValue::Counter64(18446744073709551615)), "18446744073709551615");
    assert_eq!(value_to_string(&SnmpValue::Timeticks(100)), "0d 0h 0m 1s (100 ticks)");
    assert_eq!(value_to_string(&SnmpValue::Opaque(vec![1, 2])), "01:02");
    assert_eq!(value_to_string(&SnmpValue::NoSuchObject), "noSuchObject");
    assert_eq!(value_type_name(&SnmpValue::Counter32(1)), "Counter32");
    assert_eq!(value_type_name(&SnmpValue::Complex(ComplexKind::SetOf, "x".to_string())), "Set");
    assert_eq!(
        extract_value(Some(SnmpValue::Unsigned32(9))),
        Ok(("9".to_string(), "Unsigned32".to_string()))
    );
    assert_eq!(extract_value(None), Err("No value returned in SNMP response".to_string()));
}

#[test]
fn snmp_versions_and_security() {
    assert_eq!(version_str(SnmpVersion::V1), "v1");
    assert_eq!(version_str(SnmpVersion::V2c), "v2c");
    assert_eq!(version_str(SnmpVersion::V3), "v3");
    assert_eq!(
        v3_security(None, SnmpSecurityLevel::NoAuthNoPriv, None, SnmpAuthProtocol::Unspecified),
        Err("SNMPv3 requires username".to_string())
    );
    assert_eq!(
        v3_security(Some("u".to_string()), SnmpSecurityLevel::NoAuthNoPriv, None, SnmpAuthProtocol::Md5),
        Ok(V3Security::NoAuth { username: "u".to_string() })
    );
    assert_eq!(
        v3_security(Some("u".to_string()), SnmpSecurityLevel::AuthNoPriv, None, SnmpAuthProtocol::Md5),
        Err("authNoPriv requires auth_password".to_string())
    );
    assert_eq!(
        v3_security(Some("u".to_string()), SnmpSecurityLevel::AuthNoPriv, Some("p".to_string()), SnmpAuthProtocol::Unspecified),
        Err("authNoPriv requires an authentication protocol".to_string())
    );
    assert_eq!(
        v3_security(Some("u".to_string()), SnmpSecurityLevel::AuthNoPriv, Some("p".to_string()), SnmpAuthProtocol::Sha256),
        Ok(V3Security::Auth { username: "u".to_string(), password: "p".to_string(), protocol: SnmpAuthProtocol::Sha256 })
    );
}

#[test]
fn snmp_metrics() {
    let m = snmp_metric(
        "1.3.6".to_string(),
        SnmpOutcome::Answered { value: "7".to_string(), value_type: "Integer".to_string(), elapsed_ns: 5 },
        None,
    );
    assert!(m.success);
    assert_eq!(m.value.as_deref(), Some("7"));
    let t = snmp_metric("1.3.6".to_string(), SnmpOutcome::TimedOut(4), None);
    assert_eq!(t.error.as_deref(), Some("Query timed out after 4 seconds"));
    let f = snmp_metric("1.3.6".to_string(), SnmpOutcome::Failed("x".to_string()), None);
    assert!(!f.success);
    assert_eq!(f.oid_queried, "1.3.6");
}
