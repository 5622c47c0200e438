use agent::agent::{
    classify_startup_failure, StartupFailure, bandwidth_server_config, endpoint_url, interval_elapsed, server_error_message, settle_send,
    stale_action, AgentTimers, SendSettlement, StaleAction,
};
use agent::config::{
    apply_overrides, files_checksum, tasks_backup_name, tasks_config_hash, AgentConfig,
    ConfigDirError, ConfigManager, ConfigOverrides,
};
use agent::tasks::{
    metric_kind, validate_config, AgentProblem, BandwidthParams, ConfigError, DnsQueryDohParams,
    DnsQueryParams, DnsRecordType, HttpContentParams, HttpGetParams, Parameter, PingParams,
    TaskConfig, TaskConfigError, TaskParams, TaskProblem, TaskType, TasksConfig,
    TlsHandshakeParams,
};
use agent::config_sync::{
    config_action, decode_tasks_payload, encode_tasks_payload, ConfigAction, ConfigStatus,
    PayloadError,
};
use agent::executor::{run_report, RunOutcome};
use agent::queue::{
    cleanup_cutoff, failure_transition, retention_cutoff, stats_from_rows, MetricKind, QueueError,
    QueueStats, QueueStatus,
};

fn sample_config() -> AgentConfig {
    AgentConfig {
        agent_id: "test-agent-01".to_string(),
        central_server_url: "https://monitoring.example.com".to_string(),
        api_key: "test-api-key".to_string(),
        local_data_retention_days: 7,
        auto_update_tasks: false,
        local_only: false,
        metrics_flush_interval_seconds: 5,
        metrics_send_interval_seconds: 30,
        metrics_batch_size: 50,
        metrics_max_retries: 10,
        queue_cleanup_interval_seconds: 3600,
        data_cleanup_interval_seconds: 86400,
        max_concurrent_tasks: 50,
        http_response_max_size_mb: 100,
        http_client_timeout_seconds: 30,
        database_busy_timeout_seconds: 5,
        graceful_shutdown_timeout_seconds: 30,
        channel_buffer_size: 1000,
        http_client_refresh_interval_seconds: 3600,
    }
}

fn no_overrides() -> ConfigOverrides {
    ConfigOverrides {
        agent_id: None,
        server_url: None,
        api_key: None,
        retention_days: None,
        auto_update_tasks: None,
        local_only: None,
    }
}

#[test]
fn queue_status_text_roundtrip() {
    for s in [QueueStatus::Pending, QueueStatus::Sending, QueueStatus::Sent, QueueStatus::Failed] {
        assert_eq!(QueueStatus::from_str(s.as_str()), Ok(s));
    }
    assert_eq!(QueueStatus::Pending.as_str(), "pending");
    assert_eq!(QueueStatus::Sending.as_str(), "sending");
    assert_eq!(QueueStatus::Sent.as_str(), "sent");
    assert_eq!(QueueStatus::Failed.as_str(), "failed");
}

#[test]
fn queue_status_unknown_text_is_refused() {
    assert_eq!(
        QueueStatus::from_str("done"),
        Err(QueueError::InvalidStatus("done".to_string()))
    );
    assert!(QueueStatus::from_str("Pending").is_err());
    assert_eq!(
        QueueStatus::from_str("done").unwrap_err().message(),
        "Invalid queue status: done"
    );
    assert_eq!(
        QueueError::UnknownMetricType("snmp".to_string()).message(),
        "Unknown metric type: snmp"
    );
}

#[test]
fn metric_kind_names_roundtrip() {
    let kinds = [
        (MetricKind::Ping, "ping"),
        (MetricKind::Tcp, "tcp"),
        (MetricKind::Http, "http"),
        (MetricKind::Tls, "tls"),
        (MetricKind::HttpContent, "http_content"),
        (MetricKind::Dns, "dns"),
        (MetricKind::Bandwidth, "bandwidth"),
        (MetricKind::SqlQuery, "sql_query"),
    ];
    for (k, n) in kinds {
        assert_eq!(k.name(), n);
        assert_eq!(MetricKind::from_name(n), Ok(k));
    }
    assert_eq!(
        MetricKind::from_name("snmp"),
        Err(QueueError::UnknownMetricType("snmp".to_string()))
    );
}

#[test]
fn failed_send_backs_off_exponentially() {
    let d = failure_transition(0, 10, 1000);
    assert_eq!(d.status, QueueStatus::Pending);
    assert_eq!(d.retry_count, 1);
    assert_eq!(d.next_retry_at, Some(1000 + 2 * 60));
    let d = failure_transition(2, 10, 1000);
    assert_eq!(d.next_retry_at, Some(1000 + 8 * 60));
    let d = failure_transition(5, 10, 1000);
    assert_eq!(d.next_retry_at, Some(1000 + 60 * 60));
    let d = failure_transition(8, 10, 0);
    assert_eq!(d.retry_count, 9);
    assert_eq!(d.next_retry_at, Some(3600));
}

#[test]
fn backoff_never_exceeds_an_hour_and_never_shrinks() {
    let mut last = 0;
    for r in 0..29 {
        let d = failure_transition(r, 100, 0);
        let wait = d.next_retry_at.unwrap();
        assert!(wait <= 3600);
        assert!(wait >= last);
        last = wait;
    }
}

#[test]
fn send_fails_for_good_after_max_retries() {
    let d = failure_transition(2, 3, 5000);
    assert_eq!(d.status, QueueStatus::Failed);
    assert_eq!(d.retry_count, 3);
    assert_eq!(d.next_retry_at, None);
    // with three retries allowed the third failure is final, the second is not
    assert_eq!(failure_transition(1, 3, 0).status, QueueStatus::Pending);
    assert_eq!(failure_transition(0, 0, 0).status, QueueStatus::Failed);
}

#[test]
fn cleanup_and_retention_cutoffs() {
    assert_eq!(cleanup_cutoff(200_000, 24), 200_000 - 86_400);
    assert_eq!(cleanup_cutoff(3600, 1), 0);
    assert_eq!(retention_cutoff(1_000_000, 7), 1_000_000 - 7 * 86_400);
}

#[test]
fn queue_stats_from_grouped_rows() {
    let rows = vec![
        ("pending".to_string(), 4),
        ("sent".to_string(), 10),
        ("bogus".to_string(), 99),
        ("failed".to_string(), 2),
        ("sent".to_string(), 11),
    ];
    let s = stats_from_rows(&rows);
    assert_eq!(s, QueueStats { pending: 4, sending: 0, sent: 11, failed: 2 });
    assert_eq!(stats_from_rows(&vec![]), QueueStats::default());
}

#[test]
fn override_server_and_key() {
    let mut c = sample_config();
    let changed = apply_overrides(
        &mut c,
        ConfigOverrides {
            server_url: Some("https://new-server.example.com".to_string()),
            api_key: Some("new-api-key".to_string()),
            ..no_overrides()
        },
    );
    assert!(changed);
    assert_eq!(c.central_server_url, "https://new-server.example.com");
    assert_eq!(c.api_key, "new-api-key");
    assert_eq!(c.agent_id, "test-agent-01");
}

#[test]
fn override_partial_config_keeps_other_settings() {
    let mut c = sample_config();
    let changed = apply_overrides(
        &mut c,
        ConfigOverrides {
            server_url: Some("https://another-server.example.com".to_string()),
            ..no_overrides()
        },
    );
    assert!(changed);
    assert_eq!(c.central_server_url, "https://another-server.example.com");
    assert_eq!(c.api_key, "test-api-key");
}

#[test]
fn override_with_same_values_changes_nothing() {
    let mut c = sample_config();
    let before = c.clone();
    let changed = apply_overrides(
        &mut c,
        ConfigOverrides {
            server_url: Some("https://monitoring.example.com".to_string()),
            api_key: Some("test-api-key".to_string()),
            ..no_overrides()
        },
    );
    assert!(!changed);
    assert_eq!(c, before);
}

#[test]
fn override_all_fields() {
    let mut c = sample_config();
    let changed = apply_overrides(
        &mut c,
        ConfigOverrides {
            agent_id: Some("new-agent-id".to_string()),
            server_url: Some("https://new-server.example.com".to_string()),
            api_key: Some("new-api-key".to_string()),
            retention_days: Some(30),
            auto_update_tasks: Some(true),
            local_only: None,
        },
    );
    assert!(changed);
    assert_eq!(c.agent_id, "new-agent-id");
    assert_eq!(c.local_data_retention_days, 30);
    assert!(c.auto_update_tasks);
    assert!(!c.local_only);
    assert_eq!(c.metrics_batch_size, 50);
}

#[test]
fn override_retention_days_only() {
    let mut c = sample_config();
    assert!(apply_overrides(&mut c, ConfigOverrides { retention_days: Some(14), ..no_overrides() }));
    assert_eq!(c.local_data_retention_days, 14);
    assert_eq!(c.agent_id, "test-agent-01");
    assert_eq!(c.api_key, "test-api-key");
}

#[test]
fn override_auto_update_back_and_forth() {
    let mut c = sample_config();
    assert!(apply_overrides(&mut c, ConfigOverrides { auto_update_tasks: Some(true), ..no_overrides() }));
    assert!(c.auto_update_tasks);
    assert!(apply_overrides(&mut c, ConfigOverrides { auto_update_tasks: Some(false), ..no_overrides() }));
    assert!(!c.auto_update_tasks);
}

#[test]
fn overriding_twice_changes_nothing_the_second_time() {
    let mut c = sample_config();
    let o = || ConfigOverrides {
        agent_id: Some("x".to_string()),
        local_only: Some(true),
        ..no_overrides()
    };
    assert!(apply_overrides(&mut c, o()));
    let after_first = c.clone();
    assert!(!apply_overrides(&mut c, o()));
    assert_eq!(c, after_first);
}

fn ping_task(name: &str, host: &str) -> TaskConfig {
    TaskConfig {
        task_type: TaskType::Ping,
        schedule_seconds: 10,
        name: name.to_string(),
        timeout: None,
        params: TaskParams::Ping(PingParams {
            host: host.to_string(),
            timeout_seconds: 1,
            target_id: None,
        }),
    }
}

fn bandwidth_task(name: &str, schedule_seconds: u32) -> TaskConfig {
    TaskConfig {
        task_type: TaskType::Bandwidth,
        schedule_seconds,
        name: name.to_string(),
        timeout: None,
        params: TaskParams::Bandwidth(BandwidthParams {
            timeout_seconds: 60,
            max_retries: 10,
            target_id: None,
        }),
    }
}

fn content_task(url: &str, regexp: &str) -> TaskConfig {
    TaskConfig {
        task_type: TaskType::HttpContent,
        schedule_seconds: 60,
        name: "content".to_string(),
        timeout: Some(5),
        params: TaskParams::HttpContent(HttpContentParams {
            url: url.to_string(),
            regexp: regexp.to_string(),
            timeout_seconds: 10,
            target_id: None,
        }),
    }
}

fn sample_tasks() -> TasksConfig {
    TasksConfig { tasks: vec![ping_task("Test Ping", "8.8.8.8")] }
}

#[test]
fn config_manager_loading_and_overrides() {
    let mut m = ConfigManager::new("/etc/agent".to_string(), true, true).unwrap();
    assert!(!m.is_loaded());
    assert!(m.needs_reload("abc"));
    assert_eq!(m.load_parsed(sample_config(), sample_tasks(), "abc".to_string()), Ok(()));
    assert!(m.is_loaded());
    assert_eq!(m.agent_config.as_ref().unwrap().agent_id, "test-agent-01");
    assert_eq!(m.tasks_config.as_ref().unwrap().tasks.len(), 1);
    assert!(!m.needs_reload("abc"));
    assert!(m.needs_reload("abd"));
    assert_eq!(m.override_agent_config(no_overrides()), Ok(None));
    let c = m
        .override_agent_config(ConfigOverrides { local_only: Some(true), ..no_overrides() })
        .unwrap()
        .unwrap();
    assert!(c.local_only);
    assert!(!m.agent_config.as_ref().unwrap().local_only);
    assert_eq!(m.store_agent_config(c), Ok(()));
    assert!(m.agent_config.as_ref().unwrap().local_only);
}

#[test]
fn loading_refuses_an_invalid_configuration_and_keeps_the_old_one() {
    let mut m = ConfigManager::new("/etc/agent".to_string(), true, true).unwrap();
    assert_eq!(m.load_parsed(sample_config(), sample_tasks(), "one".to_string()), Ok(()));
    let bad_tasks = TasksConfig { tasks: vec![bandwidth_task("bw", 30)] };
    let r = m.load_parsed(sample_config(), bad_tasks, "two".to_string());
    assert_eq!(
        r,
        Err(ConfigError::Tasks(TaskConfigError {
            task: "bw".to_string(),
            problem: TaskProblem::BandwidthScheduleTooShort,
        }))
    );
    assert_eq!(m.current_checksum.as_deref(), Some("one"));
    assert_eq!(m.tasks_config.as_ref().unwrap().tasks[0].name, "Test Ping");
    let mut bad_agent = sample_config();
    bad_agent.agent_id = String::new();
    assert_eq!(
        m.load_parsed(bad_agent, sample_tasks(), "three".to_string()),
        Err(ConfigError::Agent(AgentProblem::EmptyAgentId))
    );
    assert_eq!(m.current_checksum.as_deref(), Some("one"));
}

#[test]
fn overrides_that_break_the_settings_are_refused() {
    let mut m = ConfigManager::new("/etc/agent".to_string(), true, true).unwrap();
    assert_eq!(m.load_parsed(sample_config(), sample_tasks(), "abc".to_string()), Ok(()));
    let o = ConfigOverrides { server_url: Some("ftp://x".to_string()), ..no_overrides() };
    assert_eq!(m.override_agent_config(o), Err(AgentProblem::InvalidServerUrl));
    let o = ConfigOverrides { api_key: Some(String::new()), ..no_overrides() };
    assert_eq!(m.override_agent_config(o), Err(AgentProblem::EmptyApiKey));
    // Running alone needs neither a server nor a key.
    let o = ConfigOverrides {
        api_key: Some(String::new()),
        local_only: Some(true),
        ..no_overrides()
    };
    let c = m.override_agent_config(o).unwrap().unwrap();
    assert_eq!(c.api_key, "");
    let mut bad = sample_config();
    bad.central_server_url = "monitoring.example.com".to_string();
    assert_eq!(m.store_agent_config(bad), Err(AgentProblem::InvalidServerUrl));
    assert_eq!(m.agent_config.as_ref().unwrap().central_server_url, "https://monitoring.example.com");
}

#[test]
fn test_bandwidth_task_validation() {
    let invalid_task_config = bandwidth_task("Invalid Bandwidth Test", 30);
    assert!(invalid_task_config.validate().is_err());
    let valid_task_config = bandwidth_task("Valid Bandwidth Test", 60);
    assert!(valid_task_config.validate().is_ok());
}

#[test]
fn task_validation_problems() {
    assert_eq!(ping_task("", "h").validate(), Err(TaskProblem::EmptyName));
    let mut zero = ping_task("p", "h");
    zero.schedule_seconds = 0;
    assert_eq!(zero.validate(), Err(TaskProblem::ZeroSchedule));
    let mut mismatch = ping_task("p", "h");
    mismatch.task_type = TaskType::Tcp;
    assert_eq!(mismatch.validate(), Err(TaskProblem::TypeMismatch));
    assert_eq!(ping_task("p", "").validate(), Err(TaskProblem::EmptyParameter(Parameter::Host)));
    assert_eq!(
        content_task("", "x").validate(),
        Err(TaskProblem::EmptyParameter(Parameter::Url))
    );
    assert_eq!(
        content_task("http://example.com", "").validate(),
        Err(TaskProblem::EmptyParameter(Parameter::Regexp))
    );
    assert_eq!(content_task("example.com", "x").validate(), Err(TaskProblem::InvalidUrl));
    assert_eq!(
        content_task("http://example.com", "[invalid(regex").validate(),
        Err(TaskProblem::InvalidRegex)
    );
    assert_eq!(content_task("https://example.com", "Example (Domain)?").validate(), Ok(()));
    let get = TaskConfig {
        task_type: TaskType::HttpGet,
        schedule_seconds: 30,
        name: "get".to_string(),
        timeout: None,
        params: TaskParams::HttpGet(HttpGetParams {
            url: "https://example.com".to_string(),
            timeout_seconds: 10,
            headers: vec![("Accept".to_string(), "text/html".to_string())],
            verify_ssl: true,
            target_id: None,
        }),
    };
    assert_eq!(get.validate(), Ok(()));
    let dns = TaskConfig {
        task_type: TaskType::DnsQuery,
        schedule_seconds: 30,
        name: "dns".to_string(),
        timeout: None,
        params: TaskParams::DnsQuery(DnsQueryParams {
            server: "8.8.8.8:53".to_string(),
            domain: String::new(),
            record_type: DnsRecordType::A,
            timeout_seconds: 5,
            expected_ip: None,
            target_id: None,
        }),
    };
    assert_eq!(dns.validate(), Err(TaskProblem::EmptyParameter(Parameter::Domain)));
    let doh = TaskConfig {
        task_type: TaskType::DnsQueryDoh,
        schedule_seconds: 30,
        name: "doh".to_string(),
        timeout: None,
        params: TaskParams::DnsQueryDoh(DnsQueryDohParams {
            server_url: "dns.google/dns-query".to_string(),
            domain: "example.com".to_string(),
            record_type: DnsRecordType::AAAA,
            timeout_seconds: 5,
            expected_ip: None,
            target_id: None,
        }),
    };
    assert_eq!(doh.validate(), Err(TaskProblem::InvalidUrl));
    let tls = TaskConfig {
        task_type: TaskType::TlsHandshake,
        schedule_seconds: 300,
        name: "tls".to_string(),
        timeout: None,
        params: TaskParams::TlsHandshake(TlsHandshakeParams {
            host: "example.com:443".to_string(),
            verify_ssl: true,
            target_id: None,
        }),
    };
    assert_eq!(tls.validate(), Ok(()));
    assert_eq!(tls.effective_timeout(), 300);
    assert_eq!(content_task("http://a", "b").effective_timeout(), 5);
    assert_eq!(ping_task("p", "h").effective_timeout(), 1);
}

#[test]
fn duplicate_task_names_are_refused() {
    let tasks = TasksConfig { tasks: vec![ping_task("a", "h1"), ping_task("b", "h2"), ping_task("a", "h3")] };
    assert_eq!(
        tasks.validate(),
        Err(TaskConfigError { task: "a".to_string(), problem: TaskProblem::DuplicateName })
    );
    // A task's own problem is reported before a repeated name.
    let both = TasksConfig {
        tasks: vec![ping_task("a", "h1"), ping_task("a", "h2"), ping_task("c", ""), ping_task("d", "")],
    };
    assert_eq!(
        both.validate(),
        Err(TaskConfigError {
            task: "c".to_string(),
            problem: TaskProblem::EmptyParameter(Parameter::Host),
        })
    );
    let fine = TasksConfig { tasks: vec![ping_task("a", "h1"), ping_task("b", "h2")] };
    assert_eq!(fine.validate(), Ok(()));
    assert_eq!(TasksConfig { tasks: vec![] }.validate(), Ok(()));
}

#[test]
fn agent_settings_validation() {
    assert_eq!(sample_config().validate(), Ok(()));
    let mut c = sample_config();
    c.central_server_url = "ftp://example.com".to_string();
    assert_eq!(c.validate(), Err(AgentProblem::InvalidServerUrl));
    c.local_only = true;
    assert_eq!(c.validate(), Ok(()));
    let mut k = sample_config();
    k.api_key = String::new();
    assert_eq!(k.validate(), Err(AgentProblem::EmptyApiKey));
    assert_eq!(validate_config(&k, &sample_tasks()), Err(ConfigError::Agent(AgentProblem::EmptyApiKey)));
    assert_eq!(validate_config(&sample_config(), &sample_tasks()), Ok(()));
}

#[test]
fn configuration_error_messages() {
    assert_eq!(
        ConfigError::Agent(AgentProblem::EmptyAgentId).message(),
        "agent_id must not be empty"
    );
    let e = ConfigError::Tasks(TaskConfigError {
        task: "bw".to_string(),
        problem: TaskProblem::BandwidthScheduleTooShort,
    });
    assert_eq!(e.message(), "task 'bw': bandwidth tasks need schedule_seconds of at least 60");
    let e = ConfigError::Tasks(TaskConfigError {
        task: "p".to_string(),
        problem: TaskProblem::EmptyParameter(Parameter::Host),
    });
    assert_eq!(e.message(), "task 'p': host must not be empty");
}

#[test]
fn task_types_map_to_metric_tables() {
    assert_eq!(metric_kind(TaskType::DnsQuery), MetricKind::Dns);
    assert_eq!(metric_kind(TaskType::DnsQueryDoh), MetricKind::Dns);
    assert_eq!(metric_kind(TaskType::HttpGet), MetricKind::Http);
    assert_eq!(metric_kind(TaskType::TlsHandshake), MetricKind::Tls);
    assert_eq!(metric_kind(TaskType::Bandwidth), MetricKind::Bandwidth);
}

#[test]
fn backup_name_carries_the_timestamp() {
    assert_eq!(tasks_backup_name(1700000000), "tasks.toml.1700000000");
    assert_eq!(tasks_backup_name(0), "tasks.toml.0");
}

#[test]
fn tasks_hash_is_blake3_hex() {
    assert_eq!(
        tasks_config_hash(""),
        "af1349b9f5f9a1a6a0404dea36dcc9499bcb25c9adc112b7cc9a93cae41f3262"
    );
    let h = tasks_config_hash("[[tasks]]\nname = \"x\"\n");
    assert_eq!(h.len(), 64);
    assert!(h.chars().all(|c| c.is_ascii_hexdigit() && !c.is_ascii_uppercase()));
    assert_ne!(h, tasks_config_hash("[[tasks]]\nname = \"y\"\n"));
}

#[test]
fn payload_roundtrip() {
    let content = "[[tasks]]\ntype = \"ping\"\nname = \"Test Ping – ü\"\n";
    let p = encode_tasks_payload(content).unwrap();
    assert_ne!(p, content);
    assert_eq!(decode_tasks_payload(&p), Ok(content.to_string()));
    let empty = encode_tasks_payload("").unwrap();
    assert_eq!(decode_tasks_payload(&empty), Ok(String::new()));
}

#[test]
fn payload_errors() {
    assert_eq!(decode_tasks_payload("not base64 !!"), Err(PayloadError::Base64));
    // "aGVsbG8=" is base64 of "hello", which is no gzip stream
    assert_eq!(decode_tasks_payload("aGVsbG8="), Err(PayloadError::Decompress));
    assert_eq!(PayloadError::Base64.message(), "Failed to decode base64 config");
    assert_eq!(PayloadError::Decompress.message(), "Failed to decompress config");
    assert_eq!(PayloadError::Compress.message(), "Failed to compress tasks config");
}

#[test]
fn config_check_actions() {
    assert_eq!(config_action(ConfigStatus::UpToDate, None), Ok(ConfigAction::Keep));
    assert_eq!(
        config_action(ConfigStatus::UpToDate, Some("x".to_string())),
        Ok(ConfigAction::Keep)
    );
    assert_eq!(config_action(ConfigStatus::Stale, None), Ok(ConfigAction::Upload));
    let p = encode_tasks_payload("a = 1\n").unwrap();
    assert_eq!(
        config_action(ConfigStatus::Stale, Some(p)),
        Ok(ConfigAction::Apply("a = 1\n".to_string()))
    );
    assert_eq!(
        config_action(ConfigStatus::Stale, Some("%%%".to_string())),
        Err(PayloadError::Base64)
    );
}

#[test]
fn periodic_duties_wait_for_their_interval() {
    assert!(interval_elapsed(100, 70, 30));
    assert!(!interval_elapsed(99, 70, 30));
    assert!(!interval_elapsed(5, 10, 0));
    let c = sample_config();
    let mut t = AgentTimers::new();
    assert!(t.take_metrics_send(&c, true, 30));
    assert_eq!(t.last_metrics_send, 30);
    assert!(!t.take_metrics_send(&c, true, 59));
    assert!(t.take_metrics_send(&c, true, 60));
    assert!(!t.take_metrics_send(&c, false, 1000));
    assert!(t.take_data_cleanup(&c, 86400));
    assert!(!t.take_data_cleanup(&c, 86401));
    assert!(t.take_client_refresh(&c, 3600));
    assert_eq!(t.last_client_refresh, 3600);
    let mut local = sample_config();
    local.local_only = true;
    let mut t2 = AgentTimers::new();
    assert!(!t2.take_metrics_send(&local, true, 10_000));
    assert_eq!(t2.last_metrics_send, 0);
}

#[test]
fn stale_configuration_reaction() {
    assert_eq!(stale_action(false, true), StaleAction::Nothing);
    assert_eq!(stale_action(true, true), StaleAction::Download);
    assert_eq!(stale_action(true, false), StaleAction::WarnDisabled);
}

#[test]
fn send_rounds_settle_their_entries() {
    assert_eq!(
        settle_send(vec![1, 2], Ok(ConfigStatus::Stale)),
        SendSettlement::Sent { ids: vec![1, 2], stale: true }
    );
    assert_eq!(
        settle_send(vec![3], Ok(ConfigStatus::UpToDate)),
        SendSettlement::Sent { ids: vec![3], stale: false }
    );
    assert_eq!(
        settle_send(vec![4], Err("boom".to_string())),
        SendSettlement::Failed { ids: vec![4], error: "boom".to_string() }
    );
}

#[test]
fn server_settings_for_bandwidth_tests() {
    let c = sample_config();
    let (u, k, i) = bandwidth_server_config(&c);
    assert_eq!(u.as_deref(), Some("https://monitoring.example.com"));
    assert_eq!(k.as_deref(), Some("test-api-key"));
    assert_eq!(i.as_deref(), Some("test-agent-01"));
    let mut l = sample_config();
    l.local_only = true;
    assert_eq!(bandwidth_server_config(&l), (None, None, None));
}

#[test]
fn server_messages_and_urls() {
    assert_eq!(
        server_error_message("Config verify failed", "404 Not Found", "missing"),
        "Config verify failed 404 Not Found: missing"
    );
    assert_eq!(endpoint_url("https://s.example", "/api/v1/metrics"), "https://s.example/api/v1/metrics");
}

#[test]
fn startup_failures_are_classified() {
    assert_eq!(
        classify_startup_failure("Validation failed for agent configuration in x"),
        StartupFailure::Validation
    );
    assert_eq!(
        classify_startup_failure("Failed to read /etc/agent/agent.toml: No such file"),
        StartupFailure::MissingFile
    );
    assert_eq!(
        classify_startup_failure("Failed to parse x - TOML syntax error"),
        StartupFailure::TomlSyntax
    );
    assert_eq!(classify_startup_failure("disk full"), StartupFailure::Other);
    assert_eq!(
        classify_startup_failure("Failed to read config: validation pending"),
        StartupFailure::Validation
    );
}

#[test]
fn run_reports_carry_metric_or_error() {
    let t = ping_task("Test Ping", "8.8.8.8");
    let ok = run_report(&t, RunOutcome::Finished(Ok::<u32, String>(7)), 1_500);
    assert!(ok.success && ok.metric_data == Some(7) && ok.error.is_none());
    assert_eq!(ok.task_name, "Test Ping");
    assert_eq!(ok.execution_time_ns, 1_500);
    let failed = run_report(&t, RunOutcome::Finished(Err::<u32, String>("boom".to_string())), 9);
    assert!(!failed.success && failed.metric_data.is_none());
    assert_eq!(failed.error.as_deref(), Some("boom"));
    let late = run_report::<u32>(&t, RunOutcome::TimedOut, 1_000_000_000);
    assert!(!late.success && late.metric_data.is_none());
    assert_eq!(late.error.as_deref(), Some("Task timed out after 1 seconds"));
    let slow = run_report::<u32>(&content_task("http://a", "b"), RunOutcome::TimedOut, 0);
    assert_eq!(slow.error.as_deref(), Some("Task timed out after 5 seconds"));
}

#[test]
fn config_manager_needs_an_existing_directory() {
    let m = ConfigManager::new("/etc/agent".to_string(), true, true).unwrap();
    assert_eq!(m.config_dir, "/etc/agent");
    assert!(m.agent_config.is_none() && m.tasks_config.is_none() && m.current_checksum.is_none());
    let missing = ConfigManager::new("/nonexistent/path".to_string(), false, false);
    assert!(missing.is_err());
    let e = missing.err().unwrap();
    assert_eq!(e, ConfigDirError::Missing("/nonexistent/path".to_string()));
    assert_eq!(e.message(), "Configuration directory does not exist: /nonexistent/path");
    let file = ConfigManager::new("/etc/hosts".to_string(), true, false).err().unwrap();
    assert_eq!(file.message(), "Configuration path is not a directory: /etc/hosts");
}

#[test]
fn files_checksum_hashes_both_texts_in_turn() {
    assert_eq!(files_checksum("a = 1\n", "[[tasks]]\n"), tasks_config_hash("a = 1\n[[tasks]]\n"));
    assert_eq!(files_checksum("", ""), tasks_config_hash(""));
    assert_ne!(files_checksum("ab", "c"), files_checksum("a", "bd"));
}
