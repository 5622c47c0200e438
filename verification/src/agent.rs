//! The agent's periodic duties: when metrics are sent, old data cleaned up
//! and clients refreshed; what a send round does with the queue entries it
//! took; and what a stale configuration leads to.
use vstd::prelude::*;

use crate::config::AgentConfig;
use crate::config_sync::ConfigStatus;
use crate::text::{chars_of, contains, contains_exec};

verus! {

broadcast use vstd::string::group_string_axioms;

/// Whether `interval` seconds have passed since `last` at time `now`.
pub open spec fn elapsed(now: u64, last: u64, interval: u64) -> bool {
    now >= last + interval
}

/// A duty is due exactly when at least its interval has passed since it was
/// last done, however long ago that was; once due it stays due until done.
pub proof fn lemma_due_once_interval_passed(now: u64, later: u64, last: u64, interval: u64)
    ensures
        now >= last + interval ==> elapsed(now, last, interval),
        now < last + interval ==> !elapsed(now, last, interval),
        elapsed(now, last, interval) && now <= later ==> elapsed(later, last, interval),
{
}

/// Whether a duty last done at `last` is due again at `now`.
pub fn interval_elapsed(now: u64, last: u64, interval: u64) -> (r: bool)
    ensures
        r == elapsed(now, last, interval),
{
    now >= last && now - last >= interval
}

/// The last times of the agent's periodic duties.
#[derive(Debug, Clone, Copy, PartialEq, Eq, Structural)]
pub struct AgentTimers {
    pub last_metrics_send: u64,
    pub last_data_cleanup: u64,
    pub last_client_refresh: u64,
}

impl AgentTimers {
    /// Timers of an agent that has done nothing yet.
    pub fn new() -> (t: AgentTimers)
        ensures
            t == (AgentTimers { last_metrics_send: 0, last_data_cleanup: 0, last_client_refresh: 0 }),
    {
        AgentTimers { last_metrics_send: 0, last_data_cleanup: 0, last_client_refresh: 0 }
    }

    /// Whether metrics are sent at `now`: never in local-only mode or
    /// without a client, else once the send interval has passed. When they
    /// are, the send time is recorded.
    pub fn take_metrics_send(
        &mut self,
        config: &AgentConfig,
        has_client: bool,
        now: u64,
    ) -> (due: bool)
        ensures
            due == (!config.local_only && has_client && elapsed(
                now,
                old(self).last_metrics_send,
                config.metrics_send_interval_seconds as u64,
            )),
            final(self).last_metrics_send == if due {
                now
            } else {
                old(self).last_metrics_send
            },
            final(self).last_data_cleanup == old(self).last_data_cleanup,
            final(self).last_client_refresh == old(self).last_client_refresh,
    {
        if config.local_only || !has_client {
            return false;
        }
        if interval_elapsed(now, self.last_metrics_send, config.metrics_send_interval_seconds as u64) {
            self.last_metrics_send = now;
            true
        } else {
            false
        }
    }

    /// Whether old data is cleaned up at `now`; the time is recorded when it
    /// is.
    pub fn take_data_cleanup(&mut self, config: &AgentConfig, now: u64) -> (due: bool)
        ensures
            due == elapsed(now, old(self).last_data_cleanup, config.data_cleanup_interval_seconds),
            final(self).last_data_cleanup == if due {
                now
            } else {
                old(self).last_data_cleanup
            },
            final(self).last_metrics_send == old(self).last_metrics_send,
            final(self).last_client_refresh == old(self).last_client_refresh,
    {
        if interval_elapsed(now, self.last_data_cleanup, config.data_cleanup_interval_seconds) {
            self.last_data_cleanup = now;
            true
        } else {
            false
        }
    }

    /// Whether the HTTP clients are rebuilt at `now`; the time is recorded
    /// when they are.
    pub fn take_client_refresh(&mut self, config: &AgentConfig, now: u64) -> (due: bool)
        ensures
            due == elapsed(
                now,
                old(self).last_client_refresh,
                config.http_client_refresh_interval_seconds,
            ),
            final(self).last_client_refresh == if due {
                now
            } else {
                old(self).last_client_refresh
            },
            final(self).last_metrics_send == old(self).last_metrics_send,
            final(self).last_data_cleanup == old(self).last_data_cleanup,
    {
        if interval_elapsed(now, self.last_client_refresh, config.http_client_refresh_interval_seconds) {
            self.last_client_refresh = now;
            true
        } else {
            false
        }
    }
}

/// A duty is never done twice within its interval: once it is done at
/// `now`, it is not due again before `now + interval`.
pub proof fn lemma_no_duty_twice_within_interval(now: u64, later: u64, interval: u64)
    requires
        interval > 0,
        now <= later < now + interval,
    ensures
        !elapsed(later, now, interval),
{
}

/// What follows a stale configuration report.
#[derive(Debug, Clone, Copy, PartialEq, Eq, Structural)]
pub enum StaleAction {
    /// The configuration is current: nothing.
    Nothing,
    /// Download and apply the server's configuration.
    Download,
    /// Leave it, and warn that automatic updates are off.
    WarnDisabled,
}

/// The reaction to a send round's configuration report.
pub fn stale_action(config_needs_update: bool, auto_update_tasks: bool) -> (a: StaleAction)
    ensures
        a == if !config_needs_update {
            StaleAction::Nothing
        } else if auto_update_tasks {
            StaleAction::Download
        } else {
            StaleAction::WarnDisabled
        },
{
    if !config_needs_update {
        StaleAction::Nothing
    } else if auto_update_tasks {
        StaleAction::Download
    } else {
        StaleAction::WarnDisabled
    }
}

/// What a send round does with the queue entries it sent.
#[derive(Debug, Clone, PartialEq, Eq)]
pub enum SendSettlement {
    /// All were accepted: mark them sent. `stale` when the server reports
    /// that the configuration changed.
    Sent { ids: Vec<i64>, stale: bool },
    /// The send failed: each entry records a failed attempt with this
    /// error.
    Failed { ids: Vec<i64>, error: String },
}

/// Settles a batch after the server answered with a configuration status,
/// or failed with an error message.
pub fn settle_send(ids: Vec<i64>, outcome: Result<ConfigStatus, String>) -> (s: SendSettlement)
    ensures
        match outcome {
            Ok(status) => s == (SendSettlement::Sent { ids, stale: status == ConfigStatus::Stale }),
            Err(e) => s == (SendSettlement::Failed { ids, error: e }),
        },
{
    match outcome {
        Ok(status) => SendSettlement::Sent { ids, stale: status == ConfigStatus::Stale },
        Err(e) => SendSettlement::Failed { ids, error: e },
    }
}

/// The server settings that bandwidth tests need: present only when the
/// agent is not local-only.
pub fn bandwidth_server_config(config: &AgentConfig) -> (r: (
    Option<String>,
    Option<String>,
    Option<String>,
))
    ensures
        config.local_only ==> r.0 is None && r.1 is None && r.2 is None,
        !config.local_only ==> (r.0 matches Some(u) && u@ == config.central_server_url@) && (
        r.1 matches Some(k) && k@ == config.api_key@) && (r.2 matches Some(i) && i@
            == config.agent_id@),
{
    if config.local_only {
        (None, None, None)
    } else {
        (
            Some(config.central_server_url.clone()),
            Some(config.api_key.clone()),
            Some(config.agent_id.clone()),
        )
    }
}

/// The message of a request that the server answered with an error status:
/// `"{what} {status}: {body}"`.
pub fn server_error_message(what: &str, status: &str, body: &str) -> (m: String)
    ensures
        m@ == what@ + " "@ + status@ + ": "@ + body@,
{
    let mut m = String::new();
    m.append(what);
    m.append(" ");
    m.append(status);
    m.append(": ");
    m.append(body);
    m
}

/// The URL of a server endpoint.
pub fn endpoint_url(server_url: &str, path: &str) -> (u: String)
    ensures
        u@ == server_url@ + path@,
{
    let mut u = String::new();
    u.append(server_url);
    u.append(path);
    u
}

/// What kind of failure stopped the agent at startup, by its message.
#[derive(Debug, Clone, Copy, PartialEq, Eq, Structural)]
pub enum StartupFailure {
    /// A configuration file failed validation.
    Validation,
    /// A configuration file could not be read.
    MissingFile,
    /// A configuration file is no valid TOML.
    TomlSyntax,
    /// Anything else.
    Other,
}

/// The kind of a startup failure: validation when the message mentions
/// it, else a file that could not be read, else a TOML syntax error.
pub open spec fn startup_failure_of(msg: Seq<char>) -> StartupFailure {
    if contains(msg, "Validation"@) || contains(msg, "validation"@) {
        StartupFailure::Validation
    } else if contains(msg, "Failed to read"@) {
        StartupFailure::MissingFile
    } else if contains(msg, "Failed to parse"@) {
        StartupFailure::TomlSyntax
    } else {
        StartupFailure::Other
    }
}

/// Classifies a startup failure by its message, to print guidance for it.
pub fn classify_startup_failure(message: &str) -> (k: StartupFailure)
    ensures
        k == startup_failure_of(message@),
{
    let m = chars_of(message);
    if contains_exec(&m, &chars_of("Validation")) || contains_exec(&m, &chars_of("validation")) {
        StartupFailure::Validation
    } else if contains_exec(&m, &chars_of("Failed to read")) {
        StartupFailure::MissingFile
    } else if contains_exec(&m, &chars_of("Failed to parse")) {
        StartupFailure::TomlSyntax
    } else {
        StartupFailure::Other
    }
}

} // verus!
