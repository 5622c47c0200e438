//! The agent's own settings: the values of `agent.toml`, the overrides given
//! on the command line, change detection of the configuration files, and the
//! hash of the tasks file that the server compares.
use vstd::prelude::*;
use vstd::utf8::encode_utf8;

use crate::tasks::{
    agent_problem, reported_problem, tasks_valid, validate_config,
    AgentProblem, ConfigError, TasksConfig,
};
use crate::text::{decimal, decimal_string, str_eq};

verus! {

broadcast use vstd::string::group_string_axioms;

/// The settings of `agent.toml`.
#[derive(Debug, Clone, PartialEq, Eq)]
pub struct AgentConfig {
    pub agent_id: String,
    pub central_server_url: String,
    pub api_key: String,
    pub local_data_retention_days: u32,
    pub auto_update_tasks: bool,
    pub local_only: bool,
    pub metrics_flush_interval_seconds: u32,
    pub metrics_send_interval_seconds: u32,
    pub metrics_batch_size: usize,
    pub metrics_max_retries: u32,
    pub queue_cleanup_interval_seconds: u64,
    pub data_cleanup_interval_seconds: u64,
    pub max_concurrent_tasks: usize,
    pub http_response_max_size_mb: u64,
    pub http_client_timeout_seconds: u64,
    pub database_busy_timeout_seconds: u64,
    pub graceful_shutdown_timeout_seconds: u64,
    pub channel_buffer_size: usize,
    pub http_client_refresh_interval_seconds: u64,
}

impl AgentConfig {
    /// A copy of the settings.
    pub fn duplicate(&self) -> (r: AgentConfig)
        ensures
            r@ == self@,
    {
        AgentConfig {
            agent_id: self.agent_id.clone(),
            central_server_url: self.central_server_url.clone(),
            api_key: self.api_key.clone(),
            local_data_retention_days: self.local_data_retention_days,
            auto_update_tasks: self.auto_update_tasks,
            local_only: self.local_only,
            metrics_flush_interval_seconds: self.metrics_flush_interval_seconds,
            metrics_send_interval_seconds: self.metrics_send_interval_seconds,
            metrics_batch_size: self.metrics_batch_size,
            metrics_max_retries: self.metrics_max_retries,
            queue_cleanup_interval_seconds: self.queue_cleanup_interval_seconds,
            data_cleanup_interval_seconds: self.data_cleanup_interval_seconds,
            max_concurrent_tasks: self.max_concurrent_tasks,
            http_response_max_size_mb: self.http_response_max_size_mb,
            http_client_timeout_seconds: self.http_client_timeout_seconds,
            database_busy_timeout_seconds: self.database_busy_timeout_seconds,
            graceful_shutdown_timeout_seconds: self.graceful_shutdown_timeout_seconds,
            channel_buffer_size: self.channel_buffer_size,
            http_client_refresh_interval_seconds: self.http_client_refresh_interval_seconds,
        }
    }
}

/// The settings as values: the strings by their characters.
pub struct AgentConfigView {
    pub agent_id: Seq<char>,
    pub central_server_url: Seq<char>,
    pub api_key: Seq<char>,
    pub local_data_retention_days: u32,
    pub auto_update_tasks: bool,
    pub local_only: bool,
    pub metrics_flush_interval_seconds: u32,
    pub metrics_send_interval_seconds: u32,
    pub metrics_batch_size: usize,
    pub metrics_max_retries: u32,
    pub queue_cleanup_interval_seconds: u64,
    pub data_cleanup_interval_seconds: u64,
    pub max_concurrent_tasks: usize,
    pub http_response_max_size_mb: u64,
    pub http_client_timeout_seconds: u64,
    pub database_busy_timeout_seconds: u64,
    pub graceful_shutdown_timeout_seconds: u64,
    pub channel_buffer_size: usize,
    pub http_client_refresh_interval_seconds: u64,
}

impl View for AgentConfig {
    type V = AgentConfigView;

    open spec fn view(&self) -> AgentConfigView {
        AgentConfigView {
            agent_id: self.agent_id@,
            central_server_url: self.central_server_url@,
            api_key: self.api_key@,
            local_data_retention_days: self.local_data_retention_days,
            auto_update_tasks: self.auto_update_tasks,
            local_only: self.local_only,
            metrics_flush_interval_seconds: self.metrics_flush_interval_seconds,
            metrics_send_interval_seconds: self.metrics_send_interval_seconds,
            metrics_batch_size: self.metrics_batch_size,
            metrics_max_retries: self.metrics_max_retries,
            queue_cleanup_interval_seconds: self.queue_cleanup_interval_seconds,
            data_cleanup_interval_seconds: self.data_cleanup_interval_seconds,
            max_concurrent_tasks: self.max_concurrent_tasks,
            http_response_max_size_mb: self.http_response_max_size_mb,
            http_client_timeout_seconds: self.http_client_timeout_seconds,
            database_busy_timeout_seconds: self.database_busy_timeout_seconds,
            graceful_shutdown_timeout_seconds: self.graceful_shutdown_timeout_seconds,
            channel_buffer_size: self.channel_buffer_size,
            http_client_refresh_interval_seconds: self.http_client_refresh_interval_seconds,
        }
    }
}

/// Values given on the command line to replace settings; `None` keeps the
/// setting.
pub struct ConfigOverrides {
    pub agent_id: Option<String>,
    pub server_url: Option<String>,
    pub api_key: Option<String>,
    pub retention_days: Option<u32>,
    pub auto_update_tasks: Option<bool>,
    pub local_only: Option<bool>,
}

/// An optional text by its characters.
pub open spec fn opt_chars(o: Option<String>) -> Option<Seq<char>> {
    match o {
        Some(s) => Some(s@),
        None => None,
    }
}

/// A setting after an override: the given value, or the old one.
pub open spec fn overridden<T>(old: T, given: Option<T>) -> T {
    match given {
        Some(v) => v,
        None => old,
    }
}

/// Whether an override replaces a setting by a different value.
pub open spec fn differs<T>(old: T, given: Option<T>) -> bool {
    match given {
        Some(v) => v != old,
        None => false,
    }
}

/// The settings after the overrides: the six overridable settings take the
/// given values, all others stay.
pub open spec fn with_overrides(c: AgentConfigView, o: ConfigOverrides) -> AgentConfigView {
    AgentConfigView {
        agent_id: overridden(c.agent_id, opt_chars(o.agent_id)),
        central_server_url: overridden(c.central_server_url, opt_chars(o.server_url)),
        api_key: overridden(c.api_key, opt_chars(o.api_key)),
        local_data_retention_days: overridden(c.local_data_retention_days, o.retention_days),
        auto_update_tasks: overridden(c.auto_update_tasks, o.auto_update_tasks),
        local_only: overridden(c.local_only, o.local_only),
        ..c
    }
}

/// Whether the overrides change any setting.
pub open spec fn overrides_change(c: AgentConfigView, o: ConfigOverrides) -> bool {
    ||| differs(c.agent_id, opt_chars(o.agent_id))
    ||| differs(c.central_server_url, opt_chars(o.server_url))
    ||| differs(c.api_key, opt_chars(o.api_key))
    ||| differs(c.local_data_retention_days, o.retention_days)
    ||| differs(c.auto_update_tasks, o.auto_update_tasks)
    ||| differs(c.local_only, o.local_only)
}

/// Replaces a text setting by an override that differs from it.
fn override_text(slot: &mut String, given: Option<String>) -> (changed: bool)
    ensures
        final(slot)@ == overridden(old(slot)@, opt_chars(given)),
        changed == differs(old(slot)@, opt_chars(given)),
{
    match given {
        Some(v) => {
            if str_eq(slot.as_str(), v.as_str()) {
                false
            } else {
                *slot = v;
                true
            }
        },
        None => false,
    }
}

/// Applies command-line overrides to the settings and tells whether any
/// setting changed. A value equal to the current one is no change.
pub fn apply_overrides(config: &mut AgentConfig, overrides: ConfigOverrides) -> (changed: bool)
    ensures
        final(config)@ == with_overrides(old(config)@, overrides),
        changed == overrides_change(old(config)@, overrides),
{
    let ghost o = overrides;
    let ConfigOverrides {
        agent_id,
        server_url,
        api_key,
        retention_days,
        auto_update_tasks,
        local_only,
    } = overrides;
    let mut changed = false;
    if override_text(&mut config.agent_id, agent_id) {
        changed = true;
    }
    if override_text(&mut config.central_server_url, server_url) {
        changed = true;
    }
    if override_text(&mut config.api_key, api_key) {
        changed = true;
    }
    if let Some(days) = retention_days {
        if config.local_data_retention_days != days {
            config.local_data_retention_days = days;
            changed = true;
        }
    }
    if let Some(auto) = auto_update_tasks {
        if config.auto_update_tasks != auto {
            config.auto_update_tasks = auto;
            changed = true;
        }
    }
    if let Some(local) = local_only {
        if config.local_only != local {
            config.local_only = local;
            changed = true;
        }
    }
    assert(final(config)@ == with_overrides(old(config)@, o)) by {
        assert(final(config)@.agent_id == with_overrides(old(config)@, o).agent_id);
    }
    changed
}

/// Overrides that give each setting the value it already has change nothing
/// and leave the settings as they were.
pub proof fn lemma_same_values_change_nothing(c: AgentConfigView, o: ConfigOverrides)
    requires
        opt_chars(o.agent_id) is Some ==> opt_chars(o.agent_id) == Some(c.agent_id),
        opt_chars(o.server_url) is Some ==> opt_chars(o.server_url) == Some(c.central_server_url),
        opt_chars(o.api_key) is Some ==> opt_chars(o.api_key) == Some(c.api_key),
        o.retention_days is Some ==> o.retention_days == Some(c.local_data_retention_days),
        o.auto_update_tasks is Some ==> o.auto_update_tasks == Some(c.auto_update_tasks),
        o.local_only is Some ==> o.local_only == Some(c.local_only),
    ensures
        !overrides_change(c, o),
        with_overrides(c, o) == c,
{
}

/// Applying the same overrides a second time changes nothing more.
pub proof fn lemma_overrides_idempotent(c: AgentConfigView, o: ConfigOverrides)
    ensures
        !overrides_change(with_overrides(c, o), o),
        with_overrides(with_overrides(c, o), o) == with_overrides(c, o),
{
}

/// The settings change exactly when some override differs from them.
pub proof fn lemma_change_reported_iff_settings_differ(c: AgentConfigView, o: ConfigOverrides)
    ensures
        overrides_change(c, o) <==> with_overrides(c, o) != c,
{
    if overrides_change(c, o) {
        if differs(c.agent_id, opt_chars(o.agent_id)) {
            assert(with_overrides(c, o).agent_id != c.agent_id);
        }
        if differs(c.central_server_url, opt_chars(o.server_url)) {
            assert(with_overrides(c, o).central_server_url != c.central_server_url);
        }
        if differs(c.api_key, opt_chars(o.api_key)) {
            assert(with_overrides(c, o).api_key != c.api_key);
        }
    }
}

/// The configuration held by the agent: its settings and its tasks, once
/// loaded, and the checksum of the files they were read from.
pub struct ConfigManager {
    /// Directory of `agent.toml` and `tasks.toml`.
    pub config_dir: String,
    pub agent_config: Option<AgentConfig>,
    pub tasks_config: Option<TasksConfig>,
    /// Checksum of the two files' contents when they were loaded.
    pub current_checksum: Option<String>,
}

/// Why a configuration directory was refused; each holds the path.
#[derive(Debug, Clone, PartialEq, Eq)]
pub enum ConfigDirError {
    /// Nothing exists at the path.
    Missing(String),
    /// The path is no directory.
    NotADirectory(String),
}

impl ConfigDirError {
    /// The message of the refusal.
    pub fn message(&self) -> (m: String)
        ensures
            m@ == match *self {
                ConfigDirError::Missing(p) => "Configuration directory does not exist: "@ + p@,
                ConfigDirError::NotADirectory(p) => "Configuration path is not a directory: "@ + p@,
            },
    {
        match self {
            ConfigDirError::Missing(p) => {
                let mut m = String::from_str("Configuration directory does not exist: ");
                m.append(p.as_str());
                m
            },
            ConfigDirError::NotADirectory(p) => {
                let mut m = String::from_str("Configuration path is not a directory: ");
                m.append(p.as_str());
                m
            },
        }
    }
}

/// Whether files with checksum `new_checksum` must be parsed again: unless
/// the configuration was loaded from files with that very checksum.
pub open spec fn reload_needed(m: ConfigManager, new_checksum: Seq<char>) -> bool {
    match m.current_checksum {
        Some(c) => c@ != new_checksum,
        None => true,
    }
}

impl ConfigManager {
    /// Every configuration the manager holds has passed validation: the
    /// settings, if loaded, and the tasks, if loaded.
    pub open spec fn holds_valid(self) -> bool {
        &&& self.agent_config matches Some(a) ==> agent_problem(a@) is None
        &&& self.tasks_config matches Some(t) ==> tasks_valid(t.tasks@)
    }

    /// A manager for the configuration directory, with nothing loaded yet.
    /// `exists` and `is_dir` say what the file system holds at `config_dir`:
    /// a path that does not exist, or that is no directory, is refused.
    pub fn new(config_dir: String, exists: bool, is_dir: bool) -> (r: Result<ConfigManager, ConfigDirError>)
        ensures
            (r is Ok) == (exists && is_dir),
            !exists ==> r == Err::<ConfigManager, ConfigDirError>(ConfigDirError::Missing(config_dir)),
            exists && !is_dir ==> r == Err::<ConfigManager, ConfigDirError>(
                ConfigDirError::NotADirectory(config_dir),
            ),
            r matches Ok(m) ==> {
                &&& m.config_dir == config_dir
                &&& m.agent_config is None
                &&& m.tasks_config is None
                &&& m.current_checksum is None
                &&& m.holds_valid()
            },
    {
        if !exists {
            Err(ConfigDirError::Missing(config_dir))
        } else if !is_dir {
            Err(ConfigDirError::NotADirectory(config_dir))
        } else {
            Ok(ConfigManager { config_dir, agent_config: None, tasks_config: None, current_checksum: None })
        }
    }

    /// Whether both files have been loaded.
    pub fn is_loaded(&self) -> (r: bool)
        ensures
            r == (self.agent_config is Some && self.tasks_config is Some),
    {
        self.agent_config.is_some() && self.tasks_config.is_some()
    }

    /// Whether files whose checksum is `new_checksum` must be parsed again:
    /// unless their checksum equals the one they were loaded with.
    pub fn needs_reload(&self, new_checksum: &str) -> (r: bool)
        ensures
            r == reload_needed(*self, new_checksum@),
    {
        match &self.current_checksum {
            Some(c) => !str_eq(c.as_str(), new_checksum),
            None => true,
        }
    }

    /// Takes a configuration parsed from the files, with the files'
    /// checksum. It is kept only if it passes validation; otherwise the
    /// manager keeps what it held and the answer says why the configuration
    /// was refused.
    pub fn load_parsed(&mut self, agent_config: AgentConfig, tasks_config: TasksConfig, checksum: String) -> (r: Result<(), ConfigError>)
        ensures
            (r is Ok) == (agent_problem(agent_config@) is None && tasks_valid(tasks_config.tasks@)),
            r is Ok ==> final(self).config_dir == old(self).config_dir
                && final(self).agent_config == Some(agent_config)
                && final(self).tasks_config == Some(tasks_config)
                && final(self).current_checksum == Some(checksum),
            r is Err ==> *final(self) == *old(self),
            match agent_problem(agent_config@) {
                Some(p) => r == Err::<(), ConfigError>(ConfigError::Agent(p)),
                None => r is Err ==> (r matches Err(ConfigError::Tasks(e)) && exists|i: int|
                    0 <= i < tasks_config.tasks@.len()
                        && (#[trigger] tasks_config.tasks@[i]).name@ == e.task@
                        && reported_problem(tasks_config.tasks@, i, e.problem)),
            },
            old(self).holds_valid() ==> final(self).holds_valid(),
    {
        match validate_config(&agent_config, &tasks_config) {
            Ok(()) => {
                self.agent_config = Some(agent_config);
                self.tasks_config = Some(tasks_config);
                self.current_checksum = Some(checksum);
                Ok(())
            },
            Err(e) => Err(e),
        }
    }

    /// Applies command-line overrides to the loaded settings. The settings
    /// must have been loaded. The answer is `Ok(None)` when nothing changes;
    /// the overridden settings when they change and pass validation, to be
    /// written out and then kept (`store_agent_config`); and the settings'
    /// problem when they change and fail it.
    pub fn override_agent_config(&self, overrides: ConfigOverrides) -> (r: Result<Option<AgentConfig>, AgentProblem>)
        requires
            self.agent_config is Some,
        ensures
            !overrides_change(self.agent_config->0@, overrides) ==> r == Ok::<Option<AgentConfig>, AgentProblem>(None),
            overrides_change(self.agent_config->0@, overrides) ==> match agent_problem(with_overrides(self.agent_config->0@, overrides)) {
                None => r matches Ok(Some(c)) && c@ == with_overrides(self.agent_config->0@, overrides),
                Some(p) => r == Err::<Option<AgentConfig>, AgentProblem>(p),
            },
    {
        let mut c = match &self.agent_config {
            Some(a) => a.duplicate(),
            None => {
                proof {
                    assert(false);
                }
                return Ok(None);
            },
        };
        if apply_overrides(&mut c, overrides) {
            match c.validate() {
                Ok(()) => Ok(Some(c)),
                Err(p) => Err(p),
            }
        } else {
            Ok(None)
        }
    }

    /// Keeps new settings once they were written out. Settings that fail
    /// validation are refused and the manager keeps what it held.
    pub fn store_agent_config(&mut self, config: AgentConfig) -> (r: Result<(), AgentProblem>)
        ensures
            match agent_problem(config@) {
                None => r is Ok && final(self).agent_config == Some(config)
                    && final(self).config_dir == old(self).config_dir
                    && final(self).tasks_config == old(self).tasks_config
                    && final(self).current_checksum == old(self).current_checksum,
                Some(p) => r == Err::<(), AgentProblem>(p) && *final(self) == *old(self),
            },
            old(self).holds_valid() ==> final(self).holds_valid(),
    {
        match config.validate() {
            Ok(()) => {
                self.agent_config = Some(config);
                Ok(())
            },
            Err(p) => Err(p),
        }
    }
}

/// Once a configuration is loaded, the same files need no reload, and files
/// with another checksum do.
pub proof fn lemma_reload_only_on_change(m: ConfigManager, loaded: Seq<char>, other: Seq<char>)
    requires
        m.current_checksum matches Some(c) && c@ == loaded,
    ensures
        !reload_needed(m, loaded),
        other != loaded ==> reload_needed(m, other),
{
}

/// The name of the backup made of the tasks file at `timestamp`.
pub fn tasks_backup_name(timestamp: u64) -> (r: String)
    ensures
        r@ == "tasks.toml."@ + decimal(timestamp as nat),
{
    let mut r = String::new();
    r.append("tasks.toml.");
    r.append(decimal_string(timestamp).as_str());
    r
}

/// The BLAKE3 hash of a byte string, 32 bytes.
pub uninterp spec fn blake3_hash(input: Seq<u8>) -> Seq<u8>;

/// `blake3::hash`, the digest's bytes. Claimed: the 32 bytes are
/// `blake3_hash` of the input.
#[verifier::external_body]
fn blake3_digest(input: &[u8]) -> (d: [u8; 32])
    ensures
        d@ == blake3_hash(input@),
{
    *blake3::hash(input).as_bytes()
}

/// The lowercase hexadecimal digit of a value below 16.
pub open spec fn hex_digit(v: u8) -> char {
    if v < 10 {
        (('0' as u8) + v) as char
    } else {
        (('a' as u8) + v - 10) as char
    }
}

/// Lowercase hexadecimal of a byte string, two digits per byte, the high
/// half first.
pub open spec fn hex_lower(b: Seq<u8>) -> Seq<char>
    decreases b.len(),
{
    if b.len() == 0 {
        Seq::empty()
    } else {
        hex_lower(b.drop_last()) + seq![hex_digit(b.last() / 16), hex_digit(b.last() % 16)]
    }
}

fn hex_digit_exec(v: u8) -> (c: char)
    requires
        v < 16,
    ensures
        c == hex_digit(v),
{
    if v < 10 {
        (48u8 + v) as char
    } else {
        (97u8 + v - 10) as char
    }
}

/// The hash of the tasks file that the server compares: BLAKE3 of its
/// UTF-8 bytes, in lowercase hexadecimal.
pub fn tasks_config_hash(content: &str) -> (h: String)
    ensures
        h@ == hex_lower(blake3_hash(encode_utf8(content@))),
{
    let d = blake3_digest(content.as_bytes());
    let mut out: Vec<char> = Vec::new();
    let mut i: usize = 0;
    while i < 32
        invariant
            0 <= i <= 32,
            d@.len() == 32,
            out@ == hex_lower(d@.take(i as int)),
        decreases 32 - i,
    {
        let b = d[i];
        assert(d@.take(i + 1).drop_last() =~= d@.take(i as int));
        out.push(hex_digit_exec(b / 16));
        out.push(hex_digit_exec(b % 16));
        i = i + 1;
    }
    assert(d@.take(32) =~= d@);
    crate::text::string_from_chars(&out)
}

/// The checksum of the two configuration files: the hash, as for the tasks
/// file, of the agent file's text followed by the tasks file's text.
pub fn files_checksum(agent_text: &str, tasks_text: &str) -> (h: String)
    ensures
        h@ == hex_lower(blake3_hash(encode_utf8(agent_text@ + tasks_text@))),
{
    let mut both = String::from_str(agent_text);
    both.append(tasks_text);
    tasks_config_hash(both.as_str())
}

} // verus!
