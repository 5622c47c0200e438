//! The monitoring tasks of `tasks.toml` and the checks a configuration must
//! pass before the agent uses it: required parameters present, URLs with an
//! HTTP scheme, content patterns that compile, schedules within their
//! limits, parameters that fit the task type, and unique task names.
use vstd::prelude::*;

use crate::config::{AgentConfig, AgentConfigView};
use crate::http_content::{compile_pattern, regex_compiles};
use crate::queue::MetricKind;
use crate::text::{chars_of, starts_with, starts_with_exec};

verus! {

broadcast use vstd::string::group_string_axioms;

/// Shortest schedule of a bandwidth test, in seconds.
pub const MIN_BANDWIDTH_SCHEDULE_SECONDS: u32 = 60;

/// The kinds of monitoring task.
#[derive(Debug, Clone, Copy, PartialEq, Eq, Structural)]
pub enum TaskType {
    Ping,
    Tcp,
    HttpGet,
    HttpContent,
    TlsHandshake,
    DnsQuery,
    DnsQueryDoh,
    Bandwidth,
}

#[derive(Debug, Clone, PartialEq, Eq)]
pub struct PingParams {
    pub host: String,
    pub timeout_seconds: u32,
    pub target_id: Option<String>,
}

#[derive(Debug, Clone, PartialEq, Eq)]
pub struct TcpParams {
    pub host: String,
    pub timeout_seconds: u32,
    pub target_id: Option<String>,
}

#[derive(Debug, Clone, PartialEq, Eq)]
pub struct HttpGetParams {
    pub url: String,
    pub timeout_seconds: u32,
    /// Request headers, each a name and a value.
    pub headers: Vec<(String, String)>,
    pub verify_ssl: bool,
    pub target_id: Option<String>,
}

#[derive(Debug, Clone, PartialEq, Eq)]
pub struct HttpContentParams {
    pub url: String,
    pub regexp: String,
    pub timeout_seconds: u32,
    pub target_id: Option<String>,
}

#[derive(Debug, Clone, PartialEq, Eq)]
pub struct TlsHandshakeParams {
    pub host: String,
    pub verify_ssl: bool,
    pub target_id: Option<String>,
}

/// The record types a DNS task can ask for.
#[derive(Debug, Clone, Copy, PartialEq, Eq, Structural)]
pub enum DnsRecordType {
    A,
    AAAA,
    MX,
    CNAME,
    TXT,
    NS,
}

#[derive(Debug, Clone, PartialEq, Eq)]
pub struct DnsQueryParams {
    pub server: String,
    pub domain: String,
    pub record_type: DnsRecordType,
    pub timeout_seconds: u32,
    pub expected_ip: Option<String>,
    pub target_id: Option<String>,
}

#[derive(Debug, Clone, PartialEq, Eq)]
pub struct DnsQueryDohParams {
    pub server_url: String,
    pub domain: String,
    pub record_type: DnsRecordType,
    pub timeout_seconds: u32,
    pub expected_ip: Option<String>,
    pub target_id: Option<String>,
}

#[derive(Debug, Clone, PartialEq, Eq)]
pub struct BandwidthParams {
    pub timeout_seconds: u32,
    pub max_retries: u32,
    pub target_id: Option<String>,
}

/// The parameters of a task, by its type.
#[derive(Debug, Clone, PartialEq, Eq)]
pub enum TaskParams {
    Ping(PingParams),
    Tcp(TcpParams),
    HttpGet(HttpGetParams),
    HttpContent(HttpContentParams),
    TlsHandshake(TlsHandshakeParams),
    DnsQuery(DnsQueryParams),
    DnsQueryDoh(DnsQueryDohParams),
    Bandwidth(BandwidthParams),
}

/// One task of `tasks.toml`.
#[derive(Debug, Clone, PartialEq, Eq)]
pub struct TaskConfig {
    pub task_type: TaskType,
    pub schedule_seconds: u32,
    pub name: String,
    /// The run's timeout in seconds, when it differs from the parameters'.
    pub timeout: Option<u32>,
    pub params: TaskParams,
}

/// `tasks.toml`.
#[derive(Debug, Clone, PartialEq, Eq)]
pub struct TasksConfig {
    pub tasks: Vec<TaskConfig>,
}

/// The task type that parameters belong to.
pub open spec fn params_type(p: TaskParams) -> TaskType {
    match p {
        TaskParams::Ping(_) => TaskType::Ping,
        TaskParams::Tcp(_) => TaskType::Tcp,
        TaskParams::HttpGet(_) => TaskType::HttpGet,
        TaskParams::HttpContent(_) => TaskType::HttpContent,
        TaskParams::TlsHandshake(_) => TaskType::TlsHandshake,
        TaskParams::DnsQuery(_) => TaskType::DnsQuery,
        TaskParams::DnsQueryDoh(_) => TaskType::DnsQueryDoh,
        TaskParams::Bandwidth(_) => TaskType::Bandwidth,
    }
}

/// The metric table that a task type stores into (both DNS kinds share one).
pub open spec fn kind_of(t: TaskType) -> MetricKind {
    match t {
        TaskType::Ping => MetricKind::Ping,
        TaskType::Tcp => MetricKind::Tcp,
        TaskType::HttpGet => MetricKind::Http,
        TaskType::HttpContent => MetricKind::HttpContent,
        TaskType::TlsHandshake => MetricKind::Tls,
        TaskType::DnsQuery => MetricKind::Dns,
        TaskType::DnsQueryDoh => MetricKind::Dns,
        TaskType::Bandwidth => MetricKind::Bandwidth,
    }
}

/// The metric table of a task type.
pub fn metric_kind(t: TaskType) -> (k: MetricKind)
    ensures
        k == kind_of(t),
{
    match t {
        TaskType::Ping => MetricKind::Ping,
        TaskType::Tcp => MetricKind::Tcp,
        TaskType::HttpGet => MetricKind::Http,
        TaskType::HttpContent => MetricKind::HttpContent,
        TaskType::TlsHandshake => MetricKind::Tls,
        TaskType::DnsQuery => MetricKind::Dns,
        TaskType::DnsQueryDoh => MetricKind::Dns,
        TaskType::Bandwidth => MetricKind::Bandwidth,
    }
}

/// The timeout of a run: the task's own, else its parameters' timeout (a
/// TLS check, which has none, takes its schedule).
pub open spec fn timeout_of(t: TaskConfig) -> u32 {
    match t.timeout {
        Some(x) => x,
        None => match t.params {
            TaskParams::Ping(p) => p.timeout_seconds,
            TaskParams::Tcp(p) => p.timeout_seconds,
            TaskParams::HttpGet(p) => p.timeout_seconds,
            TaskParams::HttpContent(p) => p.timeout_seconds,
            TaskParams::TlsHandshake(_) => t.schedule_seconds,
            TaskParams::DnsQuery(p) => p.timeout_seconds,
            TaskParams::DnsQueryDoh(p) => p.timeout_seconds,
            TaskParams::Bandwidth(p) => p.timeout_seconds,
        },
    }
}

impl TaskConfig {
    /// The timeout of a run, in seconds.
    pub fn effective_timeout(&self) -> (s: u32)
        ensures
            s == timeout_of(*self),
    {
        match self.timeout {
            Some(x) => x,
            None => match &self.params {
                TaskParams::Ping(p) => p.timeout_seconds,
                TaskParams::Tcp(p) => p.timeout_seconds,
                TaskParams::HttpGet(p) => p.timeout_seconds,
                TaskParams::HttpContent(p) => p.timeout_seconds,
                TaskParams::TlsHandshake(_) => self.schedule_seconds,
                TaskParams::DnsQuery(p) => p.timeout_seconds,
                TaskParams::DnsQueryDoh(p) => p.timeout_seconds,
                TaskParams::Bandwidth(p) => p.timeout_seconds,
            },
        }
    }
}

/// A required parameter of a task.
#[derive(Debug, Clone, Copy, PartialEq, Eq, Structural)]
pub enum Parameter {
    Host,
    Url,
    Regexp,
    Server,
    Domain,
    ServerUrl,
}

/// What is wrong with a task.
#[derive(Debug, Clone, Copy, PartialEq, Eq, Structural)]
pub enum TaskProblem {
    /// The task has no name.
    EmptyName,
    /// The schedule is 0 seconds.
    ZeroSchedule,
    /// The parameters belong to another task type.
    TypeMismatch,
    /// A bandwidth test is scheduled more often than once a minute.
    BandwidthScheduleTooShort,
    /// A required parameter is empty.
    EmptyParameter(Parameter),
    /// A URL does not start with `http://` or `https://`.
    InvalidUrl,
    /// The content pattern is no valid regular expression.
    InvalidRegex,
    /// Another task has the same name.
    DuplicateName,
}

/// A URL with an HTTP scheme.
pub open spec fn is_http_url(u: Seq<char>) -> bool {
    starts_with(u, "http://"@) || starts_with(u, "https://"@)
}

/// The first required parameter of the list that is empty.
pub open spec fn first_empty(ps: Seq<(Parameter, Seq<char>)>) -> Option<Parameter>
    decreases ps.len(),
{
    if ps.len() == 0 {
        None
    } else if ps[0].1.len() == 0 {
        Some(ps[0].0)
    } else {
        first_empty(ps.drop_first())
    }
}

/// The required parameters of a task, in the order they are checked.
pub open spec fn required_params(p: TaskParams) -> Seq<(Parameter, Seq<char>)> {
    match p {
        TaskParams::Ping(q) => seq![(Parameter::Host, q.host@)],
        TaskParams::Tcp(q) => seq![(Parameter::Host, q.host@)],
        TaskParams::HttpGet(q) => seq![(Parameter::Url, q.url@)],
        TaskParams::HttpContent(q) => seq![(Parameter::Url, q.url@), (Parameter::Regexp, q.regexp@)],
        TaskParams::TlsHandshake(q) => seq![(Parameter::Host, q.host@)],
        TaskParams::DnsQuery(q) => seq![(Parameter::Server, q.server@), (Parameter::Domain, q.domain@)],
        TaskParams::DnsQueryDoh(q) => seq![
            (Parameter::ServerUrl, q.server_url@),
            (Parameter::Domain, q.domain@),
        ],
        TaskParams::Bandwidth(_) => seq![],
    }
}

/// The URL of a task that must use an HTTP scheme, if it has one.
pub open spec fn checked_url(p: TaskParams) -> Option<Seq<char>> {
    match p {
        TaskParams::HttpGet(q) => Some(q.url@),
        TaskParams::HttpContent(q) => Some(q.url@),
        TaskParams::DnsQueryDoh(q) => Some(q.server_url@),
        _ => None,
    }
}

/// The first problem of a task on its own, checked in this order: name,
/// schedule, parameter type, bandwidth schedule, required parameters, URL,
/// content pattern.
pub open spec fn task_problem(t: TaskConfig) -> Option<TaskProblem> {
    if t.name@.len() == 0 {
        Some(TaskProblem::EmptyName)
    } else if t.schedule_seconds == 0 {
        Some(TaskProblem::ZeroSchedule)
    } else if params_type(t.params) != t.task_type {
        Some(TaskProblem::TypeMismatch)
    } else if t.task_type == TaskType::Bandwidth && t.schedule_seconds
        < MIN_BANDWIDTH_SCHEDULE_SECONDS {
        Some(TaskProblem::BandwidthScheduleTooShort)
    } else if first_empty(required_params(t.params)) is Some {
        Some(TaskProblem::EmptyParameter(first_empty(required_params(t.params))->0))
    } else if checked_url(t.params) matches Some(u) && !is_http_url(u) {
        Some(TaskProblem::InvalidUrl)
    } else if t.params matches TaskParams::HttpContent(q) && !regex_compiles(q.regexp@) {
        Some(TaskProblem::InvalidRegex)
    } else {
        None
    }
}

/// No two tasks share a name.
pub open spec fn names_distinct(ts: Seq<TaskConfig>) -> bool {
    forall|i: int, j: int|
        0 <= i < j < ts.len() ==> (#[trigger] ts[i]).name@ != (#[trigger] ts[j]).name@
}

/// A tasks file that may be used: every task passes its checks and the
/// names are unique.
pub open spec fn tasks_valid(ts: Seq<TaskConfig>) -> bool {
    &&& forall|i: int| 0 <= i < ts.len() ==> task_problem(#[trigger] ts[i]) is None
    &&& names_distinct(ts)
}

/// Why a tasks file was refused: the task, by name, and its problem.
#[derive(Debug, Clone, PartialEq, Eq)]
pub struct TaskConfigError {
    pub task: String,
    pub problem: TaskProblem,
}

/// An earlier task has the name of the task at `j`.
pub open spec fn has_namesake_before(ts: Seq<TaskConfig>, j: int) -> bool {
    exists|a: int| 0 <= a < j && ts[a].name@ == ts[j].name@
}

/// The refusal of a tasks file names the task at `i` with problem `p`: the
/// first task with a problem of its own, with that problem; when no task
/// has one, the first task that repeats an earlier name.
pub open spec fn reported_problem(ts: Seq<TaskConfig>, i: int, p: TaskProblem) -> bool {
    ||| {
        &&& task_problem(ts[i]) == Some(p)
        &&& forall|k: int| 0 <= k < i ==> task_problem(#[trigger] ts[k]) is None
    }
    ||| {
        &&& forall|k: int| 0 <= k < ts.len() ==> task_problem(#[trigger] ts[k]) is None
        &&& has_namesake_before(ts, i)
        &&& forall|k: int| 0 <= k < i ==> !has_namesake_before(ts, k)
        &&& p == TaskProblem::DuplicateName
    }
}

/// A tasks file is refused for one task and one problem only.
pub proof fn lemma_refusal_is_unique(ts: Seq<TaskConfig>, i: int, p: TaskProblem, j: int, q: TaskProblem)
    requires
        0 <= i < ts.len(),
        0 <= j < ts.len(),
        reported_problem(ts, i, p),
        reported_problem(ts, j, q),
    ensures
        i == j,
        p == q,
{
    if task_problem(ts[i]) == Some(p) && task_problem(ts[j]) == Some(q) {
        if i < j {
            assert(task_problem(ts[i]) is None);
        } else if j < i {
            assert(task_problem(ts[j]) is None);
        }
    } else if task_problem(ts[i]) == Some(p) {
        assert(task_problem(ts[i]) is None);
    } else if task_problem(ts[j]) == Some(q) {
        assert(task_problem(ts[j]) is None);
    } else {
        if i < j {
            assert(!has_namesake_before(ts, i));
        } else if j < i {
            assert(!has_namesake_before(ts, j));
        }
    }
}

fn http_url_exec(u: &str) -> (r: bool)
    ensures
        r == is_http_url(u@),
{
    let c = chars_of(u);
    starts_with_exec(&c, &chars_of("http://")) || starts_with_exec(&c, &chars_of("https://"))
}

fn first_empty_exec(ps: &Vec<(Parameter, &str)>) -> (r: Option<Parameter>)
    ensures
        r == first_empty(ps@.map_values(|x: (Parameter, &str)| (x.0, x.1@))),
{
    let ghost v = ps@.map_values(|x: (Parameter, &str)| (x.0, x.1@));
    assert(v.skip(0) =~= v);
    let mut i: usize = 0;
    while i < ps.len()
        invariant
            0 <= i <= ps@.len(),
            v == ps@.map_values(|x: (Parameter, &str)| (x.0, x.1@)),
            first_empty(v) == first_empty(v.skip(i as int)),
        decreases ps@.len() - i,
    {
        let ghost rest = v.skip(i as int);
        assert(rest.drop_first() =~= v.skip(i + 1));
        assert(rest[0] == v[i as int]);
        if ps[i].1.is_empty() {
            return Some(ps[i].0);
        }
        i = i + 1;
    }
    assert(v.skip(ps@.len() as int) =~= Seq::<(Parameter, Seq<char>)>::empty());
    None
}

impl TaskConfig {
    /// Checks one task on its own; a refusal gives its first problem.
    pub fn validate(&self) -> (r: Result<(), TaskProblem>)
        ensures
            match task_problem(*self) {
                Some(p) => r == Err::<(), TaskProblem>(p),
                None => r is Ok,
            },
    {
        let t = self;
        if t.name.as_str().is_empty() {
            return Err(TaskProblem::EmptyName);
        }
        if t.schedule_seconds == 0 {
            return Err(TaskProblem::ZeroSchedule);
        }
        let pt = match &t.params {
            TaskParams::Ping(_) => TaskType::Ping,
            TaskParams::Tcp(_) => TaskType::Tcp,
            TaskParams::HttpGet(_) => TaskType::HttpGet,
            TaskParams::HttpContent(_) => TaskType::HttpContent,
            TaskParams::TlsHandshake(_) => TaskType::TlsHandshake,
            TaskParams::DnsQuery(_) => TaskType::DnsQuery,
            TaskParams::DnsQueryDoh(_) => TaskType::DnsQueryDoh,
            TaskParams::Bandwidth(_) => TaskType::Bandwidth,
        };
        if pt != t.task_type {
            return Err(TaskProblem::TypeMismatch);
        }
        if t.task_type == TaskType::Bandwidth && t.schedule_seconds < MIN_BANDWIDTH_SCHEDULE_SECONDS {
            return Err(TaskProblem::BandwidthScheduleTooShort);
        }
        let mut required: Vec<(Parameter, &str)> = Vec::new();
        let mut url: Option<&str> = None;
        match &t.params {
            TaskParams::Ping(q) => {
                required.push((Parameter::Host, q.host.as_str()));
            },
            TaskParams::Tcp(q) => {
                required.push((Parameter::Host, q.host.as_str()));
            },
            TaskParams::HttpGet(q) => {
                required.push((Parameter::Url, q.url.as_str()));
                url = Some(q.url.as_str());
            },
            TaskParams::HttpContent(q) => {
                required.push((Parameter::Url, q.url.as_str()));
                required.push((Parameter::Regexp, q.regexp.as_str()));
                url = Some(q.url.as_str());
            },
            TaskParams::TlsHandshake(q) => {
                required.push((Parameter::Host, q.host.as_str()));
            },
            TaskParams::DnsQuery(q) => {
                required.push((Parameter::Server, q.server.as_str()));
                required.push((Parameter::Domain, q.domain.as_str()));
            },
            TaskParams::DnsQueryDoh(q) => {
                required.push((Parameter::ServerUrl, q.server_url.as_str()));
                required.push((Parameter::Domain, q.domain.as_str()));
                url = Some(q.server_url.as_str());
            },
            TaskParams::Bandwidth(_) => {},
        }
        assert(required@.map_values(|x: (Parameter, &str)| (x.0, x.1@)) =~= required_params(t.params));
        if let Some(p) = first_empty_exec(&required) {
            return Err(TaskProblem::EmptyParameter(p));
        }
        if let Some(u) = url {
            if !http_url_exec(u) {
                return Err(TaskProblem::InvalidUrl);
            }
        }
        if let TaskParams::HttpContent(q) = &t.params {
            if compile_pattern(q.regexp.as_str()).is_err() {
                return Err(TaskProblem::InvalidRegex);
            }
        }
        Ok(())
    }
}

impl TasksConfig {
    /// Checks a tasks file: every task on its own, then the uniqueness of the
    /// names. It is accepted exactly when it is valid; a refusal names the
    /// first task with a problem of its own and that problem, else the first
    /// task that repeats an earlier name.
    pub fn validate(&self) -> (r: Result<(), TaskConfigError>)
        ensures
            (r is Ok) == tasks_valid(self.tasks@),
            r matches Err(e) ==> exists|i: int|
                0 <= i < self.tasks@.len() && (#[trigger] self.tasks@[i]).name@ == e.task@
                    && reported_problem(self.tasks@, i, e.problem),
    {
        let ts = &self.tasks;
        let mut i: usize = 0;
        while i < ts.len()
            invariant
                ts@ == self.tasks@,
                0 <= i <= ts@.len(),
                forall|k: int| 0 <= k < i ==> task_problem(#[trigger] ts@[k]) is None,
            decreases ts@.len() - i,
        {
            match ts[i].validate() {
                Err(p) => {
                    assert(task_problem(ts@[i as int]) is Some);
                    assert(reported_problem(ts@, i as int, p));
                    return Err(TaskConfigError { task: ts[i].name.clone(), problem: p });
                },
                Ok(()) => {},
            }
            i = i + 1;
        }
        let mut j: usize = 0;
        while j < ts.len()
            invariant
                ts@ == self.tasks@,
                0 <= j <= ts@.len(),
                forall|k: int| 0 <= k < ts@.len() ==> task_problem(#[trigger] ts@[k]) is None,
                forall|a: int, b: int| 0 <= a < b < j ==> (#[trigger] ts@[a]).name@ != (#[trigger] ts@[b]).name@,
            decreases ts@.len() - j,
        {
            let mut a: usize = 0;
            while a < j
                invariant
                    ts@ == self.tasks@,
                    0 <= a <= j < ts@.len(),
                    forall|k: int| 0 <= k < ts@.len() ==> task_problem(#[trigger] ts@[k]) is None,
                    forall|x: int, y: int|
                        0 <= x < y < j ==> (#[trigger] ts@[x]).name@ != (#[trigger] ts@[y]).name@,
                    forall|k: int| 0 <= k < a ==> (#[trigger] ts@[k]).name@ != ts@[j as int].name@,
                decreases j - a,
            {
                if ts[a].name == ts[j].name {
                    assert(ts@[j as int].name@ == ts@[a as int].name@);
                    assert(!names_distinct(ts@));
                    assert(has_namesake_before(ts@, j as int));
                    assert forall|k: int| 0 <= k < j implies !has_namesake_before(ts@, k) by {
                        if has_namesake_before(ts@, k) {
                            let b = choose|b: int| 0 <= b < k && ts@[b].name@ == ts@[k].name@;
                            assert(ts@[b].name@ != ts@[k].name@);
                        }
                    }
                    assert(reported_problem(ts@, j as int, TaskProblem::DuplicateName));
                    return Err(TaskConfigError { task: ts[j].name.clone(), problem: TaskProblem::DuplicateName });
                }
                a = a + 1;
            }
            j = j + 1;
        }
        Ok(())
    }
}

/// What is wrong with the agent's settings.
#[derive(Debug, Clone, Copy, PartialEq, Eq, Structural)]
pub enum AgentProblem {
    /// The agent has no id.
    EmptyAgentId,
    /// The server URL does not start with `http://` or `https://`.
    InvalidServerUrl,
    /// The server's API key is empty.
    EmptyApiKey,
}

/// The first problem of the settings: the agent needs an id; unless it runs
/// alone, it needs an HTTP server URL and an API key.
pub open spec fn agent_problem(c: AgentConfigView) -> Option<AgentProblem> {
    if c.agent_id.len() == 0 {
        Some(AgentProblem::EmptyAgentId)
    } else if !c.local_only && !is_http_url(c.central_server_url) {
        Some(AgentProblem::InvalidServerUrl)
    } else if !c.local_only && c.api_key.len() == 0 {
        Some(AgentProblem::EmptyApiKey)
    } else {
        None
    }
}

impl AgentConfig {
    /// Checks the agent's settings; a refusal gives their first problem.
    pub fn validate(&self) -> (r: Result<(), AgentProblem>)
        ensures
            match agent_problem(self@) {
                Some(p) => r == Err::<(), AgentProblem>(p),
                None => r is Ok,
            },
    {
        if self.agent_id.as_str().is_empty() {
            Err(AgentProblem::EmptyAgentId)
        } else if !self.local_only && !http_url_exec(self.central_server_url.as_str()) {
            Err(AgentProblem::InvalidServerUrl)
        } else if !self.local_only && self.api_key.as_str().is_empty() {
            Err(AgentProblem::EmptyApiKey)
        } else {
            Ok(())
        }
    }
}

/// Why a configuration was refused.
#[derive(Debug, Clone, PartialEq, Eq)]
pub enum ConfigError {
    Agent(AgentProblem),
    Tasks(TaskConfigError),
}

/// The text of a parameter's name.
pub open spec fn parameter_text(p: Parameter) -> Seq<char> {
    match p {
        Parameter::Host => "host"@,
        Parameter::Url => "url"@,
        Parameter::Regexp => "regexp"@,
        Parameter::Server => "server"@,
        Parameter::Domain => "domain"@,
        Parameter::ServerUrl => "server_url"@,
    }
}

/// What a task problem says.
pub open spec fn task_problem_text(p: TaskProblem) -> Seq<char> {
    match p {
        TaskProblem::EmptyName => "task name must not be empty"@,
        TaskProblem::ZeroSchedule => "schedule_seconds must be greater than 0"@,
        TaskProblem::TypeMismatch => "parameters do not match the task type"@,
        TaskProblem::BandwidthScheduleTooShort => "bandwidth tasks need schedule_seconds of at least 60"@,
        TaskProblem::EmptyParameter(q) => parameter_text(q) + " must not be empty"@,
        TaskProblem::InvalidUrl => "URL must start with http:// or https://"@,
        TaskProblem::InvalidRegex => "regexp is not a valid regular expression"@,
        TaskProblem::DuplicateName => "task name is used more than once"@,
    }
}

/// What an agent problem says.
pub open spec fn agent_problem_text(p: AgentProblem) -> Seq<char> {
    match p {
        AgentProblem::EmptyAgentId => "agent_id must not be empty"@,
        AgentProblem::InvalidServerUrl => "central_server_url must start with http:// or https://"@,
        AgentProblem::EmptyApiKey => "api_key must not be empty"@,
    }
}

impl ConfigError {
    /// The message of the refusal.
    pub fn message(&self) -> (m: String)
        ensures
            m@ == match *self {
                ConfigError::Agent(p) => agent_problem_text(p),
                ConfigError::Tasks(e) => "task '"@ + e.task@ + "': "@ + task_problem_text(e.problem),
            },
    {
        match self {
            ConfigError::Agent(p) => String::from_str(match p {
                AgentProblem::EmptyAgentId => "agent_id must not be empty",
                AgentProblem::InvalidServerUrl => "central_server_url must start with http:// or https://",
                AgentProblem::EmptyApiKey => "api_key must not be empty",
            }),
            ConfigError::Tasks(e) => {
                let mut m = String::from_str("task '");
                m.append(e.task.as_str());
                m.append("': ");
                match e.problem {
                    TaskProblem::EmptyParameter(q) => {
                        m.append(match q {
                            Parameter::Host => "host",
                            Parameter::Url => "url",
                            Parameter::Regexp => "regexp",
                            Parameter::Server => "server",
                            Parameter::Domain => "domain",
                            Parameter::ServerUrl => "server_url",
                        });
                        m.append(" must not be empty");
                    },
                    TaskProblem::EmptyName => m.append("task name must not be empty"),
                    TaskProblem::ZeroSchedule => m.append("schedule_seconds must be greater than 0"),
                    TaskProblem::TypeMismatch => m.append("parameters do not match the task type"),
                    TaskProblem::BandwidthScheduleTooShort => m.append(
                        "bandwidth tasks need schedule_seconds of at least 60",
                    ),
                    TaskProblem::InvalidUrl => m.append("URL must start with http:// or https://"),
                    TaskProblem::InvalidRegex => m.append("regexp is not a valid regular expression"),
                    TaskProblem::DuplicateName => m.append("task name is used more than once"),
                }
                m
            },
        }
    }
}

/// Checks a whole configuration: the settings, then the tasks. It is
/// accepted exactly when both are valid.
pub fn validate_config(agent: &AgentConfig, tasks: &TasksConfig) -> (r: Result<(), ConfigError>)
    ensures
        (r is Ok) == (agent_problem(agent@) is None && tasks_valid(tasks.tasks@)),
        match agent_problem(agent@) {
            Some(p) => r == Err::<(), ConfigError>(ConfigError::Agent(p)),
            None => r is Err ==> (r matches Err(ConfigError::Tasks(e)) && exists|i: int|
                0 <= i < tasks.tasks@.len() && (#[trigger] tasks.tasks@[i]).name@ == e.task@
                    && reported_problem(tasks.tasks@, i, e.problem)),
        },
{
    match agent.validate() {
        Err(p) => Err(ConfigError::Agent(p)),
        Ok(()) => match tasks.validate() {
            Ok(()) => Ok(()),
            Err(e) => Err(ConfigError::Tasks(e)),
        },
    }
}

} // verus!
