//! The send queue for aggregated metrics: statuses, metric kinds, retry
//! policy with exponential backoff, and queue statistics.
use vstd::prelude::*;

use crate::text::{chars_eq, chars_of, string_from_chars};
use vstd::arithmetic::power2::{lemma2_to64, lemma_pow2_strictly_increases, pow2};

verus! {

/// Status of a metric in the send queue.
#[derive(Debug, Clone, Copy, PartialEq, Eq, Structural)]
pub enum QueueStatus {
    /// Ready to send
    Pending,
    /// Currently being sent (prevents duplicate sends)
    Sending,
    /// Successfully sent
    Sent,
    /// Permanently failed after max retries
    Failed,
}

/// The text under which a status is stored.
pub open spec fn status_text(s: QueueStatus) -> Seq<char> {
    match s {
        QueueStatus::Pending => seq!['p', 'e', 'n', 'd', 'i', 'n', 'g'],
        QueueStatus::Sending => seq!['s', 'e', 'n', 'd', 'i', 'n', 'g'],
        QueueStatus::Sent => seq!['s', 'e', 'n', 't'],
        QueueStatus::Failed => seq!['f', 'a', 'i', 'l', 'e', 'd'],
    }
}

/// The status stored under a text, if any.
pub open spec fn status_from_text(t: Seq<char>) -> Option<QueueStatus> {
    if t == status_text(QueueStatus::Pending) {
        Some(QueueStatus::Pending)
    } else if t == status_text(QueueStatus::Sending) {
        Some(QueueStatus::Sending)
    } else if t == status_text(QueueStatus::Sent) {
        Some(QueueStatus::Sent)
    } else if t == status_text(QueueStatus::Failed) {
        Some(QueueStatus::Failed)
    } else {
        None
    }
}

/// Errors of the queue's text conversions.
#[derive(Debug, Clone, PartialEq, Eq)]
pub enum QueueError {
    /// The text names no queue status.
    InvalidStatus(String),
    /// The text names no metric type.
    UnknownMetricType(String),
}

impl QueueError {
    /// The error's message.
    pub fn message(&self) -> (m: String)
        ensures
            m@ == match *self {
                QueueError::InvalidStatus(t) => "Invalid queue status: "@ + t@,
                QueueError::UnknownMetricType(t) => "Unknown metric type: "@ + t@,
            },
    {
        match self {
            QueueError::InvalidStatus(t) => {
                let mut m = String::from_str("Invalid queue status: ");
                m.append(t.as_str());
                m
            },
            QueueError::UnknownMetricType(t) => {
                let mut m = String::from_str("Unknown metric type: ");
                m.append(t.as_str());
                m
            },
        }
    }
}

impl QueueStatus {
    /// The text stored in the queue table for this status.
    pub fn as_str(&self) -> (s: &'static str)
        ensures
            s@ == status_text(*self),
    {
        proof {
            reveal_strlit("pending");
            reveal_strlit("sending");
            reveal_strlit("sent");
            reveal_strlit("failed");
        }
        match self {
            QueueStatus::Pending => "pending",
            QueueStatus::Sending => "sending",
            QueueStatus::Sent => "sent",
            QueueStatus::Failed => "failed",
        }
    }

    /// Reads a status from its stored text.
    pub fn from_str(s: &str) -> (r: Result<QueueStatus, QueueError>)
        ensures
            match status_from_text(s@) {
                Some(st) => r == Ok::<QueueStatus, QueueError>(st),
                None => r matches Err(QueueError::InvalidStatus(t)) && t@ == s@,
            },
    {
        let c = chars_of(s);
        let p = chars_of(QueueStatus::Pending.as_str());
        let sd = chars_of(QueueStatus::Sending.as_str());
        let st = chars_of(QueueStatus::Sent.as_str());
        let f = chars_of(QueueStatus::Failed.as_str());
        if chars_eq(&c, &p) {
            Ok(QueueStatus::Pending)
        } else if chars_eq(&c, &sd) {
            Ok(QueueStatus::Sending)
        } else if chars_eq(&c, &st) {
            Ok(QueueStatus::Sent)
        } else if chars_eq(&c, &f) {
            Ok(QueueStatus::Failed)
        } else {
            Err(QueueError::InvalidStatus(string_from_chars(&c)))
        }
    }
}

/// Reading back the text of a status gives the status.
pub proof fn lemma_status_text_roundtrip(s: QueueStatus)
    ensures
        status_from_text(status_text(s)) == Some(s),
{
    assert(status_text(QueueStatus::Pending) != status_text(QueueStatus::Sending)) by {
        assert(status_text(QueueStatus::Pending)[0] != status_text(QueueStatus::Sending)[0]);
    }
    assert(status_text(QueueStatus::Pending) != status_text(QueueStatus::Sent));
    assert(status_text(QueueStatus::Pending) != status_text(QueueStatus::Failed));
    assert(status_text(QueueStatus::Sending) != status_text(QueueStatus::Sent));
    assert(status_text(QueueStatus::Sending) != status_text(QueueStatus::Failed)) by {
        assert(status_text(QueueStatus::Sending)[0] != status_text(QueueStatus::Failed)[0]);
    }
    assert(status_text(QueueStatus::Sent) != status_text(QueueStatus::Failed));
}

/// The kind of an aggregated metric, which selects the table it is stored in.
#[derive(Debug, Clone, Copy, PartialEq, Eq, Structural)]
pub enum MetricKind {
    Ping,
    Tcp,
    Http,
    Tls,
    HttpContent,
    Dns,
    Bandwidth,
    SqlQuery,
}

/// The name under which a metric kind is recorded in the send queue.
pub open spec fn kind_name(k: MetricKind) -> Seq<char> {
    match k {
        MetricKind::Ping => seq!['p', 'i', 'n', 'g'],
        MetricKind::Tcp => seq!['t', 'c', 'p'],
        MetricKind::Http => seq!['h', 't', 't', 'p'],
        MetricKind::Tls => seq!['t', 'l', 's'],
        MetricKind::HttpContent => seq!['h', 't', 't', 'p', '_', 'c', 'o', 'n', 't', 'e', 'n', 't'],
        MetricKind::Dns => seq!['d', 'n', 's'],
        MetricKind::Bandwidth => seq!['b', 'a', 'n', 'd', 'w', 'i', 'd', 't', 'h'],
        MetricKind::SqlQuery => seq!['s', 'q', 'l', '_', 'q', 'u', 'e', 'r', 'y'],
    }
}

/// The metric kind recorded under a name, if any.
pub open spec fn kind_from_name(t: Seq<char>) -> Option<MetricKind> {
    if t == kind_name(MetricKind::Ping) {
        Some(MetricKind::Ping)
    } else if t == kind_name(MetricKind::Tcp) {
        Some(MetricKind::Tcp)
    } else if t == kind_name(MetricKind::Http) {
        Some(MetricKind::Http)
    } else if t == kind_name(MetricKind::Tls) {
        Some(MetricKind::Tls)
    } else if t == kind_name(MetricKind::HttpContent) {
        Some(MetricKind::HttpContent)
    } else if t == kind_name(MetricKind::Dns) {
        Some(MetricKind::Dns)
    } else if t == kind_name(MetricKind::Bandwidth) {
        Some(MetricKind::Bandwidth)
    } else if t == kind_name(MetricKind::SqlQuery) {
        Some(MetricKind::SqlQuery)
    } else {
        None
    }
}

impl MetricKind {
    /// The name recorded in the send queue for this kind.
    pub fn name(&self) -> (s: &'static str)
        ensures
            s@ == kind_name(*self),
    {
        proof {
            reveal_strlit("ping");
            reveal_strlit("tcp");
            reveal_strlit("http");
            reveal_strlit("tls");
            reveal_strlit("http_content");
            reveal_strlit("dns");
            reveal_strlit("bandwidth");
            reveal_strlit("sql_query");
        }
        match self {
            MetricKind::Ping => "ping",
            MetricKind::Tcp => "tcp",
            MetricKind::Http => "http",
            MetricKind::Tls => "tls",
            MetricKind::HttpContent => "http_content",
            MetricKind::Dns => "dns",
            MetricKind::Bandwidth => "bandwidth",
            MetricKind::SqlQuery => "sql_query",
        }
    }

    /// The kind recorded under a name; an unknown name is an error.
    pub fn from_name(s: &str) -> (r: Result<MetricKind, QueueError>)
        ensures
            match kind_from_name(s@) {
                Some(k) => r == Ok::<MetricKind, QueueError>(k),
                None => (r matches Err(QueueError::UnknownMetricType(t)) && t@ == s@),
            },
    {
        let c = chars_of(s);
        let all = [
            MetricKind::Ping,
            MetricKind::Tcp,
            MetricKind::Http,
            MetricKind::Tls,
            MetricKind::HttpContent,
            MetricKind::Dns,
            MetricKind::Bandwidth,
            MetricKind::SqlQuery,
        ];
        let mut i: usize = 0;
        while i < 8
            invariant
                0 <= i <= 8,
                c@ == s@,
                all@ == seq![
                    MetricKind::Ping,
                    MetricKind::Tcp,
                    MetricKind::Http,
                    MetricKind::Tls,
                    MetricKind::HttpContent,
                    MetricKind::Dns,
                    MetricKind::Bandwidth,
                    MetricKind::SqlQuery,
                ],
                forall|j: int| 0 <= j < i ==> kind_name(#[trigger] all@[j]) != s@,
            decreases 8 - i,
        {
            let k = all[i];
            let n = chars_of(k.name());
            if chars_eq(&c, &n) {
                return Ok(k);
            }
            i = i + 1;
        }
        assert(kind_from_name(s@) is None) by {
            assert(kind_name(all@[0]) != s@);
            assert(kind_name(all@[1]) != s@);
            assert(kind_name(all@[2]) != s@);
            assert(kind_name(all@[3]) != s@);
            assert(kind_name(all@[4]) != s@);
            assert(kind_name(all@[5]) != s@);
            assert(kind_name(all@[6]) != s@);
            assert(kind_name(all@[7]) != s@);
        }
        Err(QueueError::UnknownMetricType(string_from_chars(&c)))
    }
}

/// Reading back the name of a metric kind gives the kind.
pub proof fn lemma_kind_name_roundtrip(k: MetricKind)
    ensures
        kind_from_name(kind_name(k)) == Some(k),
{
    // each name differs from the names tested before it in length or in a character
    match k {
        MetricKind::Ping => {

        },
        MetricKind::Tcp => {
            assert(kind_name(MetricKind::Tcp).len() != kind_name(MetricKind::Ping).len());
        },
        MetricKind::Http => {
            assert(kind_name(MetricKind::Http)[0] != kind_name(MetricKind::Ping)[0]);
            assert(kind_name(MetricKind::Http).len() != kind_name(MetricKind::Tcp).len());
        },
        MetricKind::Tls => {
            assert(kind_name(MetricKind::Tls).len() != kind_name(MetricKind::Ping).len());
            assert(kind_name(MetricKind::Tls)[1] != kind_name(MetricKind::Tcp)[1]);
            assert(kind_name(MetricKind::Tls).len() != kind_name(MetricKind::Http).len());
        },
        MetricKind::HttpContent => {
            assert(kind_name(MetricKind::HttpContent).len() != kind_name(MetricKind::Ping).len());
            assert(kind_name(MetricKind::HttpContent).len() != kind_name(MetricKind::Tcp).len());
            assert(kind_name(MetricKind::HttpContent).len() != kind_name(MetricKind::Http).len());
            assert(kind_name(MetricKind::HttpContent).len() != kind_name(MetricKind::Tls).len());
        },
        MetricKind::Dns => {
            assert(kind_name(MetricKind::Dns).len() != kind_name(MetricKind::Ping).len());
            assert(kind_name(MetricKind::Dns)[0] != kind_name(MetricKind::Tcp)[0]);
            assert(kind_name(MetricKind::Dns).len() != kind_name(MetricKind::Http).len());
            assert(kind_name(MetricKind::Dns)[0] != kind_name(MetricKind::Tls)[0]);
            assert(kind_name(MetricKind::Dns).len() != kind_name(MetricKind::HttpContent).len());
        },
        MetricKind::Bandwidth => {
            assert(kind_name(MetricKind::Bandwidth).len() != kind_name(MetricKind::Ping).len());
            assert(kind_name(MetricKind::Bandwidth).len() != kind_name(MetricKind::Tcp).len());
            assert(kind_name(MetricKind::Bandwidth).len() != kind_name(MetricKind::Http).len());
            assert(kind_name(MetricKind::Bandwidth).len() != kind_name(MetricKind::Tls).len());
            assert(kind_name(MetricKind::Bandwidth).len() != kind_name(MetricKind::HttpContent).len());
            assert(kind_name(MetricKind::Bandwidth).len() != kind_name(MetricKind::Dns).len());
        },
        MetricKind::SqlQuery => {
            assert(kind_name(MetricKind::SqlQuery).len() != kind_name(MetricKind::Ping).len());
            assert(kind_name(MetricKind::SqlQuery).len() != kind_name(MetricKind::Tcp).len());
            assert(kind_name(MetricKind::SqlQuery).len() != kind_name(MetricKind::Http).len());
            assert(kind_name(MetricKind::SqlQuery).len() != kind_name(MetricKind::Tls).len());
            assert(kind_name(MetricKind::SqlQuery).len() != kind_name(MetricKind::HttpContent).len());
            assert(kind_name(MetricKind::SqlQuery).len() != kind_name(MetricKind::Dns).len());
            assert(kind_name(MetricKind::SqlQuery)[0] != kind_name(MetricKind::Bandwidth)[0]);
        },
    }
}

/// Where the send queue puts an entry after a failed send.
#[derive(Debug, Clone, Copy, PartialEq, Eq, Structural)]
pub struct RetryDecision {
    /// `Pending` to be retried later, `Failed` once the retries are spent.
    pub status: QueueStatus,
    /// The entry's retry count after this failure.
    pub retry_count: i32,
    /// When the entry may be sent again (pending entries only).
    pub next_retry_at: Option<u64>,
}

/// Minutes to wait before the `n`-th retry: `2^n`, at most an hour.
pub open spec fn backoff_minutes(n: nat) -> nat {
    if pow2(n) < 60 {
        pow2(n)
    } else {
        60
    }
}

/// `2^n` minutes, capped at an hour, computed without overflow.
fn backoff_minutes_exec(n: u32) -> (m: u64)
    requires
        n <= 30,
    ensures
        m == backoff_minutes(n as nat),
{
    proof {
        lemma2_to64();
    }
    if n >= 6 {
        proof {
            if n > 6 {
                lemma_pow2_strictly_increases(6, n as nat);
            }
        }
        60
    } else if n == 0 {
        1
    } else if n == 1 {
        2
    } else if n == 2 {
        4
    } else if n == 3 {
        8
    } else if n == 4 {
        16
    } else {
        32
    }
}

/// The queue's reaction to a failed send: the retry count goes up by one;
/// once it reaches `max_retries` the entry fails for good, else it is pending
/// again after `backoff_minutes` of the new count.
pub fn failure_transition(retry_count: i32, max_retries: i32, now: u64) -> (d: RetryDecision)
    requires
        retry_count < i32::MAX,
        retry_count + 1 < max_retries ==> 0 <= retry_count + 1 <= 30,
        retry_count + 1 < max_retries ==> now + 60 * 60 <= u64::MAX,
    ensures
        d.retry_count == retry_count + 1,
        retry_count + 1 >= max_retries ==> d.status == QueueStatus::Failed && d.next_retry_at
            is None,
        retry_count + 1 < max_retries ==> d.status == QueueStatus::Pending && d.next_retry_at
            == Some((now + 60 * backoff_minutes((retry_count + 1) as nat)) as u64),
{
    let new_count = retry_count + 1;
    if new_count >= max_retries {
        RetryDecision { status: QueueStatus::Failed, retry_count: new_count, next_retry_at: None }
    } else {
        let minutes = backoff_minutes_exec(new_count as u32);
        RetryDecision {
            status: QueueStatus::Pending,
            retry_count: new_count,
            next_retry_at: Some(now + minutes * 60),
        }
    }
}

/// The backoff never exceeds an hour and never shrinks as retries accumulate.
pub proof fn lemma_backoff_bounded_and_monotone(n: nat, m: nat)
    requires
        n <= m,
    ensures
        1 <= backoff_minutes(n) <= 60,
        backoff_minutes(n) <= backoff_minutes(m),
{
    vstd::arithmetic::power2::lemma_pow2_pos(n);
    if n < m {
        lemma_pow2_strictly_increases(n, m);
    }
}

/// The cutoff before which sent entries are cleaned up: `older_than_hours`
/// before `now`.
pub fn cleanup_cutoff(now: u64, older_than_hours: i64) -> (c: u64)
    requires
        0 <= older_than_hours,
        older_than_hours * 3600 <= now,
    ensures
        c == now - older_than_hours * 3600,
{
    now - (older_than_hours as u64) * 3600
}

/// An entry of the send queue.
#[derive(Debug, Clone, PartialEq, Eq)]
pub struct QueueEntry {
    pub id: i64,
    pub metric_type: String,
    pub metric_row_id: i64,
    pub task_name: String,
    pub period_start: u64,
    pub period_end: u64,
    pub retry_count: i32,
}

/// Number of queue entries in each status.
#[derive(Debug, Clone, Copy, PartialEq, Eq, Structural)]
pub struct QueueStats {
    pub pending: i64,
    pub sending: i64,
    pub sent: i64,
    pub failed: i64,
}

impl Default for QueueStats {
    fn default() -> (s: QueueStats)
        ensures
            s == (QueueStats { pending: 0, sending: 0, sent: 0, failed: 0 }),
    {
        QueueStats { pending: 0, sending: 0, sent: 0, failed: 0 }
    }
}

/// The statistics read from `(status, count)` rows: each known status takes
/// the count of its last row, other rows are ignored, absent statuses are 0.
pub open spec fn stats_of(rows: Seq<(Seq<char>, i64)>) -> QueueStats
    decreases rows.len(),
{
    if rows.len() == 0 {
        QueueStats { pending: 0, sending: 0, sent: 0, failed: 0 }
    } else {
        let s = stats_of(rows.drop_last());
        let row = rows.last();
        match status_from_text(row.0) {
            Some(QueueStatus::Pending) => QueueStats { pending: row.1, ..s },
            Some(QueueStatus::Sending) => QueueStats { sending: row.1, ..s },
            Some(QueueStatus::Sent) => QueueStats { sent: row.1, ..s },
            Some(QueueStatus::Failed) => QueueStats { failed: row.1, ..s },
            None => s,
        }
    }
}

/// The count that statistics give for a status.
pub open spec fn count_of(s: QueueStats, st: QueueStatus) -> i64 {
    match st {
        QueueStatus::Pending => s.pending,
        QueueStatus::Sending => s.sending,
        QueueStatus::Sent => s.sent,
        QueueStatus::Failed => s.failed,
    }
}

/// Without rows every status counts 0. A row for a status sets that
/// status's count to the row's count and leaves the other statuses as they
/// were; a row whose text names no status changes nothing.
pub proof fn lemma_row_sets_its_status(
    rows: Seq<(Seq<char>, i64)>,
    st: QueueStatus,
    n: i64,
    other: QueueStatus,
    unknown: Seq<char>,
)
    ensures
        count_of(stats_of(Seq::empty()), st) == 0,
        count_of(stats_of(rows.push((status_text(st), n))), st) == n,
        other != st ==> count_of(stats_of(rows.push((status_text(st), n))), other) == count_of(
            stats_of(rows),
            other,
        ),
        status_from_text(unknown) is None ==> stats_of(rows.push((unknown, n))) == stats_of(rows),
{
    let r = rows.push((status_text(st), n));
    assert(r.drop_last() =~= rows);
    assert(rows.push((unknown, n)).drop_last() =~= rows);
    lemma_status_text_roundtrip(st);
}

/// The rows' texts as character sequences.
pub open spec fn rows_view(rows: Seq<(String, i64)>) -> Seq<(Seq<char>, i64)> {
    rows.map_values(|r: (String, i64)| (r.0@, r.1))
}

/// Counts per status from the rows of a `GROUP BY status` query.
pub fn stats_from_rows(rows: &Vec<(String, i64)>) -> (s: QueueStats)
    ensures
        s == stats_of(rows_view(rows@)),
{
    let mut stats = QueueStats::default();
    let mut i: usize = 0;
    while i < rows.len()
        invariant
            0 <= i <= rows.len(),
            stats == stats_of(rows_view(rows@).take(i as int)),
        decreases rows.len() - i,
    {
        let ghost pre = rows_view(rows@).take(i as int);
        let ghost next = rows_view(rows@).take(i + 1);
        assert(next.drop_last() =~= pre);
        let status = QueueStatus::from_str(rows[i].0.as_str());
        let count = rows[i].1;
        match status {
            Ok(QueueStatus::Pending) => stats.pending = count,
            Ok(QueueStatus::Sending) => stats.sending = count,
            Ok(QueueStatus::Sent) => stats.sent = count,
            Ok(QueueStatus::Failed) => stats.failed = count,
            Err(_) => {},
        }
        i = i + 1;
    }
    assert(rows_view(rows@).take(rows@.len() as int) =~= rows_view(rows@));
    stats
}

/// The time before which stored data is deleted: `retention_days` days
/// before `now`.
pub fn retention_cutoff(now: u64, retention_days: u32) -> (c: i64)
    requires
        retention_days * 86400 <= now,
    ensures
        c == (now - retention_days * 86400) as i64,
{
    (now - (retention_days as u64) * 86400) as i64
}

} // verus!
