//! The scheduler's decisions: which task may start (a task never overlaps
//! with its own previous run), how finished results are buffered, and when
//! the buffer is flushed, the last minute aggregated and the send queue
//! cleaned. Timers, channels and the database stay with the caller, which
//! reports events and carries out what is decided here.
use vstd::prelude::*;

use crate::agent::{elapsed, interval_elapsed};
use crate::text::str_eq;

verus! {

broadcast use vstd::string::group_string_axioms;

/// Results buffered before a flush is forced.
pub const MAX_METRICS_BUFFER_SIZE: usize = 10000;

/// Hours after which sent queue entries are cleaned up.
pub const SENT_QUEUE_RETENTION_HOURS: i64 = 24;

/// The scheduler's lifecycle state.
#[derive(Debug, Clone, Copy, PartialEq, Eq, Structural)]
pub enum SchedulerState {
    Stopped,
    Running,
}

/// A scheduled task and whether a run of it is in flight.
#[derive(Debug)]
pub struct TaskSlot {
    pub name: String,
    pub is_running: bool,
}

/// What a ready notification for a task leads to.
#[derive(Debug, Clone, Copy, PartialEq, Eq, Structural)]
pub enum RunDecision {
    /// Start a run: the task was idle and is now running.
    Start,
    /// Skip: the previous run has not finished (an overrun).
    Skip,
    /// No task of that name is scheduled.
    Unknown,
}

/// The scheduled tasks by name, with whether each is running.
pub open spec fn slots_view(s: Seq<TaskSlot>) -> Map<Seq<char>, bool>
    decreases s.len(),
{
    if s.len() == 0 {
        Map::empty()
    } else {
        slots_view(s.drop_last()).insert(s.last().name@, s.last().is_running)
    }
}

/// No two slots share a name.
pub open spec fn distinct_names(s: Seq<TaskSlot>) -> bool {
    forall|i: int, j: int|
        0 <= i < s.len() && 0 <= j < s.len() && i != j ==> #[trigger] s[i].name@ != #[trigger] s[j].name@
}

/// The decision for a ready notification of task `n`.
pub open spec fn begin_decision(m: Map<Seq<char>, bool>, n: Seq<char>) -> RunDecision {
    if !m.contains_key(n) {
        RunDecision::Unknown
    } else if m[n] {
        RunDecision::Skip
    } else {
        RunDecision::Start
    }
}

/// The tasks after a ready notification of task `n`.
pub open spec fn after_begin(m: Map<Seq<char>, bool>, n: Seq<char>) -> Map<Seq<char>, bool> {
    if begin_decision(m, n) == RunDecision::Start {
        m.insert(n, true)
    } else {
        m
    }
}

/// The tasks after a result of task `n` came back.
pub open spec fn after_finish(m: Map<Seq<char>, bool>, n: Seq<char>) -> Map<Seq<char>, bool> {
    if m.contains_key(n) {
        m.insert(n, false)
    } else {
        m
    }
}

proof fn lemma_slots_view_lookup(s: Seq<TaskSlot>, i: int)
    requires
        distinct_names(s),
        0 <= i < s.len(),
    ensures
        slots_view(s).contains_key(s[i].name@),
        slots_view(s)[s[i].name@] == s[i].is_running,
    decreases s.len(),
{
    if i < s.len() - 1 {
        let d = s.drop_last();
        assert(distinct_names(d)) by {
            assert forall|a: int, b: int|
                0 <= a < d.len() && 0 <= b < d.len() && a != b implies #[trigger] d[a].name@
                != #[trigger] d[b].name@ by {
                assert(d[a] == s[a] && d[b] == s[b]);
            }
        }
        assert(d[i] == s[i]);
        lemma_slots_view_lookup(d, i);
        assert(s.last() == s[s.len() - 1]);
        assert(s[i].name@ != s[s.len() - 1].name@);
    }
}

proof fn lemma_slots_view_keys(s: Seq<TaskSlot>, k: Seq<char>)
    ensures
        slots_view(s).contains_key(k) <==> exists|i: int| 0 <= i < s.len() && #[trigger] s[i].name@ == k,
    decreases s.len(),
{
    if s.len() > 0 {
        let d = s.drop_last();
        lemma_slots_view_keys(d, k);
        if slots_view(s).contains_key(k) {
            if k == s.last().name@ {
                assert(s[s.len() - 1].name@ == k);
            } else {
                let i = choose|i: int| 0 <= i < d.len() && #[trigger] d[i].name@ == k;
                assert(s[i] == d[i]);
            }
        }
        if exists|i: int| 0 <= i < s.len() && #[trigger] s[i].name@ == k {
            let i = choose|i: int| 0 <= i < s.len() && #[trigger] s[i].name@ == k;
            if i < s.len() - 1 {
                assert(d[i] == s[i]);
            }
        }
    }
}

proof fn lemma_slots_view_set(s: Seq<TaskSlot>, i: int, slot: TaskSlot)
    requires
        distinct_names(s),
        0 <= i < s.len(),
        slot.name@ == s[i].name@,
    ensures
        slots_view(s.update(i, slot)) =~= slots_view(s).insert(s[i].name@, slot.is_running),
        distinct_names(s.update(i, slot)),
    decreases s.len(),
{
    let u = s.update(i, slot);
    assert(distinct_names(u)) by {
        assert forall|a: int, b: int|
            0 <= a < u.len() && 0 <= b < u.len() && a != b implies #[trigger] u[a].name@
            != #[trigger] u[b].name@ by {
            assert(u[a].name@ == s[a].name@);
            assert(u[b].name@ == s[b].name@);
        }
    }
    let d = s.drop_last();
    assert(distinct_names(d)) by {
        assert forall|a: int, b: int|
            0 <= a < d.len() && 0 <= b < d.len() && a != b implies #[trigger] d[a].name@
            != #[trigger] d[b].name@ by {
            assert(d[a] == s[a] && d[b] == s[b]);
        }
    }
    if i == s.len() - 1 {
        assert(u.drop_last() =~= d);
    } else {
        assert(u.drop_last() =~= d.update(i, slot));
        assert(d[i] == s[i]);
        lemma_slots_view_set(d, i, slot);
        assert(s[i].name@ != s[s.len() - 1].name@);
        assert(u.last() == s.last());
    }
}

/// The scheduler's bookkeeping; `M` is the type of a task's metric.
pub struct TaskScheduler<M> {
    /// Whether the scheduler is running.
    pub state: SchedulerState,
    /// The scheduled tasks.
    pub slots: Vec<TaskSlot>,
    /// The minute (as a Unix timestamp) up to which metrics are aggregated.
    pub last_aggregation: u64,
    /// Results waiting to be written to the database.
    pub metrics_buffer: Vec<M>,
    /// When the buffer was last written.
    pub last_db_write: u64,
    /// Seconds between timed flushes of the buffer.
    pub flush_interval_seconds: u64,
    /// Buffer size at which a flush is forced.
    pub max_metrics_buffer_size: usize,
    /// Longest wait for in-flight runs when stopping.
    pub graceful_shutdown_timeout_secs: u64,
    /// Capacity of the result and ready channels.
    pub channel_buffer_size: usize,
    /// When sent queue entries were last cleaned up.
    pub last_queue_cleanup: u64,
    /// Seconds between cleanups of sent queue entries.
    pub queue_cleanup_interval_seconds: u64,
}

impl<M> TaskScheduler<M> {
    /// The scheduled tasks and whether each is running.
    pub open spec fn tasks(&self) -> Map<Seq<char>, bool> {
        slots_view(self.slots@)
    }

    /// The bookkeeping is consistent: task names are unique.
    pub open spec fn wf(&self) -> bool {
        distinct_names(self.slots@)
    }

    /// A stopped scheduler with no tasks and an empty buffer.
    pub fn new(
        flush_interval_seconds: u32,
        graceful_shutdown_timeout_secs: u64,
        channel_buffer_size: usize,
        queue_cleanup_interval_seconds: u64,
    ) -> (s: TaskScheduler<M>)
        ensures
            s.wf(),
            s.tasks() == Map::<Seq<char>, bool>::empty(),
            s.state == SchedulerState::Stopped,
            s.last_aggregation == 0,
            s.metrics_buffer@.len() == 0,
            s.last_db_write == 0,
            s.flush_interval_seconds == flush_interval_seconds as u64,
            s.max_metrics_buffer_size == MAX_METRICS_BUFFER_SIZE,
            s.graceful_shutdown_timeout_secs == graceful_shutdown_timeout_secs,
            s.channel_buffer_size == channel_buffer_size,
            s.last_queue_cleanup == 0,
            s.queue_cleanup_interval_seconds == queue_cleanup_interval_seconds,
    {
        let s = TaskScheduler {
            state: SchedulerState::Stopped,
            slots: Vec::new(),
            last_aggregation: 0,
            metrics_buffer: Vec::new(),
            last_db_write: 0,
            flush_interval_seconds: flush_interval_seconds as u64,
            max_metrics_buffer_size: MAX_METRICS_BUFFER_SIZE,
            graceful_shutdown_timeout_secs,
            channel_buffer_size,
            last_queue_cleanup: 0,
            queue_cleanup_interval_seconds,
        };
        assert(s.slots@ =~= Seq::<TaskSlot>::empty());
        s
    }

    fn find(&self, name: &str) -> (r: Option<usize>)
        requires
            self.wf(),
        ensures
            match r {
                Some(i) => i < self.slots@.len() && self.slots@[i as int].name@ == name@,
                None => forall|i: int|
                    0 <= i < self.slots@.len() ==> #[trigger] self.slots@[i].name@ != name@,
            },
    {
        let mut i: usize = 0;
        while i < self.slots.len()
            invariant
                0 <= i <= self.slots@.len(),
                forall|j: int| 0 <= j < i ==> #[trigger] self.slots@[j].name@ != name@,
            decreases self.slots@.len() - i,
        {
            if str_eq(self.slots[i].name.as_str(), name) {
                return Some(i);
            }
            i = i + 1;
        }
        None
    }

    /// Schedules a task, idle; a task of the same name is replaced.
    pub fn add_task(&mut self, name: String)
        requires
            old(self).wf(),
        ensures
            final(self).wf(),
            final(self).tasks() == old(self).tasks().insert(name@, false),
            final(self).state == old(self).state,
            final(self).metrics_buffer == old(self).metrics_buffer,
    {
        match self.find(name.as_str()) {
            Some(i) => {
                proof {
                    lemma_slots_view_set(self.slots@, i as int, TaskSlot { name, is_running: false });
                }
                self.slots.set(i, TaskSlot { name, is_running: false });
            },
            None => {
                let ghost before = self.slots@;
                let ghost n = name@;
                self.slots.push(TaskSlot { name, is_running: false });
                proof {
                    assert(self.slots@.drop_last() =~= before);
                    assert(distinct_names(self.slots@)) by {
                        assert forall|a: int, b: int|
                            0 <= a < self.slots@.len() && 0 <= b < self.slots@.len() && a != b implies #[trigger] self.slots@[a].name@
                            != #[trigger] self.slots@[b].name@ by {
                            if a < before.len() && b < before.len() {
                                assert(self.slots@[a] == before[a]);
                                assert(self.slots@[b] == before[b]);
                            } else if a < before.len() {
                                assert(self.slots@[a] == before[a]);
                            } else {
                                assert(self.slots@[b] == before[b]);
                            }
                        }
                    }
                }
            },
        }
    }

    /// Handles a ready notification for a task: a running task is skipped,
    /// an idle one is started and marked running.
    pub fn begin_run(&mut self, name: &str) -> (d: RunDecision)
        requires
            old(self).wf(),
        ensures
            final(self).wf(),
            d == begin_decision(old(self).tasks(), name@),
            final(self).tasks() == after_begin(old(self).tasks(), name@),
            final(self).state == old(self).state,
            final(self).metrics_buffer == old(self).metrics_buffer,
    {
        proof {
            lemma_slots_view_keys(self.slots@, name@);
        }
        match self.find(name) {
            None => RunDecision::Unknown,
            Some(i) => {
                proof {
                    lemma_slots_view_lookup(self.slots@, i as int);
                }
                if self.slots[i].is_running {
                    RunDecision::Skip
                } else {
                    let n = self.slots[i].name.clone();
                    proof {
                        lemma_slots_view_set(self.slots@, i as int, TaskSlot { name: n, is_running: true });
                    }
                    self.slots.set(i, TaskSlot { name: n, is_running: true });
                    RunDecision::Start
                }
            },
        }
    }

    /// Records that a run of a task finished; the task is idle again.
    pub fn finish_run(&mut self, name: &str)
        requires
            old(self).wf(),
        ensures
            final(self).wf(),
            final(self).tasks() == after_finish(old(self).tasks(), name@),
            final(self).state == old(self).state,
            final(self).metrics_buffer == old(self).metrics_buffer,
    {
        proof {
            lemma_slots_view_keys(self.slots@, name@);
        }
        match self.find(name) {
            None => {},
            Some(i) => {
                let n = self.slots[i].name.clone();
                proof {
                    lemma_slots_view_set(self.slots@, i as int, TaskSlot { name: n, is_running: false });
                }
                self.slots.set(i, TaskSlot { name: n, is_running: false });
            },
        }
    }

    /// Whether some run is still in flight.
    pub fn has_in_flight(&self) -> (r: bool)
        requires
            self.wf(),
        ensures
            r == exists|k: Seq<char>| self.tasks().contains_key(k) && #[trigger] self.tasks()[k],
    {
        let mut i: usize = 0;
        while i < self.slots.len()
            invariant
                0 <= i <= self.slots@.len(),
                distinct_names(self.slots@),
                forall|j: int| 0 <= j < i ==> !(#[trigger] self.slots@[j]).is_running,
            decreases self.slots@.len() - i,
        {
            if self.slots[i].is_running {
                proof {
                    lemma_slots_view_lookup(self.slots@, i as int);
                    let k = self.slots@[i as int].name@;
                    assert(self.tasks().contains_key(k) && self.tasks()[k]);
                }
                return true;
            }
            i = i + 1;
        }
        proof {
            assert forall|k: Seq<char>| self.tasks().contains_key(k) implies !#[trigger] self.tasks()[k] by {
                lemma_slots_view_keys(self.slots@, k);
                let j = choose|j: int| 0 <= j < self.slots@.len() && #[trigger] self.slots@[j].name@ == k;
                lemma_slots_view_lookup(self.slots@, j);
                assert(!self.slots@[j].is_running);
            }
        }
        false
    }

    /// Number of scheduled tasks.
    pub fn task_count(&self) -> (n: usize)
        requires
            self.wf(),
        ensures
            n == self.tasks().dom().len(),
    {
        proof {
            lemma_slots_view_len(self.slots@);
        }
        self.slots.len()
    }

    /// Drops all tasks (their tickers are aborted by the caller).
    pub fn clear_tasks(&mut self)
        ensures
            final(self).wf(),
            final(self).tasks() == Map::<Seq<char>, bool>::empty(),
            final(self).state == old(self).state,
            final(self).metrics_buffer == old(self).metrics_buffer,
    {
        self.slots = Vec::new();
        assert(self.slots@ =~= Seq::<TaskSlot>::empty());
    }

    /// Marks the scheduler running, once its tasks are scheduled.
    pub fn mark_running(&mut self)
        ensures
            final(self).state == SchedulerState::Running,
            final(self).tasks() == old(self).tasks(),
            final(self).wf() == old(self).wf(),
            final(self).metrics_buffer == old(self).metrics_buffer,
    {
        self.state = SchedulerState::Running;
    }

    /// Marks the scheduler stopped; its main loop ends.
    pub fn mark_stopped(&mut self)
        ensures
            final(self).state == SchedulerState::Stopped,
            final(self).tasks() == old(self).tasks(),
            final(self).wf() == old(self).wf(),
            final(self).metrics_buffer == old(self).metrics_buffer,
    {
        self.state = SchedulerState::Stopped;
    }

    /// Seconds since the Unix epoch by the system clock.
    pub fn get_current_timestamp(&self) -> (t: u64) {
        crate::clock::current_timestamp()
    }

    /// Whether the scheduler is running.
    pub fn is_running(&self) -> (r: bool)
        ensures
            r == (self.state == SchedulerState::Running),
    {
        self.state == SchedulerState::Running
    }

    /// Buffers a result's metric; the answer tells whether the buffer is
    /// full and must be flushed now.
    pub fn buffer_metric(&mut self, metric: M) -> (flush_now: bool)
        requires
            old(self).metrics_buffer@.len() < usize::MAX,
        ensures
            final(self).metrics_buffer@ == old(self).metrics_buffer@.push(metric),
            flush_now == (final(self).metrics_buffer@.len() >= old(self).max_metrics_buffer_size),
            final(self).tasks() == old(self).tasks(),
            final(self).wf() == old(self).wf(),
            final(self).state == old(self).state,
            final(self).max_metrics_buffer_size == old(self).max_metrics_buffer_size,
            final(self).last_db_write == old(self).last_db_write,
    {
        self.metrics_buffer.push(metric);
        self.metrics_buffer.len() >= self.max_metrics_buffer_size
    }

    /// Takes the buffered metrics to be written; the buffer is left empty.
    pub fn take_buffer(&mut self) -> (taken: Vec<M>)
        ensures
            taken@ == old(self).metrics_buffer@,
            final(self).metrics_buffer@.len() == 0,
            final(self).tasks() == old(self).tasks(),
            final(self).wf() == old(self).wf(),
            final(self).state == old(self).state,
            final(self).max_metrics_buffer_size == old(self).max_metrics_buffer_size,
            final(self).last_db_write == old(self).last_db_write,
            final(self).last_aggregation == old(self).last_aggregation,
            final(self).last_queue_cleanup == old(self).last_queue_cleanup,
    {
        let mut taken: Vec<M> = Vec::new();
        std::mem::swap(&mut taken, &mut self.metrics_buffer);
        taken
    }

    /// Puts back metrics that a failed write left unwritten, ahead of those
    /// buffered since, so that the oldest stay first.
    pub fn restore_unwritten(&mut self, unwritten: Vec<M>)
        ensures
            final(self).metrics_buffer@ == unwritten@ + old(self).metrics_buffer@,
            final(self).tasks() == old(self).tasks(),
            final(self).wf() == old(self).wf(),
            final(self).state == old(self).state,
            final(self).max_metrics_buffer_size == old(self).max_metrics_buffer_size,
            final(self).last_db_write == old(self).last_db_write,
            final(self).last_aggregation == old(self).last_aggregation,
            final(self).last_queue_cleanup == old(self).last_queue_cleanup,
    {
        let mut front = unwritten;
        front.append(&mut self.metrics_buffer);
        self.metrics_buffer = front;
    }

    /// After a forced flush failed, keeps only the newest half of the
    /// buffer's capacity, dropping the oldest metrics.
    pub fn trim_after_failed_flush(&mut self)
        ensures
            ({
                let keep = old(self).max_metrics_buffer_size / 2;
                let b = old(self).metrics_buffer@;
                final(self).metrics_buffer@ == if b.len() > keep {
                    b.subrange(b.len() - keep, b.len() as int)
                } else {
                    b
                }
            }),
            final(self).tasks() == old(self).tasks(),
            final(self).wf() == old(self).wf(),
            final(self).state == old(self).state,
            final(self).max_metrics_buffer_size == old(self).max_metrics_buffer_size,
            final(self).last_db_write == old(self).last_db_write,
    {
        let keep = self.max_metrics_buffer_size / 2;
        let len = self.metrics_buffer.len();
        if len > keep {
            let mut old_buffer: Vec<M> = Vec::new();
            std::mem::swap(&mut old_buffer, &mut self.metrics_buffer);
            let ghost b = old_buffer@;
            let mut kept: Vec<M> = Vec::new();
            let mut rest = old_buffer.split_off(len - keep);
            assert(rest@ =~= b.subrange(len - keep, len as int));
            std::mem::swap(&mut kept, &mut rest);
            self.metrics_buffer = kept;
        }
    }

    /// Whether the buffer is written at `now`: once the flush interval has
    /// passed and something is buffered.
    pub fn flush_due(&self, now: u64) -> (r: bool)
        ensures
            r == (elapsed(now, self.last_db_write, self.flush_interval_seconds)
                && self.metrics_buffer@.len() > 0),
    {
        interval_elapsed(now, self.last_db_write, self.flush_interval_seconds)
            && self.metrics_buffer.len() > 0
    }

    /// Records that the buffer was written at `now`.
    pub fn record_flush(&mut self, now: u64)
        ensures
            final(self).last_db_write == now,
            final(self).metrics_buffer == old(self).metrics_buffer,
            final(self).tasks() == old(self).tasks(),
            final(self).wf() == old(self).wf(),
            final(self).state == old(self).state,
            final(self).last_aggregation == old(self).last_aggregation,
            final(self).max_metrics_buffer_size == old(self).max_metrics_buffer_size,
    {
        self.last_db_write = now;
    }

    /// The minute to aggregate at `now`: when `now` has reached a minute
    /// boundary past the last aggregation, the period `[minute - 60,
    /// minute)` (starting at 0 for the first minute), else nothing.
    pub fn aggregation_due(&self, now: u64) -> (r: Option<(u64, u64)>)
        ensures
            r == aggregation_period(self.last_aggregation, now),
    {
        let minute = now / 60 * 60;
        if minute > self.last_aggregation {
            let start = if minute >= 60 {
                minute - 60
            } else {
                0
            };
            Some((start, minute))
        } else {
            None
        }
    }

    /// Records that the period ending at `minute` was aggregated.
    pub fn record_aggregation(&mut self, minute: u64)
        ensures
            final(self).last_aggregation == minute,
            final(self).metrics_buffer == old(self).metrics_buffer,
            final(self).tasks() == old(self).tasks(),
            final(self).wf() == old(self).wf(),
            final(self).state == old(self).state,
            final(self).last_db_write == old(self).last_db_write,
    {
        self.last_aggregation = minute;
    }

    /// Whether sent queue entries are cleaned up at `now`; the time is
    /// recorded when they are.
    pub fn take_queue_cleanup(&mut self, now: u64) -> (due: bool)
        ensures
            due == elapsed(now, old(self).last_queue_cleanup, old(self).queue_cleanup_interval_seconds),
            final(self).last_queue_cleanup == if due {
                now
            } else {
                old(self).last_queue_cleanup
            },
            final(self).metrics_buffer == old(self).metrics_buffer,
            final(self).tasks() == old(self).tasks(),
            final(self).wf() == old(self).wf(),
            final(self).state == old(self).state,
    {
        if interval_elapsed(now, self.last_queue_cleanup, self.queue_cleanup_interval_seconds) {
            self.last_queue_cleanup = now;
            true
        } else {
            false
        }
    }
}

proof fn lemma_slots_view_len(s: Seq<TaskSlot>)
    requires
        distinct_names(s),
    ensures
        slots_view(s).dom().len() == s.len(),
        slots_view(s).dom().finite(),
    decreases s.len(),
{
    if s.len() > 0 {
        let d = s.drop_last();
        assert(distinct_names(d)) by {
            assert forall|a: int, b: int|
                0 <= a < d.len() && 0 <= b < d.len() && a != b implies #[trigger] d[a].name@
                != #[trigger] d[b].name@ by {
                assert(d[a] == s[a] && d[b] == s[b]);
            }
        }
        lemma_slots_view_len(d);
        lemma_slots_view_keys(d, s.last().name@);
        if slots_view(d).contains_key(s.last().name@) {
            let i = choose|i: int| 0 <= i < d.len() && #[trigger] d[i].name@ == s.last().name@;
            assert(d[i] == s[i]);
            assert(s[s.len() - 1] == s.last());
        }
    }
}

/// The minute boundary at or before `now`.
pub open spec fn minute_of(now: u64) -> int {
    now / 60 * 60
}

/// The period aggregated at `now` after aggregating up to `last`.
pub open spec fn aggregation_period(last: u64, now: u64) -> Option<(u64, u64)> {
    if minute_of(now) > last {
        Some((if minute_of(now) >= 60 { (minute_of(now) - 60) as u64 } else { 0u64 }, minute_of(now) as u64))
    } else {
        None
    }
}

/// A task never runs twice at once: after a ready notification starts it,
/// further notifications are skipped until its result comes back, and then
/// the next one starts it again.
pub proof fn lemma_no_overrun(m: Map<Seq<char>, bool>, n: Seq<char>)
    requires
        begin_decision(m, n) == RunDecision::Start,
    ensures
        begin_decision(after_begin(m, n), n) == RunDecision::Skip,
        after_begin(after_begin(m, n), n) == after_begin(m, n),
        begin_decision(after_finish(after_begin(m, n), n), n) == RunDecision::Start,
{
}

/// Notifications and results of one task leave every other task as it was.
pub proof fn lemma_other_tasks_untouched(m: Map<Seq<char>, bool>, n: Seq<char>, k: Seq<char>)
    requires
        k != n,
    ensures
        after_begin(m, n).contains_key(k) == m.contains_key(k),
        after_finish(m, n).contains_key(k) == m.contains_key(k),
        m.contains_key(k) ==> after_begin(m, n)[k] == m[k] && after_finish(m, n)[k] == m[k],
{
}

/// Each minute is aggregated once: after recording the period that ends at
/// the current minute, nothing more is due within that minute, and the
/// period is the minute before it.
pub proof fn lemma_aggregation_once_per_minute(last: u64, now: u64, later: u64)
    requires
        aggregation_period(last, now) is Some,
        now <= later,
        minute_of(later) == minute_of(now),
    ensures
        aggregation_period(minute_of(now) as u64, later) is None,
        ({
            let period = aggregation_period(last, now)->0;
            &&& period.1 == minute_of(now)
            &&& minute_of(now) >= 60 ==> period.0 == minute_of(now) - 60
        }),
{
}

} // verus!
