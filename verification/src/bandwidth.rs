//! Coordination of a bandwidth test with the server: the agent asks for a
//! test slot, waits while the server says so, and downloads once it may,
//! all within the task's timeout and its number of retries.
use vstd::prelude::*;

use crate::text::{decimal, decimal_string};

verus! {

broadcast use vstd::string::group_string_axioms;

/// Seconds waited when the server asks for a delay without saying how long.
pub const DEFAULT_DELAY_SECONDS: u32 = 60;

/// The server's answer to a request for a test slot.
#[derive(Debug, Clone, Copy, PartialEq, Eq, Structural)]
pub enum PermissionReply {
    /// Wait, for the given seconds if the server says.
    Delay(Option<u32>),
    /// Go ahead, downloading the given number of bytes if the server says.
    Proceed(Option<u64>),
}

/// Why a bandwidth test did not get to its download.
#[derive(Debug, Clone, Copy, PartialEq, Eq, Structural)]
pub enum BandwidthError {
    /// The task's timeout passed, after this many retries and seconds.
    TimedOut { retries: u32, elapsed_secs: u64 },
    /// The allowed number of retries was used up.
    RetriesExhausted { max_retries: u32 },
    /// Waiting as asked would pass the task's timeout.
    WaitTooLong { delay_secs: u32, remaining_secs: u64 },
    /// The server let the test proceed without a data size.
    NoDataSize,
}

/// What follows a reply of the server.
#[derive(Debug, Clone, Copy, PartialEq, Eq, Structural)]
pub enum ReplyStep {
    /// Sleep this many seconds, then ask again.
    Wait(u64),
    /// Download now, within this many seconds; the server announced this size.
    Download { timeout_secs: u64, data_size: u64 },
}

/// The state of one bandwidth test's negotiation with the server.
#[derive(Debug, Clone, Copy, PartialEq, Eq, Structural)]
pub struct BandwidthSession {
    /// The task's timeout in seconds.
    pub total_timeout_secs: u64,
    /// How many times the agent may wait for a slot.
    pub max_retries: u32,
    /// How many times it has waited so far.
    pub retry_count: u32,
}

/// The check before each request for a slot: the timeout, then the retries.
pub open spec fn request_check(s: BandwidthSession, elapsed: u64) -> Result<(), BandwidthError> {
    if elapsed >= s.total_timeout_secs {
        Err(BandwidthError::TimedOut { retries: s.retry_count, elapsed_secs: elapsed })
    } else if s.retry_count >= s.max_retries {
        Err(BandwidthError::RetriesExhausted { max_retries: s.max_retries })
    } else {
        Ok(())
    }
}

/// Seconds of the timeout left after `elapsed` seconds (none when passed).
pub open spec fn remaining_secs(total: u64, elapsed: u64) -> u64 {
    if elapsed >= total {
        0
    } else {
        (total - elapsed) as u64
    }
}

/// The step that a reply leads to, `elapsed` seconds after the test began.
pub open spec fn reply_step(s: BandwidthSession, reply: PermissionReply, elapsed: u64) -> Result<
    ReplyStep,
    BandwidthError,
> {
    match reply {
        PermissionReply::Delay(d) => {
            let delay = match d {
                Some(x) => x,
                None => DEFAULT_DELAY_SECONDS,
            };
            if elapsed + delay >= s.total_timeout_secs {
                Err(
                    BandwidthError::WaitTooLong {
                        delay_secs: delay,
                        remaining_secs: remaining_secs(s.total_timeout_secs, elapsed),
                    },
                )
            } else {
                Ok(ReplyStep::Wait(delay as u64))
            }
        },
        PermissionReply::Proceed(size) => match size {
            None => Err(BandwidthError::NoDataSize),
            Some(n) => Ok(
                ReplyStep::Download {
                    timeout_secs: remaining_secs(s.total_timeout_secs, elapsed),
                    data_size: n,
                },
            ),
        },
    }
}

impl BandwidthSession {
    /// A fresh negotiation for a task with this timeout and number of retries.
    pub fn new(timeout_seconds: u32, max_retries: u32) -> (s: BandwidthSession)
        ensures
            s.total_timeout_secs == timeout_seconds,
            s.max_retries == max_retries,
            s.retry_count == 0,
    {
        BandwidthSession { total_timeout_secs: timeout_seconds as u64, max_retries, retry_count: 0 }
    }

    /// The check made before asking the server for a slot, `elapsed` seconds
    /// after the test began.
    pub fn check_before_request(&self, elapsed: u64) -> (r: Result<(), BandwidthError>)
        ensures
            r == request_check(*self, elapsed),
    {
        if elapsed >= self.total_timeout_secs {
            Err(BandwidthError::TimedOut { retries: self.retry_count, elapsed_secs: elapsed })
        } else if self.retry_count >= self.max_retries {
            Err(BandwidthError::RetriesExhausted { max_retries: self.max_retries })
        } else {
            Ok(())
        }
    }

    /// Takes the server's reply, `elapsed` seconds after the test began. A wait
    /// counts as a retry.
    pub fn on_reply(&mut self, reply: PermissionReply, elapsed: u64) -> (r: Result<
        ReplyStep,
        BandwidthError,
    >)
        requires
            old(self).retry_count < old(self).max_retries,
            elapsed <= u64::MAX - 4294967295u64,
        ensures
            r == reply_step(*old(self), reply, elapsed),
            final(self).total_timeout_secs == old(self).total_timeout_secs,
            final(self).max_retries == old(self).max_retries,
            final(self).retry_count == if r matches Ok(ReplyStep::Wait(_)) {
                old(self).retry_count + 1
            } else {
                old(self).retry_count as int
            },
    {
        let remaining = if elapsed >= self.total_timeout_secs {
            0
        } else {
            self.total_timeout_secs - elapsed
        };
        match reply {
            PermissionReply::Delay(d) => {
                let delay = match d {
                    Some(x) => x,
                    None => DEFAULT_DELAY_SECONDS,
                };
                if elapsed + delay as u64 >= self.total_timeout_secs {
                    Err(BandwidthError::WaitTooLong { delay_secs: delay, remaining_secs: remaining })
                } else {
                    self.retry_count = self.retry_count + 1;
                    Ok(ReplyStep::Wait(delay as u64))
                }
            },
            PermissionReply::Proceed(size) => match size {
                None => Err(BandwidthError::NoDataSize),
                Some(n) => Ok(ReplyStep::Download { timeout_secs: remaining, data_size: n }),
            },
        }
    }
}

/// Waiting never runs past the task's timeout, and every wait is counted, so
/// that the number of waits never exceeds the allowed retries.
pub proof fn lemma_waits_stay_within_limits(s: BandwidthSession, reply: PermissionReply, elapsed: u64)
    requires
        request_check(s, elapsed) is Ok,
    ensures
        reply_step(s, reply, elapsed) matches Ok(ReplyStep::Wait(d)) ==> elapsed + d
            < s.total_timeout_secs && s.retry_count + 1 <= s.max_retries,
{
}

/// The text of the error, as the agent reports it.
pub open spec fn bandwidth_error_text(e: BandwidthError) -> Seq<char> {
    match e {
        BandwidthError::TimedOut { retries, elapsed_secs } => "Bandwidth test timed out after "@
            + decimal(retries as nat) + " retry attempts ("@ + decimal(elapsed_secs as nat)
            + " seconds elapsed)"@,
        BandwidthError::RetriesExhausted { max_retries } => "Exceeded maximum retry attempts ("@
            + decimal(max_retries as nat) + ") waiting for bandwidth test slot"@,
        BandwidthError::WaitTooLong { delay_secs, remaining_secs } => "Cannot wait "@ + decimal(
            delay_secs as nat,
        ) + " seconds - would exceed task timeout ("@ + decimal(remaining_secs as nat)
            + " seconds remaining)"@,
        BandwidthError::NoDataSize => "Server did not provide data size"@,
    }
}

impl BandwidthError {
    /// The text of the error.
    pub fn message(&self) -> (s: String)
        ensures
            s@ == bandwidth_error_text(*self),
    {
        let mut s = String::new();
        match self {
            BandwidthError::TimedOut { retries, elapsed_secs } => {
                s.append("Bandwidth test timed out after ");
                s.append(decimal_string(*retries as u64).as_str());
                s.append(" retry attempts (");
                s.append(decimal_string(*elapsed_secs).as_str());
                s.append(" seconds elapsed)");
            },
            BandwidthError::RetriesExhausted { max_retries } => {
                s.append("Exceeded maximum retry attempts (");
                s.append(decimal_string(*max_retries as u64).as_str());
                s.append(") waiting for bandwidth test slot");
            },
            BandwidthError::WaitTooLong { delay_secs, remaining_secs } => {
                s.append("Cannot wait ");
                s.append(decimal_string(*delay_secs as u64).as_str());
                s.append(" seconds - would exceed task timeout (");
                s.append(decimal_string(*remaining_secs).as_str());
                s.append(" seconds remaining)");
            },
            BandwidthError::NoDataSize => {
                s.append("Server did not provide data size");
            },
        }
        s
    }
}

/// The metric of a bandwidth test. The rate in Mbps is derived from the
/// bytes and the duration by whoever reports it.
#[derive(Debug, Clone, PartialEq, Eq)]
pub struct BandwidthMetric {
    /// Time of the download, in milliseconds.
    pub duration_ms: Option<u64>,
    pub bytes_downloaded: Option<u64>,
    pub success: bool,
    pub error: Option<String>,
    pub target_id: Option<String>,
}

/// The metric of a test: the bytes and milliseconds of its download, or
/// its error.
pub fn bandwidth_metric(outcome: Result<(u64, u64), String>, target_id: Option<String>) -> (m:
    BandwidthMetric)
    ensures
        m.target_id == target_id,
        match outcome {
            Ok(p) => m.bytes_downloaded == Some(p.0) && m.duration_ms == Some(p.1) && m.success
                && m.error is None,
            Err(e) => m.bytes_downloaded is None && m.duration_ms is None && !m.success && m.error
                == Some(e),
        },
{
    match outcome {
        Ok((bytes, ms)) => BandwidthMetric {
            duration_ms: Some(ms),
            bytes_downloaded: Some(bytes),
            success: true,
            error: None,
            target_id,
        },
        Err(e) => BandwidthMetric {
            duration_ms: None,
            bytes_downloaded: None,
            success: false,
            error: Some(e),
            target_id,
        },
    }
}

} // verus!
