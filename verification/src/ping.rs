//! ICMP ping with address fallback: the host's addresses are tried in turn
//! until one answers; the first one that answers gives the round trip, and
//! when all fail the last error is reported.
use vstd::prelude::*;

use crate::text::{chars_of, contains, contains_exec, decimal, decimal_string};

verus! {

broadcast use vstd::string::group_string_axioms;

/// The metric of a ping.
#[derive(Debug, Clone, PartialEq, Eq)]
pub struct PingMetric {
    /// Round trip time in microseconds.
    pub rtt_us: Option<u64>,
    pub success: bool,
    pub error: Option<String>,
    /// The address pinged; empty when none was reached.
    pub ip_address: String,
    /// The host name, when the target was resolved from one.
    pub domain: Option<String>,
    pub target_id: Option<String>,
}

/// A failed ping's metric.
pub fn create_ping_error_metric(
    error: String,
    ip_address: String,
    domain: Option<String>,
    target_id: Option<String>,
) -> (m: PingMetric)
    ensures
        m == (PingMetric { rtt_us: None, success: false, error: Some(error), ip_address, domain, target_id }),
{
    PingMetric { rtt_us: None, success: false, error: Some(error), ip_address, domain, target_id }
}

/// The metric when resolving the host failed.
pub fn resolution_failed(host: &str, error: &str, target_id: Option<String>) -> (m: PingMetric)
    ensures
        m.rtt_us is None && !m.success && m.ip_address@ == Seq::<char>::empty(),
        (m.domain matches Some(d) && d@ == host@),
        m.target_id == target_id,
        (m.error matches Some(e) && e@ == "DNS resolution failed for "@ + host@ + ": "@ + error@),
{
    let mut e = String::from_str("DNS resolution failed for ");
    e.append(host);
    e.append(": ");
    e.append(error);
    create_ping_error_metric(e, String::new(), Some(String::from_str(host)), target_id)
}

/// The metric when the whole ping, resolution included, outlived its
/// timeout.
pub fn ping_timed_out(host: &str, timeout_seconds: u32, target_id: Option<String>) -> (m: PingMetric)
    ensures
        m.rtt_us is None && !m.success && m.ip_address@ == Seq::<char>::empty(),
        (m.domain matches Some(d) && d@ == host@),
        m.target_id == target_id,
        (m.error matches Some(e) && e@ == "Operation timed out after "@ + decimal(
            timeout_seconds as nat,
        ) + "s"@),
{
    let mut e = String::from_str("Operation timed out after ");
    e.append(decimal_string(timeout_seconds as u64).as_str());
    e.append("s");
    create_ping_error_metric(e, String::new(), Some(String::from_str(host)), target_id)
}

/// `rand::seq::SliceRandom::shuffle` with `rand::thread_rng()`. Claimed: the
/// addresses are permuted; which order comes out is left to chance.
#[verifier::external_body]
fn shuffle_addresses(v: &mut Vec<String>)
    ensures
        final(v)@.to_multiset() == old(v)@.to_multiset(),
        final(v)@.len() == old(v)@.len(),
{
    let mut rng = rand::thread_rng();
    rand::seq::SliceRandom::shuffle(v.as_mut_slice(), &mut rng);
}

/// The hint added when the system refuses raw sockets.
pub open spec fn permission_hint() -> Seq<char> {
    ". Hint: On Linux, add user to 'ping' group or set capabilities: sudo setcap cap_net_raw+ep /path/to/agent"@
}

/// The error of a pinger that could not be created, with the hint when the
/// system refused permission.
pub open spec fn init_error_text(e: Seq<char>) -> Seq<char> {
    let msg = "Cannot initiate ICMP ping: "@ + e;
    if contains(msg, "Operation not permitted"@) || contains(msg, "Permission denied"@) {
        msg + permission_hint()
    } else {
        msg
    }
}

/// What follows a failed attempt.
#[derive(Debug, Clone, PartialEq, Eq)]
pub enum PingStep {
    /// Try the next address.
    Next,
    /// All addresses were tried: report this metric.
    Finished(PingMetric),
}

/// The attempts of one ping over the addresses of its target.
pub struct PingFallback {
    targets: Vec<String>,
    domain: Option<String>,
    target_id: Option<String>,
    index: usize,
}

impl PingFallback {
    /// The addresses, in the order they are tried.
    pub closed spec fn targets(&self) -> Seq<String> {
        self.targets@
    }

    /// Which address is tried now.
    pub closed spec fn index(&self) -> nat {
        self.index as nat
    }

    /// The host name the addresses were resolved from.
    pub closed spec fn domain(&self) -> Option<String> {
        self.domain
    }

    /// The task's target label.
    pub closed spec fn target_id(&self) -> Option<String> {
        self.target_id
    }

    /// There is an address to try.
    pub closed spec fn wf(&self) -> bool {
        self.index < self.targets@.len()
    }

    /// A ping of an address given as such.
    pub fn for_address(ip: String, target_id: Option<String>) -> (s: PingFallback)
        ensures
            s.wf(),
            s.targets() == seq![ip],
            s.index() == 0,
            s.domain() is None,
            s.target_id() == target_id,
    {
        let mut targets = Vec::new();
        targets.push(ip);
        PingFallback { targets, domain: None, target_id, index: 0 }
    }

    /// A ping of a host name's resolved addresses, tried in random order; a
    /// name that resolved to nothing gives its error metric at once.
    pub fn for_resolved(addresses: Vec<String>, host: &str, target_id: Option<String>) -> (r: Result<
        PingFallback,
        PingMetric,
    >)
        ensures
            addresses@.len() == 0 ==> (r matches Err(m) && m.rtt_us is None && !m.success
                && m.ip_address@ == Seq::<char>::empty() && (m.domain matches Some(d) && d@
                == host@) && m.target_id == target_id && (m.error matches Some(e) && e@
                == "DNS resolution returned no addresses for: "@ + host@)),
            addresses@.len() > 0 ==> (r matches Ok(s) && s.wf() && s.index() == 0
                && s.targets().to_multiset() == addresses@.to_multiset() && (s.domain() matches Some(
                d,
            ) && d@ == host@) && s.target_id() == target_id),
    {
        if addresses.len() == 0 {
            let mut e = String::from_str("DNS resolution returned no addresses for: ");
            e.append(host);
            return Err(
                create_ping_error_metric(e, String::new(), Some(String::from_str(host)), target_id),
            );
        }
        let mut targets = addresses;
        shuffle_addresses(&mut targets);
        Ok(PingFallback { targets, domain: Some(String::from_str(host)), target_id, index: 0 })
    }

    /// The address to try now.
    pub fn current_target(&self) -> (t: &String)
        requires
            self.wf(),
        ensures
            *t == self.targets()[self.index() as int],
    {
        &self.targets[self.index]
    }

    /// The metric when the address tried now answered after `rtt_us`
    /// microseconds.
    pub fn on_reply(&self, rtt_us: u64) -> (m: PingMetric)
        requires
            self.wf(),
        ensures
            m.rtt_us == Some(rtt_us),
            m.success,
            m.error is None,
            m.ip_address == self.targets()[self.index() as int],
            m.domain == self.domain(),
            m.target_id == self.target_id(),
    {
        PingMetric {
            rtt_us: Some(rtt_us),
            success: true,
            error: None,
            ip_address: self.targets[self.index].clone(),
            domain: self.domain.clone(),
            target_id: self.target_id.clone(),
        }
    }

    /// No pinger could be made for the address tried now. The next address
    /// is tried; after the last one the error is reported with that address.
    pub fn on_init_error(&mut self, error: &str) -> (step: PingStep)
        requires
            old(self).wf(),
        ensures
            final(self).targets() == old(self).targets(),
            final(self).domain() == old(self).domain(),
            final(self).target_id() == old(self).target_id(),
            old(self).index() + 1 < old(self).targets().len() ==> step == PingStep::Next
                && final(self).index() == old(self).index() + 1 && final(self).wf(),
            old(self).index() + 1 == old(self).targets().len() ==> (step matches PingStep::Finished(m)
                && m.rtt_us is None && !m.success && (m.error matches Some(e) && e@
                == init_error_text(error@)) && m.ip_address == old(self).targets()[old(self).index() as int]
                && m.domain == old(self).domain() && m.target_id == old(self).target_id()),
    {
        let mut msg = String::from_str("Cannot initiate ICMP ping: ");
        msg.append(error);
        let chars = chars_of(msg.as_str());
        let p1 = chars_of("Operation not permitted");
        let p2 = chars_of("Permission denied");
        if contains_exec(&chars, &p1) || contains_exec(&chars, &p2) {
            msg.append(
                ". Hint: On Linux, add user to 'ping' group or set capabilities: sudo setcap cap_net_raw+ep /path/to/agent",
            );
        }
        if self.index == self.targets.len() - 1 {
            PingStep::Finished(
                create_ping_error_metric(
                    msg,
                    self.targets[self.index].clone(),
                    self.domain.clone(),
                    self.target_id.clone(),
                ),
            )
        } else {
            self.index = self.index + 1;
            PingStep::Next
        }
    }

    /// The address tried now did not answer. The next address is tried;
    /// after the last one the error is reported with the first address.
    pub fn on_send_error(&mut self, error: &str) -> (step: PingStep)
        requires
            old(self).wf(),
        ensures
            final(self).targets() == old(self).targets(),
            final(self).domain() == old(self).domain(),
            final(self).target_id() == old(self).target_id(),
            old(self).index() + 1 < old(self).targets().len() ==> step == PingStep::Next
                && final(self).index() == old(self).index() + 1 && final(self).wf(),
            old(self).index() + 1 == old(self).targets().len() ==> (step matches PingStep::Finished(m)
                && m.rtt_us is None && !m.success && (m.error matches Some(e) && e@ == "Ping failed: "@
                + error@) && m.ip_address == old(self).targets()[0] && m.domain == old(self).domain()
                && m.target_id == old(self).target_id()),
    {
        let mut msg = String::from_str("Ping failed: ");
        msg.append(error);
        if self.index == self.targets.len() - 1 {
            PingStep::Finished(
                create_ping_error_metric(
                    msg,
                    self.targets[0].clone(),
                    self.domain.clone(),
                    self.target_id.clone(),
                ),
            )
        } else {
            self.index = self.index + 1;
            PingStep::Next
        }
    }
}

} // verus!
