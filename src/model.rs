//! The values that a trace session hands to its consumers.
use vstd::prelude::*;

verus! {

/// One router on the path to a destination.
#[derive(Debug, Clone)]
pub struct HopInfo {
    /// The time-to-live value at which the router replied.
    pub hop: u32,
    pub ip: String,
    /// Reverse-DNS name, or the address itself when the lookup gave nothing.
    pub hostname: String,
    /// Milliseconds observed during discovery, when the utility printed them.
    pub initial_latency: Option<u64>,
}

pub struct HopView {
    pub hop: u32,
    pub ip: Seq<char>,
    pub hostname: Seq<char>,
    pub initial_latency: Option<u64>,
}

impl View for HopInfo {
    type V = HopView;

    open spec fn view(&self) -> HopView {
        HopView {
            hop: self.hop,
            ip: self.ip@,
            hostname: self.hostname@,
            initial_latency: self.initial_latency,
        }
    }
}

pub open spec fn hop_views(v: Seq<HopInfo>) -> Seq<HopView> {
    Seq::new(v.len(), |i: int| v[i]@)
}

/// How one probe of one hop ended.
#[derive(Debug, Clone, Copy, PartialEq, Eq, Structural)]
pub enum PingStatus {
    Success,
    Timeout,
    Failure,
    InvalidIp,
}

impl PingStatus {
    pub open spec fn spec_name(self) -> Seq<char> {
        match self {
            PingStatus::Success => "ok"@,
            PingStatus::Timeout => "timeout"@,
            PingStatus::Failure => "error"@,
            PingStatus::InvalidIp => "invalid_ip"@,
        }
    }

    /// The name consumers receive: `ok`, `timeout`, `error` or `invalid_ip`.
    pub fn name(&self) -> (r: &'static str)
        ensures
            r@ == self.spec_name(),
    {
        match self {
            PingStatus::Success => "ok",
            PingStatus::Timeout => "timeout",
            PingStatus::Failure => "error",
            PingStatus::InvalidIp => "invalid_ip",
        }
    }
}

/// One monitoring observation of one hop in one round.
#[derive(Debug, Clone)]
pub struct PingData {
    pub ip: String,
    /// Milliseconds; present exactly when `status` is `Success`.
    pub latency: Option<u128>,
    pub status: PingStatus,
    /// The round that produced the sample, counted from 1.
    pub seq: usize,
}

pub struct PingView {
    pub ip: Seq<char>,
    pub latency: Option<u128>,
    pub status: PingStatus,
    pub seq: usize,
}

impl View for PingData {
    type V = PingView;

    open spec fn view(&self) -> PingView {
        PingView { ip: self.ip@, latency: self.latency, status: self.status, seq: self.seq }
    }
}

/// Where a session sends what it finds: the current hop list, and each
/// ping sample as soon as it is taken.
pub trait TraceEmitter {
    fn emit_hop_list(&self, payload: &Vec<HopInfo>);

    fn emit_ping_data(&self, payload: &PingData);
}

} // verus!
