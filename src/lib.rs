//! Trace session engine: discovers the hops on the path to a host from the
//! platform trace utility's output, then monitors each hop's latency round
//! after round, under a single-flight session record.
pub mod discovery;
pub mod model;
pub mod monitor;
pub mod probe;
pub mod session;
pub mod text;

pub use discovery::{
    DiscoveryError, DiscoveryRun, HopCandidate, TraceFormat, hostname_or_ip, parse_hop_line,
};
pub use model::{HopInfo, PingData, PingStatus, TraceEmitter};
pub use monitor::Monitor;
pub use probe::{Probe, ProbeOutcome, output_latency_ms};
pub use session::{Cancellation, DiscoveryStep, Session};
