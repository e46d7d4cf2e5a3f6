//! One probe of one hop: reading the latency that the ping utility printed,
//! and turning the probe's outcome into a sample.
use vstd::prelude::*;

use crate::model::{PingData, PingStatus, PingView};
use crate::text::{chars_of, copy_range, decimal_ms, is_digit, is_digit_char, parse_decimal_ms};

verus! {

/// A latency marker at position `k` of `o`: `time=` or `time<`, the word
/// in either case.
pub open spec fn marker_at(o: Seq<char>, k: int) -> bool {
    &&& 0 <= k
    &&& k + 5 <= o.len()
    &&& o[k] == 't' || o[k] == 'T'
    &&& o[k + 1] == 'i' || o[k + 1] == 'I'
    &&& o[k + 2] == 'm' || o[k + 2] == 'M'
    &&& o[k + 3] == 'e' || o[k + 3] == 'E'
    &&& o[k + 4] == '=' || o[k + 4] == '<'
}

/// `k` is where the first latency marker of `o` stands.
pub open spec fn first_marker(o: Seq<char>, k: int) -> bool {
    marker_at(o, k) && forall|j: int| 0 <= j < k ==> !marker_at(o, j)
}

pub open spec fn is_number_char(c: char) -> bool {
    is_digit(c) || c == '.'
}

/// Where the run of digits and points that starts at `s` ends.
pub open spec fn number_end(o: Seq<char>, s: int) -> int
    decreases o.len() - s,
{
    if 0 <= s < o.len() && is_number_char(o[s]) {
        number_end(o, s + 1)
    } else {
        s
    }
}

/// The latency that ping output reports: the decimal written right after
/// its first `time=` or `time<` marker (which stands on the first line that
/// has one), rounded to whole milliseconds. `None` when the output has no
/// marker, or the text after the first one is not a decimal.
pub open spec fn output_latency(o: Seq<char>) -> Option<u64> {
    if exists|k: int| first_marker(o, k) {
        let k = choose|k: int| first_marker(o, k);
        decimal_ms(o.subrange(k + 5, number_end(o, k + 5)))
    } else {
        None
    }
}

fn marker_at_exec(o: &Vec<char>, k: usize) -> (r: bool)
    requires
        k + 5 <= o@.len(),
    ensures
        r == marker_at(o@, k as int),
{
    let n = o.len();
    k < n && n - k >= 5 && (o[k] == 't' || o[k] == 'T') && (o[k + 1] == 'i' || o[k + 1] == 'I')
        && (o[k + 2] == 'm' || o[k + 2] == 'M') && (o[k + 3] == 'e' || o[k + 3] == 'E') && (o[k
        + 4] == '=' || o[k + 4] == '<')
}

/// Reads the latency that the ping utility printed: the decimal right after
/// the first `time=` or `time<` marker.
pub fn output_latency_ms(output: &str) -> (r: Option<u64>)
    ensures
        r == output_latency(output@),
{
    let o = chars_of(output);
    let n = o.len();
    let mut k: usize = 0;
    while k < n && n - k >= 5 && !marker_at_exec(&o, k)
        invariant
            n == o@.len(),
            o@ == output@,
            k <= n,
            forall|j: int| 0 <= j < k ==> !marker_at(o@, j),
        decreases n - k,
    {
        k = k + 1;
    }
    if !(k < n && n - k >= 5) {
        assert forall|j: int| !first_marker(o@, j) by {
            if marker_at(o@, j) {
                assert(j < k);
            }
        }
        return None;
    }
    assert(first_marker(o@, k as int));
    let ghost chosen = choose|j: int| first_marker(o@, j);
    assert(chosen == k) by {
        if chosen < k {
            assert(!marker_at(o@, chosen));
        }
        if chosen > k {
            assert(!marker_at(o@, k as int));
        }
    }
    let s = k + 5;
    let mut e: usize = s;
    while e < n && (is_digit_char(o[e]) || o[e] == '.')
        invariant
            s <= e <= n,
            n == o@.len(),
            number_end(o@, s as int) == number_end(o@, e as int),
        decreases n - e,
    {
        e = e + 1;
    }
    assert(number_end(o@, e as int) == e);
    let num = copy_range(&o, s, e);
    parse_decimal_ms(&num)
}

/// How one run of the ping utility against one hop ended.
#[derive(Debug)]
pub enum ProbeOutcome {
    /// The hop's address does not read as an IP address; nothing was run.
    InvalidAddress,
    /// The utility could not be launched, or failed while running.
    Failed,
    /// The utility exited unsuccessfully: no reply within the timeout.
    Unanswered,
    /// The utility exited successfully, printing `output` after
    /// `elapsed_ms` milliseconds.
    Answered { output: String, elapsed_ms: u64 },
}

/// One hop to probe in one monitoring round.
#[derive(Debug)]
pub struct Probe {
    pub ip: String,
    pub seq: usize,
}

/// The latency of an answered probe: what the utility printed after its
/// latency marker, or, when that gives none, the time the run took.
pub open spec fn answered_latency(output: Seq<char>, elapsed_ms: u64) -> u128 {
    match output_latency(output) {
        Some(v) => v as u128,
        None => elapsed_ms as u128,
    }
}

/// The sample that a probe of `ip` in round `seq` yields for `outcome`.
pub open spec fn sample_spec(ip: Seq<char>, seq: usize, outcome: ProbeOutcome) -> PingView {
    match outcome {
        ProbeOutcome::InvalidAddress => PingView {
            ip,
            latency: None,
            status: PingStatus::InvalidIp,
            seq,
        },
        ProbeOutcome::Failed => PingView { ip, latency: None, status: PingStatus::Failure, seq },
        ProbeOutcome::Unanswered => PingView {
            ip,
            latency: None,
            status: PingStatus::Timeout,
            seq,
        },
        ProbeOutcome::Answered { output, elapsed_ms } => PingView {
            ip,
            latency: Some(answered_latency(output@, elapsed_ms)),
            status: PingStatus::Success,
            seq,
        },
    }
}

impl Probe {
    /// The sample to emit for this probe once it has ended with `outcome`.
    pub fn sample(&self, outcome: &ProbeOutcome) -> (r: PingData)
        ensures
            r@ == sample_spec(self.ip@, self.seq, *outcome),
    {
        let ip = self.ip.clone();
        match outcome {
            ProbeOutcome::InvalidAddress => PingData {
                ip,
                latency: None,
                status: PingStatus::InvalidIp,
                seq: self.seq,
            },
            ProbeOutcome::Failed => PingData {
                ip,
                latency: None,
                status: PingStatus::Failure,
                seq: self.seq,
            },
            ProbeOutcome::Unanswered => PingData {
                ip,
                latency: None,
                status: PingStatus::Timeout,
                seq: self.seq,
            },
            ProbeOutcome::Answered { output, elapsed_ms } => {
                let ms: u128 = match output_latency_ms(output.as_str()) {
                    Some(v) => v as u128,
                    None => *elapsed_ms as u128,
                };
                PingData { ip, latency: Some(ms), status: PingStatus::Success, seq: self.seq }
            },
        }
    }
}

} // verus!
