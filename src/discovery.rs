//! Hop discovery: reading the trace utility's output one line at a time,
//! collecting the hops, and closing the run.
use vstd::prelude::*;

use crate::model::{HopInfo, HopView};
use crate::text::{
    chars_of, contains, contains_chars, decimal_ms, parse_decimal_ms, parse_unsigned, split_tokens,
    string_from_chars, tokens, unsigned_within, views_of,
};

verus! {

/// The two output layouts of the platform trace utilities.
#[derive(Debug, Clone, Copy, PartialEq, Eq, Structural)]
pub enum TraceFormat {
    /// `traceroute -n -q 1`: TTL, address or `*`, latency, `ms`.
    Posix,
    /// `tracert -d`: hop index, up to three latencies, address last.
    Windows,
}

/// What one line of trace output says about a hop, before its name is
/// looked up.
#[derive(Debug)]
pub struct HopCandidate {
    pub hop: u32,
    pub ip: String,
    pub initial_latency: Option<u64>,
}

pub struct CandidateView {
    pub hop: u32,
    pub ip: Seq<char>,
    pub initial_latency: Option<u64>,
}

impl View for HopCandidate {
    type V = CandidateView;

    open spec fn view(&self) -> CandidateView {
        CandidateView { hop: self.hop, ip: self.ip@, initial_latency: self.initial_latency }
    }
}

pub open spec fn candidate_view(r: Option<HopCandidate>) -> Option<CandidateView> {
    match r {
        Some(c) => Some(c@),
        None => None,
    }
}

/// `s` without its `<` characters.
pub open spec fn strip_lt(s: Seq<char>) -> Seq<char>
    decreases s.len(),
{
    if s.len() == 0 {
        s
    } else if s.last() == '<' {
        strip_lt(s.drop_last())
    } else {
        strip_lt(s.drop_last()).push(s.last())
    }
}

pub open spec fn ttl_of(t: Seq<char>) -> Option<nat> {
    unsigned_within(t, u32::MAX as nat)
}

/// A `traceroute` line: a TTL, then an address (`*` when nothing replied),
/// then optionally a decimal latency.
pub open spec fn posix_hop(line: Seq<char>) -> Option<CandidateView> {
    let t = tokens(line);
    if t.len() >= 2 && ttl_of(t[0]) is Some && t[1] != seq!['*'] {
        Some(
            CandidateView {
                hop: ttl_of(t[0])->0 as u32,
                ip: t[1],
                initial_latency: if t.len() >= 3 {
                    decimal_ms(t[2])
                } else {
                    None
                },
            },
        )
    } else {
        None
    }
}

/// A `tracert` line: a hop index, then the first latency (`<1` below one
/// millisecond), with the address as the last token; a line that reports a
/// timed-out request names no hop.
pub open spec fn windows_hop(line: Seq<char>) -> Option<CandidateView> {
    let t = tokens(line);
    if t.len() >= 1 && ttl_of(t[0]) is Some && !contains(line, "Request timed out"@) {
        Some(
            CandidateView {
                hop: ttl_of(t[0])->0 as u32,
                ip: t.last(),
                initial_latency: if t.len() > 1 {
                    match unsigned_within(strip_lt(t[1]), u64::MAX as nat) {
                        Some(v) => Some(v as u64),
                        None => None,
                    }
                } else {
                    None
                },
            },
        )
    } else {
        None
    }
}

pub open spec fn hop_line(format: TraceFormat, line: Seq<char>) -> Option<CandidateView> {
    match format {
        TraceFormat::Posix => posix_hop(line),
        TraceFormat::Windows => windows_hop(line),
    }
}

fn strip_lt_chars(s: &Vec<char>) -> (r: Vec<char>)
    ensures
        r@ == strip_lt(s@),
{
    let mut r: Vec<char> = Vec::new();
    let mut i: usize = 0;
    while i < s.len()
        invariant
            i <= s@.len(),
            r@ == strip_lt(s@.take(i as int)),
        decreases s@.len() - i,
    {
        assert(s@.take(i + 1).drop_last() =~= s@.take(i as int));
        if s[i] != '<' {
            r.push(s[i]);
        }
        i = i + 1;
    }
    assert(s@.take(s@.len() as int) =~= s@);
    r
}

fn parse_posix(line: &Vec<char>) -> (r: Option<HopCandidate>)
    ensures
        candidate_view(r) == posix_hop(line@),
{
    let t = split_tokens(line);
    if t.len() < 2 {
        return None;
    }
    assert(t[0]@ == tokens(line@)[0] && t[1]@ == tokens(line@)[1]);
    let ttl = match parse_unsigned(&t[0], 0xFFFF_FFFF) {
        Some(v) => v as u32,
        None => {
            return None;
        },
    };
    if t[1].len() == 1 && t[1][0] == '*' {
        assert(t[1]@ =~= seq!['*']);
        return None;
    }
    assert(t[1]@ != seq!['*']) by {
        if t[1]@ =~= seq!['*'] {
            assert(t[1]@[0] == '*');
        }
    }
    let latency = if t.len() >= 3 {
        assert(t[2]@ == tokens(line@)[2]);
        parse_decimal_ms(&t[2])
    } else {
        None
    };
    Some(HopCandidate { hop: ttl, ip: string_from_chars(&t[1]), initial_latency: latency })
}

fn parse_windows(line: &Vec<char>) -> (r: Option<HopCandidate>)
    ensures
        candidate_view(r) == windows_hop(line@),
{
    let t = split_tokens(line);
    let n = t.len();
    if n < 1 {
        return None;
    }
    assert(t[0]@ == tokens(line@)[0]);
    let ttl = match parse_unsigned(&t[0], 0xFFFF_FFFF) {
        Some(v) => v as u32,
        None => {
            return None;
        },
    };
    let marker = chars_of("Request timed out");
    if contains_chars(line, &marker) {
        return None;
    }
    let latency = if n > 1 {
        assert(t[1]@ == tokens(line@)[1]);
        let digits = strip_lt_chars(&t[1]);
        parse_unsigned(&digits, 0xFFFF_FFFF_FFFF_FFFF)
    } else {
        None
    };
    assert(t[n - 1]@ == tokens(line@).last());
    Some(HopCandidate { hop: ttl, ip: string_from_chars(&t[n - 1]), initial_latency: latency })
}

/// Reads one line of trace output in the given layout; `None` for a line
/// that names no hop (a header, a blank line, a hop that did not reply).
pub fn parse_hop_line(format: TraceFormat, line: &str) -> (r: Option<HopCandidate>)
    ensures
        candidate_view(r) == hop_line(format, line@),
{
    let chars = chars_of(line);
    match format {
        TraceFormat::Posix => parse_posix(&chars),
        TraceFormat::Windows => parse_windows(&chars),
    }
}

/// The name a hop is shown under: what the reverse lookup of `ip` gave, or
/// the address itself when the lookup gave nothing.
pub fn hostname_or_ip(ip: String, looked_up: Option<String>) -> (r: String)
    ensures
        r@ == match looked_up {
            Some(name) => name@,
            None => ip@,
        },
{
    match looked_up {
        Some(name) => name,
        None => ip,
    }
}

/// Why a discovery run produced no hop list.
#[derive(Debug, Clone, Copy, PartialEq, Eq, Structural)]
pub enum DiscoveryError {
    /// The trace utility could not be launched, or its output could not be read.
    Launch,
    /// The utility exited unsuccessfully before naming any hop.
    Exit,
}

/// The hops collected so far by one run of the trace utility.
pub struct DiscoveryRun {
    pub format: TraceFormat,
    pub hops: Vec<HopInfo>,
}

impl DiscoveryRun {
    /// Whether the run already holds a hop with this index and address.
    pub open spec fn repeats(&self, c: CandidateView) -> bool {
        exists|i: int|
            0 <= i < self.hops@.len() && (#[trigger] self.hops@[i]).hop == c.hop
                && self.hops@[i].ip@ == c.ip
    }

    /// `tracert` may print a hop twice; such repeats are dropped.
    pub open spec fn takes(&self, c: CandidateView) -> bool {
        self.format == TraceFormat::Posix || !self.repeats(c)
    }

    pub fn new(format: TraceFormat) -> (r: DiscoveryRun)
        ensures
            r.format == format,
            r.hops@.len() == 0,
    {
        DiscoveryRun { format, hops: Vec::new() }
    }

    /// Whether `record` would keep this candidate; asked before the name of
    /// the address is looked up.
    pub fn accepts(&self, c: &HopCandidate) -> (r: bool)
        ensures
            r == self.takes(c@),
    {
        if self.format == TraceFormat::Posix {
            return true;
        }
        let mut i: usize = 0;
        while i < self.hops.len()
            invariant
                i <= self.hops@.len(),
                self.format != TraceFormat::Posix,
                forall|j: int|
                    0 <= j < i ==> !((#[trigger] self.hops@[j]).hop == c.hop && self.hops@[j].ip@
                        == c.ip@),
            decreases self.hops@.len() - i,
        {
            if self.hops[i].hop == c.hop && self.hops[i].ip == c.ip {
                assert(self.hops@[i as int].hop == c.hop && self.hops@[i as int].ip@ == c.ip@);
                return false;
            }
            i = i + 1;
        }
        true
    }

    /// Appends the hop that `c` describes, named `hostname`, unless the run
    /// drops it as a repeat; tells whether it was kept.
    pub fn record(&mut self, c: HopCandidate, hostname: String) -> (r: bool)
        ensures
            r == old(self).takes(c@),
            final(self).format == old(self).format,
            r ==> final(self).hops@.len() == old(self).hops@.len() + 1,
            r ==> final(self).hops@.drop_last() == old(self).hops@,
            r ==> final(self).hops@.last()@ == (HopView {
                hop: c.hop,
                ip: c.ip@,
                hostname: hostname@,
                initial_latency: c.initial_latency,
            }),
            !r ==> final(self).hops@ == old(self).hops@,
    {
        if !self.accepts(&c) {
            return false;
        }
        let h = HopInfo {
            hop: c.hop,
            ip: c.ip,
            hostname,
            initial_latency: c.initial_latency,
        };
        self.hops.push(h);
        assert(self.hops@.drop_last() =~= old(self).hops@);
        true
    }

    /// Offers the hop that `c` describes, with whether its address reads as
    /// an IP address: a hop whose address does not is skipped; otherwise as
    /// `record`.
    pub fn offer(&mut self, c: HopCandidate, address_ok: bool, hostname: String) -> (r: bool)
        ensures
            r == (address_ok && old(self).takes(c@)),
            final(self).format == old(self).format,
            r ==> final(self).hops@.len() == old(self).hops@.len() + 1,
            r ==> final(self).hops@.drop_last() == old(self).hops@,
            r ==> final(self).hops@.last()@ == (HopView {
                hop: c.hop,
                ip: c.ip@,
                hostname: hostname@,
                initial_latency: c.initial_latency,
            }),
            !r ==> final(self).hops@ == old(self).hops@,
    {
        if !address_ok {
            return false;
        }
        self.record(c, hostname)
    }

    /// Closes the run once the utility has exited. A run without hops fails
    /// when the utility exited unsuccessfully; otherwise it falls back to the
    /// destination's own address, `resolved` (address and name), as hop 1,
    /// or to an empty list when the destination did not resolve.
    pub fn finish(self, exited_ok: bool, resolved: Option<(String, String)>) -> (r: Result<
        Vec<HopInfo>,
        DiscoveryError,
    >)
        ensures
            self.hops@.len() > 0 ==> r == Ok::<Vec<HopInfo>, DiscoveryError>(self.hops),
            self.hops@.len() == 0 && !exited_ok ==> r == Err::<Vec<HopInfo>, DiscoveryError>(
                DiscoveryError::Exit,
            ),
            self.hops@.len() == 0 && exited_ok ==> match r {
                Ok(v) => match resolved {
                    Some(a) => v@.len() == 1 && v@[0]@ == (HopView {
                        hop: 1,
                        ip: a.0@,
                        hostname: a.1@,
                        initial_latency: None,
                    }),
                    None => v@.len() == 0,
                },
                Err(_) => false,
            },
    {
        if self.hops.len() > 0 {
            return Ok(self.hops);
        }
        if !exited_ok {
            return Err(DiscoveryError::Exit);
        }
        let mut hops = self.hops;
        match resolved {
            Some(a) => {
                let (ip, hostname) = a;
                hops.push(HopInfo { hop: 1, ip, hostname, initial_latency: None });
            },
            None => {},
        }
        Ok(hops)
    }
}

} // verus!
