//! The ping monitor: rounds over a fixed hop list, each probing every hop
//! once, numbered from 1, for as long as its session is live.
use vstd::prelude::*;

use crate::model::{HopInfo, PingView};
use crate::probe::{sample_spec, Probe, ProbeOutcome};
use crate::session::Session;

verus! {

/// The round counter of the monitor of one session.
pub struct Monitor {
    /// The session generation the monitor belongs to.
    pub generation: u64,
    /// The number of the last round begun; 0 before the first.
    pub seq: usize,
    pub hops: Vec<HopInfo>,
}

pub open spec fn probes_view(r: Option<Vec<Probe>>) -> Option<Seq<Probe>> {
    match r {
        Some(v) => Some(v@),
        None => None,
    }
}

/// `probes` is round `seq` over `hops`: one probe per hop, in order, each
/// tagged `seq`.
pub open spec fn round_of(probes: Seq<Probe>, hops: Seq<HopInfo>, seq: usize) -> bool {
    &&& probes.len() == hops.len()
    &&& forall|i: int|
        0 <= i < probes.len() ==> (#[trigger] probes[i]).ip@ == hops[i].ip@ && probes[i].seq
            == seq
}

/// One call of `next_round` took `prev` to `next`, returning `round`, with
/// the session `live` or not.
pub open spec fn advanced(prev: Monitor, live: bool, next: Monitor, round: Option<Seq<Probe>>) -> bool {
    &&& next.generation == prev.generation
    &&& next.hops@ == prev.hops@
    &&& if live && prev.seq < usize::MAX {
        &&& next.seq == prev.seq + 1
        &&& round is Some
        &&& round_of(round->0, prev.hops@, next.seq)
    } else {
        next.seq == prev.seq && round is None
    }
}

/// The samples that a round yields when its probes end with `outcomes`.
pub open spec fn round_samples(probes: Seq<Probe>, outcomes: Seq<ProbeOutcome>) -> Seq<PingView> {
    Seq::new(probes.len(), |i: int| sample_spec(probes[i].ip@, probes[i].seq, outcomes[i]))
}

impl Monitor {
    /// A monitor over `hops` for session `generation`, before its first round.
    pub fn new(generation: u64, hops: Vec<HopInfo>) -> (r: Monitor)
        requires
            hops@.len() > 0,
        ensures
            r.generation == generation,
            r.seq == 0,
            r.hops@ == hops@,
    {
        Monitor { generation, seq: 0, hops }
    }

    /// Begins the next round while the session is live: numbers it one past
    /// the last and returns one probe per hop. Returns `None`, changing
    /// nothing, once the session is cancelled or superseded (or the counter
    /// is exhausted).
    pub fn next_round<H>(&mut self, session: &Session<H>) -> (r: Option<Vec<Probe>>)
        ensures
            advanced(*old(self), session.live(old(self).generation), *final(self), probes_view(r)),
    {
        if !session.is_live(self.generation) || self.seq == usize::MAX {
            return None;
        }
        self.seq = self.seq + 1;
        let mut probes: Vec<Probe> = Vec::new();
        let mut i: usize = 0;
        while i < self.hops.len()
            invariant
                i <= self.hops@.len(),
                probes@.len() == i,
                forall|j: int|
                    0 <= j < i ==> (#[trigger] probes@[j]).ip@ == self.hops@[j].ip@ && probes@[j].seq
                        == self.seq,
            decreases self.hops@.len() - i,
        {
            probes.push(Probe { ip: self.hops[i].ip.clone(), seq: self.seq });
            i = i + 1;
        }
        Some(probes)
    }
}

/// Every round yields exactly one sample per hop, in hop order, each
/// tagged with the round's number.
pub proof fn lemma_round_samples_cover_hops(
    probes: Seq<Probe>,
    hops: Seq<HopInfo>,
    seq: usize,
    outcomes: Seq<ProbeOutcome>,
)
    requires
        round_of(probes, hops, seq),
        outcomes.len() == probes.len(),
    ensures
        round_samples(probes, outcomes).len() == hops.len(),
        forall|i: int|
            0 <= i < hops.len() ==> (#[trigger] round_samples(probes, outcomes)[i]).seq == seq
                && round_samples(probes, outcomes)[i].ip == hops[i].ip@,
{
    assert forall|i: int| 0 <= i < hops.len() implies (#[trigger] round_samples(
        probes,
        outcomes,
    )[i]).seq == seq && round_samples(probes, outcomes)[i].ip == hops[i].ip@ by {
        assert(probes[i].ip@ == hops[i].ip@);
    }
}

/// The first round of a new monitor is numbered 1.
pub proof fn lemma_first_round_is_one(
    m0: Monitor,
    live: bool,
    m1: Monitor,
    r: Option<Seq<Probe>>,
)
    requires
        m0.seq == 0,
        advanced(m0, live, m1, r),
        r is Some,
    ensures
        m1.seq == 1,
        forall|i: int| 0 <= i < r->0.len() ==> (#[trigger] r->0[i]).seq == 1,
{
}

/// Consecutive rounds of one monitor are numbered one apart.
pub proof fn lemma_consecutive_rounds_count_up(
    m0: Monitor,
    m1: Monitor,
    m2: Monitor,
    live1: bool,
    live2: bool,
    r1: Option<Seq<Probe>>,
    r2: Option<Seq<Probe>>,
)
    requires
        advanced(m0, live1, m1, r1),
        advanced(m1, live2, m2, r2),
        r1 is Some,
        r2 is Some,
    ensures
        m2.seq == m1.seq + 1,
        forall|i: int, j: int|
            0 <= i < r1->0.len() && 0 <= j < r2->0.len() ==> (#[trigger] r2->0[j]).seq == (
            #[trigger] r1->0[i]).seq + 1,
{
}

/// Once the session is cancelled, the monitor begins no further round.
pub proof fn lemma_no_round_after_stop<H>(
    session: Session<H>,
    m: Monitor,
    next: Monitor,
    round: Option<Seq<Probe>>,
)
    requires
        session.cancelled,
        advanced(m, session.live(m.generation), next, round),
    ensures
        round is None,
        next.seq == m.seq,
{
}

/// Once `begin` has superseded a session, no generation handed out before
/// is live: its monitor begins no further round, and none of its samples is
/// published.
pub proof fn lemma_superseded_session_is_silent<H>(
    prev: Session<H>,
    now: Session<H>,
    m: Monitor,
    next: Monitor,
    round: Option<Seq<Probe>>,
)
    requires
        now.started_from(prev),
        m.generation <= prev.generation,
        advanced(m, now.live(m.generation), next, round),
    ensures
        !now.live(m.generation),
        round is None,
        next.seq == m.seq,
{
}

} // verus!
