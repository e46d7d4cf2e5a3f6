//! The single-flight record of the current trace session: its cancellation
//! flag, the handle of its monitor loop, and the id of its discovery
//! subprocess.
use vstd::prelude::*;

use crate::discovery::DiscoveryError;
use crate::model::{HopInfo, PingData, TraceEmitter};

verus! {

/// What a cancellation took out of the record: the monitor loop to abort
/// and the discovery subprocess to kill.
pub struct Cancellation<H> {
    pub ping_handle: Option<H>,
    pub traceroute_pid: Option<u32>,
}

/// The record of the current session. Each `begin` hands out a new
/// generation; a generation is live until the record is cancelled or a
/// later `begin` supersedes it.
pub struct Session<H> {
    pub cancelled: bool,
    pub generation: u64,
    pub ping_handle: Option<H>,
    pub traceroute_pid: Option<u32>,
}

/// What the controller does once discovery has ended.
pub enum DiscoveryStep {
    /// The session was cancelled or superseded: report nothing more.
    Abandon,
    /// Report this final hop list and end the session.
    Report(Vec<HopInfo>),
    /// Report this final hop list, then monitor its hops.
    Monitor(Vec<HopInfo>),
}

impl<H> Session<H> {
    pub open spec fn live(&self, generation: u64) -> bool {
        !self.cancelled && self.generation == generation
    }

    /// `self` is the record as `begin` leaves `prev`.
    pub open spec fn started_from(&self, prev: Session<H>) -> bool {
        &&& self.generation == prev.generation + 1
        &&& !self.cancelled
        &&& self.ping_handle is None
        &&& self.traceroute_pid is None
    }

    /// A record with no session in it.
    pub fn new() -> (r: Session<H>)
        ensures
            r.cancelled,
            r.generation == 0,
            r.ping_handle is None,
            r.traceroute_pid is None,
    {
        Session { cancelled: true, generation: 0, ping_handle: None, traceroute_pid: None }
    }

    pub fn is_live(&self, generation: u64) -> (r: bool)
        ensures
            r == self.live(generation),
    {
        !self.cancelled && self.generation == generation
    }

    pub fn set_traceroute_pid(&mut self, pid: Option<u32>)
        ensures
            final(self).traceroute_pid == pid,
            final(self).cancelled == old(self).cancelled,
            final(self).generation == old(self).generation,
            final(self).ping_handle == old(self).ping_handle,
    {
        self.traceroute_pid = pid;
    }

    /// Records the discovery subprocess of session `generation` while that
    /// session is live; tells whether it was recorded (if not, the caller
    /// kills the subprocess itself).
    pub fn record_traceroute_pid(&mut self, generation: u64, pid: u32) -> (r: bool)
        ensures
            r == old(self).live(generation),
            r ==> final(self).traceroute_pid == Some(pid),
            !r ==> final(self).traceroute_pid == old(self).traceroute_pid,
            final(self).cancelled == old(self).cancelled,
            final(self).generation == old(self).generation,
            final(self).ping_handle == old(self).ping_handle,
    {
        if self.is_live(generation) {
            self.set_traceroute_pid(Some(pid));
            true
        } else {
            false
        }
    }

    /// Forgets the subprocess `pid` once it has exited, leaving the record
    /// alone when it already holds another one.
    pub fn forget_traceroute_pid(&mut self, pid: u32)
        ensures
            old(self).traceroute_pid == Some(pid) ==> final(self).traceroute_pid is None,
            old(self).traceroute_pid != Some(pid) ==> final(self).traceroute_pid == old(
                self,
            ).traceroute_pid,
            final(self).cancelled == old(self).cancelled,
            final(self).generation == old(self).generation,
            final(self).ping_handle == old(self).ping_handle,
    {
        match self.traceroute_pid {
            Some(p) => {
                if p == pid {
                    self.set_traceroute_pid(None);
                }
            },
            None => {},
        }
    }

    /// Takes out the handle of the monitor loop, for the caller to abort.
    pub fn abort_ping_loop(&mut self) -> (r: Option<H>)
        ensures
            r == old(self).ping_handle,
            final(self).ping_handle is None,
            final(self).cancelled == old(self).cancelled,
            final(self).generation == old(self).generation,
            final(self).traceroute_pid == old(self).traceroute_pid,
    {
        self.ping_handle.take()
    }

    /// Takes out the id of the discovery subprocess, for the caller to kill.
    pub fn take_traceroute_pid(&mut self) -> (r: Option<u32>)
        ensures
            r == old(self).traceroute_pid,
            final(self).traceroute_pid is None,
            final(self).cancelled == old(self).cancelled,
            final(self).generation == old(self).generation,
            final(self).ping_handle == old(self).ping_handle,
    {
        self.traceroute_pid.take()
    }

    /// Cancels the current session, if any: sets the flag and takes out
    /// what the caller must abort and kill. Safe to repeat.
    pub fn cancel_current(&mut self) -> (r: Cancellation<H>)
        ensures
            final(self).cancelled,
            final(self).generation == old(self).generation,
            final(self).ping_handle is None,
            final(self).traceroute_pid is None,
            r.ping_handle == old(self).ping_handle,
            r.traceroute_pid == old(self).traceroute_pid,
    {
        self.cancelled = true;
        let ping_handle = self.abort_ping_loop();
        let traceroute_pid = self.take_traceroute_pid();
        Cancellation { ping_handle, traceroute_pid }
    }

    /// Supersedes the current session with a new one and returns its
    /// generation, with what the caller must abort and kill of the old one.
    pub fn begin(&mut self) -> (r: (u64, Cancellation<H>))
        requires
            old(self).generation < u64::MAX,
        ensures
            final(self).started_from(*old(self)),
            r.0 == final(self).generation,
            r.1.ping_handle == old(self).ping_handle,
            r.1.traceroute_pid == old(self).traceroute_pid,
    {
        let c = self.cancel_current();
        self.cancelled = false;
        self.set_traceroute_pid(None);
        self.generation = self.generation + 1;
        (self.generation, c)
    }

    /// Keeps the handle of the monitor loop of `generation` while that
    /// session is live; otherwise hands it back, for the caller to abort.
    pub fn install_ping_handle(&mut self, generation: u64, handle: H) -> (r: Option<H>)
        ensures
            old(self).live(generation) ==> r == old(self).ping_handle && final(self).ping_handle
                == Some(handle),
            !old(self).live(generation) ==> r == Some(handle) && final(self).ping_handle == old(
                self,
            ).ping_handle,
            final(self).cancelled == old(self).cancelled,
            final(self).generation == old(self).generation,
            final(self).traceroute_pid == old(self).traceroute_pid,
    {
        if self.is_live(generation) {
            let prev = self.ping_handle.take();
            self.ping_handle = Some(handle);
            prev
        } else {
            Some(handle)
        }
    }

    /// Decides what follows discovery in session `generation`. A session that
    /// is no longer live (stopped or superseded) reports nothing more; in a
    /// live one a failed discovery is reported as an empty hop list, and an
    /// empty hop list ends the session.
    pub fn conclude_discovery(
        &self,
        generation: u64,
        result: Result<Vec<HopInfo>, DiscoveryError>,
    ) -> (r: DiscoveryStep)
        ensures
            !self.live(generation) ==> r is Abandon,
            self.live(generation) ==> match result {
                Err(_) => r is Report && r->Report_0@.len() == 0,
                Ok(h) => if h@.len() == 0 {
                    r == DiscoveryStep::Report(h)
                } else {
                    r == DiscoveryStep::Monitor(h)
                },
            },
    {
        if !self.is_live(generation) {
            return DiscoveryStep::Abandon;
        }
        match result {
            Err(_) => DiscoveryStep::Report(Vec::new()),
            Ok(h) => {
                if h.len() == 0 {
                    DiscoveryStep::Report(h)
                } else {
                    DiscoveryStep::Monitor(h)
                }
            },
        }
    }

    /// Sends a sample of session `generation` to `sink` while that session is
    /// live; tells whether it was sent.
    pub fn publish_ping<E: TraceEmitter + ?Sized>(
        &self,
        generation: u64,
        sink: &E,
        data: &PingData,
    ) -> (r: bool)
        ensures
            r == self.live(generation),
    {
        if self.is_live(generation) {
            sink.emit_ping_data(data);
            true
        } else {
            false
        }
    }

    /// Sends a hop list of session `generation` to `sink` while that session
    /// is live; tells whether it was sent.
    pub fn publish_hops<E: TraceEmitter + ?Sized>(
        &self,
        generation: u64,
        sink: &E,
        hops: &Vec<HopInfo>,
    ) -> (r: bool)
        ensures
            r == self.live(generation),
    {
        if self.is_live(generation) {
            sink.emit_hop_list(hops);
            true
        } else {
            false
        }
    }
}

} // verus!
