use vstd::prelude::*;

use crate::protocol::{register_bytes, registration_payload};

verus! {

/// Milliseconds a replica waits after each registration attempt.
pub const REGISTER_INTERVAL_MS: u64 = 10000;

/// Where a replica stands in its registration cycle.
#[derive(Clone, Copy, Debug, PartialEq, Eq, Structural)]
pub enum ReplicaPhase {
    /// About to open a connection to the master.
    Connect,
    /// Connected; about to write the registration.
    Register,
    /// Waiting out the interval before the next attempt.
    Pause,
}

/// What came of the work a replica last asked for.
#[derive(Clone, Copy, Debug, PartialEq, Eq, Structural)]
pub enum ReplicaEvent {
    Connected,
    ConnectFailed,
    Sent,
    SendFailed,
    Woke,
}

/// The work a replica asks its driver to do next.
#[derive(Clone, Debug)]
pub enum ReplicaAction {
    /// Open a connection to this address.
    Connect(String),
    /// Write these bytes on the open connection, then drop it.
    Send(Vec<u8>),
    /// Sleep this many milliseconds.
    Sleep(u64),
}

/// The events that can answer the action of a phase.
pub open spec fn is_outcome(phase: ReplicaPhase, ev: ReplicaEvent) -> bool {
    match phase {
        ReplicaPhase::Connect => ev == ReplicaEvent::Connected || ev == ReplicaEvent::ConnectFailed,
        ReplicaPhase::Register => ev == ReplicaEvent::Sent || ev == ReplicaEvent::SendFailed,
        ReplicaPhase::Pause => ev == ReplicaEvent::Woke,
    }
}

/// The phase after an event. A failed connection skips the write; a write
/// goes to the pause whether or not it succeeded; waking starts a new
/// attempt. An event that does not answer the phase's action changes nothing.
pub open spec fn next_phase(phase: ReplicaPhase, ev: ReplicaEvent) -> ReplicaPhase {
    match (phase, ev) {
        (ReplicaPhase::Connect, ReplicaEvent::Connected) => ReplicaPhase::Register,
        (ReplicaPhase::Connect, ReplicaEvent::ConnectFailed) => ReplicaPhase::Pause,
        (ReplicaPhase::Register, ReplicaEvent::Sent) => ReplicaPhase::Pause,
        (ReplicaPhase::Register, ReplicaEvent::SendFailed) => ReplicaPhase::Pause,
        (ReplicaPhase::Pause, ReplicaEvent::Woke) => ReplicaPhase::Connect,
        _ => phase,
    }
}

/// The action owed in a phase by a replica that registers with `master`.
pub open spec fn is_action_for(a: ReplicaAction, phase: ReplicaPhase, master: Seq<char>) -> bool {
    match phase {
        ReplicaPhase::Connect => a matches ReplicaAction::Connect(addr) && addr@ == master,
        ReplicaPhase::Register => a matches ReplicaAction::Send(bytes) && bytes@ == register_bytes(),
        ReplicaPhase::Pause => a matches ReplicaAction::Sleep(ms) && ms == REGISTER_INTERVAL_MS,
    }
}

/// One registration loop of a worker. The index only tells replicas apart in
/// logs; nothing of it goes on the wire.
#[derive(Clone, Debug)]
pub struct Replica {
    pub index: u16,
    pub master: String,
    pub phase: ReplicaPhase,
}

impl Replica {
    /// A replica that has not yet tried to connect.
    pub fn new(index: u16, master: String) -> (r: Replica)
        ensures
            r.index == index,
            r.master@ == master@,
            r.phase == ReplicaPhase::Connect,
    {
        Replica { index, master, phase: ReplicaPhase::Connect }
    }

    /// The work this replica asks for in its current phase.
    pub fn next_action(&self) -> (a: ReplicaAction)
        ensures
            is_action_for(a, self.phase, self.master@),
    {
        match self.phase {
            ReplicaPhase::Connect => ReplicaAction::Connect(self.master.clone()),
            ReplicaPhase::Register => ReplicaAction::Send(registration_payload()),
            ReplicaPhase::Pause => ReplicaAction::Sleep(REGISTER_INTERVAL_MS),
        }
    }

    /// Takes in what came of the last action.
    pub fn on_event(&mut self, ev: ReplicaEvent)
        ensures
            final(self).phase == next_phase(old(self).phase, ev),
            final(self).index == old(self).index,
            final(self).master@ == old(self).master@,
    {
        let next = match (self.phase, ev) {
            (ReplicaPhase::Connect, ReplicaEvent::Connected) => ReplicaPhase::Register,
            (ReplicaPhase::Connect, ReplicaEvent::ConnectFailed) => ReplicaPhase::Pause,
            (ReplicaPhase::Register, ReplicaEvent::Sent) => ReplicaPhase::Pause,
            (ReplicaPhase::Register, ReplicaEvent::SendFailed) => ReplicaPhase::Pause,
            (ReplicaPhase::Pause, ReplicaEvent::Woke) => ReplicaPhase::Connect,
            _ => self.phase,
        };
        self.phase = next;
    }
}

/// Every outcome of a phase's action moves the replica on: no phase is
/// terminal and none can stall, whatever the network does.
pub proof fn lemma_outcome_moves_on(phase: ReplicaPhase, ev: ReplicaEvent)
    requires
        is_outcome(phase, ev),
    ensures
        next_phase(phase, ev) != phase,
{
}

/// Whatever comes of the connection and of the write, an attempt ends in the
/// pause of the fixed interval, and waking from it starts the next attempt.
pub proof fn lemma_attempt_ends_in_pause(connect: ReplicaEvent, send: ReplicaEvent)
    requires
        is_outcome(ReplicaPhase::Connect, connect),
        is_outcome(ReplicaPhase::Register, send),
    ensures
        ({
            let after_connect = next_phase(ReplicaPhase::Connect, connect);
            let settled = if after_connect == ReplicaPhase::Register {
                next_phase(after_connect, send)
            } else {
                after_connect
            };
            &&& settled == ReplicaPhase::Pause
            &&& next_phase(settled, ReplicaEvent::Woke) == ReplicaPhase::Connect
        }),
{
}

/// The registration written in any cycle is the same eight bytes, for any
/// two replicas, whatever master they were given.
pub proof fn lemma_same_registration(a: ReplicaAction, b: ReplicaAction, m1: Seq<char>, m2: Seq<char>)
    requires
        is_action_for(a, ReplicaPhase::Register, m1),
        is_action_for(b, ReplicaPhase::Register, m2),
    ensures
        a matches ReplicaAction::Send(x) && b matches ReplicaAction::Send(y) && x@ == y@ && x@.len() == 8,
{
}

} // verus!
