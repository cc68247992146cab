//! Strict ordering of the four expected inbound messages of a turn.
//!
//! Per turn the server sends, in this order and no other: a ship delta before
//! the results ("pre"), the simulation results, a ship delta after the results
//! ("post"), then one or more tick markers. The sequencer classifies each raw
//! inbound message against that expectation; a message of an unexpected kind is
//! a fatal protocol violation and mutates nothing. The same classification
//! serves the blocking receives at turn start and the non-blocking polls of the
//! timed loop, so the ordering invariant lives in one place.

use vstd::prelude::*;
use crate::ProtocolError;
use crate::msg::InboundMessage;

verus! {

/// Which of the turn's four expected messages a raw inbound message fills.
#[derive(Clone, Copy, Debug, PartialEq, Eq, Structural)]
pub enum Slot {
    /// The ship delta delivered before the results.
    Pre,
    /// The simulation results.
    Results,
    /// The ship delta delivered after the results.
    Post,
    /// A tick marker; the only slot that may be filled more than once.
    Tick,
}

/// Tracks which of the turn's expected messages have been consumed, via one
/// "received" flag per slot, satisfied in strict order.
#[derive(Clone, Copy, Debug, PartialEq, Eq, Structural)]
pub struct PacketSequencer {
    /// The pre-results ship delta has been consumed.
    pub pre_received: bool,
    /// The simulation results have been consumed.
    pub results_received: bool,
    /// The post-results ship delta has been consumed.
    pub post_received: bool,
    /// At least one tick marker has been consumed.
    pub tick_received: bool,
}

impl PacketSequencer {
    /// The flags respect the protocol order: a later message is never recorded
    /// as received before every earlier one.
    pub open spec fn wf(self) -> bool {
        &&& self.tick_received ==> self.post_received
        &&& self.post_received ==> self.results_received
        &&& self.results_received ==> self.pre_received
    }

    /// The slot a message of this kind fills in this state, or `None` when a
    /// message of this kind is out of order here.
    pub open spec fn slot_of(self, m: InboundMessage) -> Option<Slot> {
        match m {
            InboundMessage::ShipDelta { .. } => if !self.pre_received {
                Some(Slot::Pre)
            } else if self.results_received && !self.post_received {
                Some(Slot::Post)
            } else {
                None
            },
            InboundMessage::SimResults { .. } => if self.pre_received && !self.results_received {
                Some(Slot::Results)
            } else {
                None
            },
            InboundMessage::TickMarker { .. } => if self.post_received {
                Some(Slot::Tick)
            } else {
                None
            },
        }
    }

    /// The flags after a message filling `slot` is consumed.
    pub open spec fn with_slot(self, slot: Slot) -> PacketSequencer {
        match slot {
            Slot::Pre => PacketSequencer { pre_received: true, ..self },
            Slot::Results => PacketSequencer { results_received: true, ..self },
            Slot::Post => PacketSequencer { post_received: true, ..self },
            Slot::Tick => PacketSequencer { tick_received: true, ..self },
        }
    }

    /// The state of a fresh sequencer: nothing consumed yet.
    pub open spec fn fresh() -> PacketSequencer {
        PacketSequencer {
            pre_received: false,
            results_received: false,
            post_received: false,
            tick_received: false,
        }
    }

    /// A fresh sequencer for a new turn: nothing consumed yet.
    pub fn new() -> (s: Self)
        ensures
            s == PacketSequencer::fresh(),
    {
        PacketSequencer {
            pre_received: false,
            results_received: false,
            post_received: false,
            tick_received: false,
        }
    }

    /// Classifies a raw inbound message against the current expectation,
    /// without consuming it. A message of an unexpected kind for the current
    /// state is a fatal out-of-order violation.
    pub fn classify(&self, m: &InboundMessage) -> (r: Result<Slot, ProtocolError>)
        ensures
            r matches Ok(slot) ==> self.slot_of(*m) == Some(slot),
            r is Err ==> self.slot_of(*m) is None && r == Err::<Slot, ProtocolError>(
                ProtocolError::OutOfOrderMessage,
            ),
    {
        let slot = match m {
            InboundMessage::ShipDelta { .. } => {
                if !self.pre_received {
                    Some(Slot::Pre)
                } else if self.results_received && !self.post_received {
                    Some(Slot::Post)
                } else {
                    None
                }
            },
            InboundMessage::SimResults { .. } => {
                if self.pre_received && !self.results_received {
                    Some(Slot::Results)
                } else {
                    None
                }
            },
            InboundMessage::TickMarker { .. } => {
                if self.post_received {
                    Some(Slot::Tick)
                } else {
                    None
                }
            },
        };
        match slot {
            Some(s) => Ok(s),
            None => Err(ProtocolError::OutOfOrderMessage),
        }
    }

    /// Records that the message filling `slot` has been consumed. Called only
    /// after `classify` accepted the message and every side effect of consuming
    /// it succeeded, so a failed message leaves the sequencer untouched.
    pub fn commit(&mut self, slot: Slot)
        requires
            slot is Pre ==> !old(self).pre_received,
            slot is Results ==> old(self).pre_received,
            slot is Post ==> old(self).results_received,
            slot is Tick ==> old(self).post_received,
        ensures
            *final(self) == old(self).with_slot(slot),
            old(self).wf() ==> final(self).wf(),
    {
        match slot {
            Slot::Pre => { self.pre_received = true; },
            Slot::Results => { self.results_received = true; },
            Slot::Post => { self.post_received = true; },
            Slot::Tick => { self.tick_received = true; },
        }
    }

    /// Whether every one-shot message of the turn has been consumed, so that
    /// only tick markers remain.
    pub fn all_received(&self) -> (r: bool)
        ensures
            r == (self.pre_received && self.results_received && self.post_received),
    {
        self.pre_received && self.results_received && self.post_received
    }
}

/// Law: in any well-formed sequencer state, whatever the interleaving of raw
/// arrivals that produced it, a message is classified as the simulation
/// results only after the pre-results ship delta was consumed, and as the
/// post-results ship delta only after the simulation results were consumed;
/// and consuming an accepted message keeps the state well-formed.
pub proof fn lemma_strict_order(s: PacketSequencer, m: InboundMessage)
    requires
        s.wf(),
    ensures
        s.slot_of(m) == Some(Slot::Results) ==> s.pre_received && !s.results_received,
        s.slot_of(m) == Some(Slot::Post) ==> s.results_received && !s.post_received,
        s.slot_of(m) == Some(Slot::Tick) ==> s.pre_received && s.results_received
            && s.post_received,
        forall|slot: Slot| s.slot_of(m) == Some(slot) ==> s.with_slot(slot).wf(),
{
}

} // verus!
