//! The per-turn state machine that the host's render loop drives.
//!
//! Once per rendered frame the host calls [`TurnScheduler::frame`] with the
//! elapsed time since turn start and whatever one non-blocking receive
//! yielded. The scheduler hands back, batched, everything the frame requires
//! of the host: the simulation ticks now due (always first), the presentation
//! locks to release and to attempt, the results payload to forward to the
//! simulation collaborator, the plan message to transmit, and whether the turn
//! or the whole session is over. Blocking receives at turn start go through
//! [`TurnScheduler::handle_message`], the same path the polled messages take,
//! so the ordering invariant lives in one place.

use vstd::prelude::*;
use crate::clock::{current_tick, TickClock, TURN_TICKS};
use crate::msg::{InboundMessage, PlanMessage};
use crate::roster::{
    delta_apply, mark_exploded, try_lock_ids, unlock_ids, Roster, RosterActions,
};
use crate::sequencer::PacketSequencer;
use crate::ship::{ModulePlan, Ship, ShipId};
use crate::{ExitMode, ProtocolError};

verus! {

/// Elapsed milliseconds after which the local plan is transmitted.
pub const PLAN_SEND_MS: u64 = 2500;

/// Elapsed milliseconds after which a turn that saw the final tick marker
/// terminates the whole session.
pub const SESSION_EXIT_MS: u64 = 5000;

/// Everything consuming one inbound message requires of the host.
pub struct MessageOutcome {
    /// Presentation locks to release and to attempt, for a ship delta.
    pub actions: RosterActions,
    /// The results payload to forward to the simulation collaborator, for a
    /// simulation-results message.
    pub results: Option<Vec<u8>>,
    /// True when the message was the non-final tick marker that concludes the
    /// current turn.
    pub turn_over: bool,
}

/// What the host hands the scheduler each frame.
pub struct FrameInput {
    /// Milliseconds since this turn's wall-clock anchor, non-decreasing over
    /// the frames of a turn.
    pub elapsed_ms: u64,
    /// Whether the host was asked to close.
    pub close_requested: bool,
    /// What one non-blocking receive yielded this frame, if anything.
    pub received: Option<InboundMessage>,
}

/// How a frame left the turn.
#[derive(Clone, Copy, Debug, PartialEq, Eq, Structural)]
pub enum SchedulerOutcome {
    /// The turn goes on: render one more frame and call again.
    Continue,
    /// The turn concluded; record the simulation outcome, then call
    /// [`TurnScheduler::begin_turn`] for the next turn.
    TurnConcluded,
    /// The whole battle session is over, for the carried reason.
    SessionEnded(ExitMode),
}

/// Everything one frame requires of the host, to be applied in field order:
/// ticks to the simulation first, then message effects, then the plan.
pub struct FrameOutput {
    /// Simulation ticks now due, ascending; on any outcome other than
    /// `Continue` this includes the whole rest of the turn (the flush).
    pub ticks: Vec<u32>,
    /// Effects of the message consumed this frame, if one was.
    pub message: Option<MessageOutcome>,
    /// The plan message to transmit now, at most once per turn.
    pub plan: Option<PlanMessage>,
    /// Whether and how the turn or the session ended.
    pub outcome: SchedulerOutcome,
}

/// The outcome a frame reports, by fixed precedence: a close request, then the
/// player's ship jumping away, then the expiry of the final-marker grace
/// window, then an ordinary turn conclusion.
pub open spec fn outcome_of(
    close: bool,
    jumping: bool,
    grace_expired: bool,
    turn_over: bool,
) -> SchedulerOutcome {
    if close {
        SchedulerOutcome::SessionEnded(ExitMode::Logout)
    } else if jumping {
        SchedulerOutcome::SessionEnded(ExitMode::Jump)
    } else if grace_expired {
        SchedulerOutcome::SessionEnded(ExitMode::Logout)
    } else if turn_over {
        SchedulerOutcome::TurnConcluded
    } else {
        SchedulerOutcome::Continue
    }
}

/// No presentation work: no locks to release, none to attempt.
pub open spec fn no_actions(a: RosterActions) -> bool {
    &&& a.release_locks@.len() == 0
    &&& a.try_locks@.len() == 0
}

/// Drives one full turn: plan transmission at the elapsed-time threshold,
/// strict-order draining of the turn's messages, tick replay, roster
/// reconciliation, and the turn's terminal conditions.
pub struct TurnScheduler {
    /// The live set of ships, the player's designated entry included.
    pub roster: Roster,
    /// Which of the turn's expected messages have been consumed.
    pub sequencer: PacketSequencer,
    /// Maps elapsed wall-clock time to due simulation ticks.
    pub clock: TickClock,
    /// Whether this turn's plan has been transmitted; set at most once per
    /// turn.
    pub plans_sent: bool,
    /// Whether the final tick marker of the session has been observed; once
    /// true, inbound traffic is ignored and the session terminates when the
    /// grace window expires.
    pub last_tick: bool,
    /// The player's current per-module orders, transmitted with the plan.
    pub module_plans: Vec<ModulePlan>,
}

/// The scheduler consumed message `m` between states `pre` and `post`,
/// producing `out`: the message filled its expected slot, a ship delta was
/// reconciled into the roster, a results payload was handed through, and a
/// tick marker either concluded the turn or opened the exit-grace window.
/// Constrains only the protocol components: the roster, the sequencer and the
/// final-marker flag.
pub open spec fn message_accepts(
    pre: TurnScheduler,
    m: InboundMessage,
    post: TurnScheduler,
    out: MessageOutcome,
) -> bool {
    match pre.sequencer.slot_of(m) {
        Some(slot) => {
            &&& post.sequencer == pre.sequencer.with_slot(slot)
            &&& match m {
                InboundMessage::ShipDelta { added, removed } => {
                    &&& delta_apply(pre.roster, added@, removed@) == Ok::<_, ProtocolError>(
                        (post.roster.player, post.roster.player_present, post.roster.others@),
                    )
                    &&& out.actions.release_locks@ == removed@
                    &&& out.actions.try_locks@ == try_lock_ids(added@, pre.roster.player.id)
                    &&& out.results is None
                    &&& out.turn_over == false
                    &&& post.last_tick == pre.last_tick
                },
                InboundMessage::SimResults { payload } => {
                    &&& post.roster == pre.roster
                    &&& no_actions(out.actions)
                    &&& out.results == Some(payload)
                    &&& out.turn_over == false
                    &&& post.last_tick == pre.last_tick
                },
                InboundMessage::TickMarker { is_final } => {
                    &&& post.roster == pre.roster
                    &&& no_actions(out.actions)
                    &&& out.results is None
                    &&& out.turn_over == !is_final
                    &&& post.last_tick == (pre.last_tick || is_final)
                },
            }
        },
        None => false,
    }
}

/// Message `m` is fatal in state `pre` with cause `e`: either it is out of the
/// strict per-turn order, or it is a ship delta whose reconciliation violates
/// the roster rules. A rejected message mutates nothing.
pub open spec fn message_rejects(pre: TurnScheduler, m: InboundMessage, e: ProtocolError) -> bool {
    match pre.sequencer.slot_of(m) {
        None => e == ProtocolError::OutOfOrderMessage,
        Some(slot) => match m {
            InboundMessage::ShipDelta { added, removed } => delta_apply(
                pre.roster,
                added@,
                removed@,
            ) == Err::<(Ship, bool, Seq<Ship>), _>(e),
            _ => false,
        },
    }
}

impl TurnScheduler {
    /// The roster, the sequencer and the clock are each well-formed.
    pub open spec fn wf(self) -> bool {
        &&& self.roster.wf()
        &&& self.sequencer.wf()
        &&& self.clock.wf()
    }

    /// Plan transmission is due this frame: the threshold has been reached,
    /// the plan has not been sent yet, the session is not winding down, and
    /// the player's ship is not exploding.
    pub open spec fn plan_due(self, elapsed_ms: u64) -> bool {
        &&& !self.plans_sent
        &&& !self.last_tick
        &&& !self.roster.player.exploding
        &&& elapsed_ms >= PLAN_SEND_MS
    }

    /// The frame polls for inbound messages: never while the session is
    /// winding down, and otherwise only once the plan is out (or is going out
    /// this frame), or the exploding player ship suppressed it for good.
    pub open spec fn polls(self, elapsed_ms: u64) -> bool {
        &&& !self.last_tick
        &&& (self.plans_sent || self.roster.player.exploding || elapsed_ms >= PLAN_SEND_MS)
    }

    /// A scheduler for the first turn of a battle, with the player's initial
    /// per-module orders.
    pub fn new(roster: Roster, module_plans: Vec<ModulePlan>) -> (s: Self)
        requires
            roster.wf(),
        ensures
            s.wf(),
            s.roster == roster,
            s.module_plans == module_plans,
            s.sequencer == PacketSequencer::fresh(),
            s.clock.next_tick == 0,
            s.clock.history@ === Seq::empty(),
            !s.plans_sent,
            !s.last_tick,
    {
        TurnScheduler {
            roster,
            sequencer: PacketSequencer::new(),
            clock: TickClock::new(),
            plans_sent: false,
            last_tick: false,
            module_plans,
        }
    }

    /// Replaces the player's per-module orders with what the host's input
    /// handling gathered; nothing else changes.
    pub fn set_module_plans(&mut self, module_plans: Vec<ModulePlan>)
        ensures
            *final(self) == (TurnScheduler { module_plans: final(self).module_plans, ..*old(self) }),
            final(self).module_plans == module_plans,
    {
        self.module_plans = module_plans;
    }

    /// The plan message for this turn: the player ship's target sector and the
    /// player's current per-module orders.
    pub fn build_plan_message(&self) -> (p: PlanMessage)
        ensures
            p.target_sector == self.roster.player.target_sector,
            p.module_plans@ == self.module_plans@,
    {
        PlanMessage {
            target_sector: self.roster.player.target_sector,
            module_plans: copy_plans(&self.module_plans),
        }
    }

    /// Whether a frame at this elapsed time would consume an inbound message.
    /// The host polls the transport only when it would, so no queued message
    /// is dropped while polling is gated off.
    pub fn wants_message(&self, elapsed_ms: u64) -> (r: bool)
        ensures
            r == self.polls(elapsed_ms),
    {
        !self.last_tick && (self.plans_sent || self.roster.player.exploding || elapsed_ms
            >= PLAN_SEND_MS)
    }

    /// Consumes one inbound message: classifies it against the strict per-turn
    /// order, reconciles a ship delta into the roster, hands a results payload
    /// through, and reads the tick marker that concludes the turn or opens the
    /// exit-grace window. A fatal message leaves the scheduler exactly as it
    /// was. Serves the blocking receives at turn start and the timed polls
    /// alike.
    pub fn handle_message(&mut self, msg: InboundMessage) -> (r: Result<
        MessageOutcome,
        ProtocolError,
    >)
        requires
            old(self).wf(),
            !old(self).last_tick,
        ensures
            final(self).wf(),
            final(self).roster.player.id == old(self).roster.player.id,
            final(self).clock == old(self).clock,
            final(self).plans_sent == old(self).plans_sent,
            final(self).module_plans == old(self).module_plans,
            match r {
                Ok(out) => message_accepts(*old(self), msg, *final(self), out),
                Err(e) => message_rejects(*old(self), msg, e) && *final(self) == *old(self),
            },
    {
        let slot = match self.sequencer.classify(&msg) {
            Ok(s) => s,
            Err(e) => {
                return Err(e);
            },
        };
        match msg {
            InboundMessage::ShipDelta { added, removed } => {
                let actions = match self.roster.apply_delta(&added, &removed) {
                    Ok(a) => a,
                    Err(e) => {
                        return Err(e);
                    },
                };
                self.sequencer.commit(slot);
                Ok(MessageOutcome { actions, results: None, turn_over: false })
            },
            InboundMessage::SimResults { payload } => {
                self.sequencer.commit(slot);
                Ok(MessageOutcome {
                    actions: RosterActions { release_locks: Vec::new(), try_locks: Vec::new() },
                    results: Some(payload),
                    turn_over: false,
                })
            },
            InboundMessage::TickMarker { is_final } => {
                self.sequencer.commit(slot);
                if is_final {
                    self.last_tick = true;
                }
                Ok(MessageOutcome {
                    actions: RosterActions { release_locks: Vec::new(), try_locks: Vec::new() },
                    results: None,
                    turn_over: !is_final,
                })
            },
        }
    }

    /// Drives one rendered frame of the turn. In the returned output the host
    /// applies the due ticks to the simulation first — animation timing never
    /// waits on the network — then the message effects, then transmits the
    /// plan if one is due. The plan goes out exactly once per turn, never
    /// before `PLAN_SEND_MS`, and never at all when the player's ship was
    /// exploding at the threshold; a turn that saw the final tick marker
    /// ignores all further inbound traffic and ends the session once
    /// `SESSION_EXIT_MS` expires. On any outcome but `Continue` the remaining
    /// ticks of the turn are flushed. A fatal message fails the frame and
    /// leaves the scheduler exactly as it was.
    pub fn frame(&mut self, input: FrameInput) -> (r: Result<FrameOutput, ProtocolError>)
        requires
            old(self).wf(),
        ensures
            match r {
                Ok(out) => {
                    // The protocol components moved as the consumed message dictates.
                    &&& final(self).wf()
                    &&& final(self).roster.player.id == old(self).roster.player.id
                    &&& final(self).module_plans == old(self).module_plans
                    &&& (match input.received {
                        Some(m) => {
                            &&& (old(self).polls(input.elapsed_ms) ==> ({
                                &&& out.message matches Some(mo)
                                &&& message_accepts(*old(self), m, *final(self), mo)
                            }))
                            &&& (!old(self).polls(input.elapsed_ms) ==> out.message is None)
                        },
                        None => out.message is None,
                    })
                    &&& (out.message is None ==> {
                        &&& final(self).sequencer == old(self).sequencer
                        &&& final(self).roster == old(self).roster
                        &&& final(self).last_tick == old(self).last_tick
                    })
                    // The plan goes out exactly when due, with the pre-frame
                    // ship's target sector, and the sent flag records it.
                    &&& (out.plan matches Some(p) ==> p.target_sector
                        == old(self).roster.player.target_sector
                        && p.module_plans@ == old(self).module_plans@)
                    &&& (out.plan is Some <==> old(self).plan_due(input.elapsed_ms))
                    &&& final(self).plans_sent == (old(self).plans_sent || old(self).plan_due(
                        input.elapsed_ms,
                    ))
                    // The outcome, by fixed precedence.
                    &&& out.outcome == outcome_of(
                        input.close_requested,
                        final(self).roster.player.jumping,
                        old(self).last_tick && input.elapsed_ms >= SESSION_EXIT_MS,
                        (out.message matches Some(mo) && mo.turn_over),
                    )
                    // The ticks yielded: the due range on an ordinary frame,
                    // everything left of the turn on any other outcome.
                    &&& final(self).clock.history@ == old(self).clock.history@ + out.ticks@
                    &&& out.ticks@.len() == final(self).clock.next_tick - old(self).clock.next_tick
                    &&& forall|i: int| 0 <= i < out.ticks@.len()
                        ==> out.ticks@[i] as int == old(self).clock.next_tick + i
                    &&& (out.outcome is Continue ==> final(self).clock.next_tick as int == if
                        current_tick(input.elapsed_ms) + 1 > old(self).clock.next_tick {
                        current_tick(input.elapsed_ms) + 1
                    } else {
                        old(self).clock.next_tick as int
                    })
                    &&& (!(out.outcome is Continue) ==> final(self).clock.next_tick == TURN_TICKS)
                },
                Err(e) => {
                    &&& *final(self) == *old(self)
                    &&& old(self).polls(input.elapsed_ms)
                    &&& input.received matches Some(m) && message_rejects(*old(self), m, e)
                },
            },
    {
        // Decide plan transmission against the state the frame began with, as
        // if it were transmitted before the poll.
        let send_plan = !self.last_tick && !self.roster.player.exploding && !self.plans_sent
            && input.elapsed_ms >= PLAN_SEND_MS;
        let plan_target = self.roster.player.target_sector;
        let was_last_tick = self.last_tick;

        // Consume the polled message, if the frame polls at all; a fatal one
        // fails the whole frame before anything else has moved.
        let mut message: Option<MessageOutcome> = None;
        let mut turn_over = false;
        if !self.last_tick && (self.plans_sent || self.roster.player.exploding || input.elapsed_ms
            >= PLAN_SEND_MS) {
            match input.received {
                Some(msg) => {
                    match self.handle_message(msg) {
                        Ok(out) => {
                            turn_over = out.turn_over;
                            message = Some(out);
                        },
                        Err(e) => {
                            return Err(e);
                        },
                    }
                },
                None => {},
            }
        }

        let plan: Option<PlanMessage> = if send_plan {
            self.plans_sent = true;
            Some(PlanMessage { target_sector: plan_target, module_plans: copy_plans(&self.module_plans) })
        } else {
            None
        };

        // Terminal conditions, checked once per frame.
        let outcome = if input.close_requested {
            SchedulerOutcome::SessionEnded(ExitMode::Logout)
        } else if self.roster.player.jumping {
            SchedulerOutcome::SessionEnded(ExitMode::Jump)
        } else if was_last_tick && input.elapsed_ms >= SESSION_EXIT_MS {
            SchedulerOutcome::SessionEnded(ExitMode::Logout)
        } else if turn_over {
            SchedulerOutcome::TurnConcluded
        } else {
            SchedulerOutcome::Continue
        };

        let ticks = match outcome {
            SchedulerOutcome::Continue => self.clock.ticks_due(input.elapsed_ms),
            _ => self.clock.flush(),
        };

        Ok(FrameOutput { ticks, message, plan, outcome })
    }

    /// Turn boundary: marks every dead ship as exploding, names the
    /// presentation locks to release for exploding or jumping ships, and
    /// resets the per-turn state — fresh sequencer, fresh clock, plan not yet
    /// sent — while the roster carries over to the next turn.
    pub fn begin_turn(&mut self) -> (unlock: Vec<ShipId>)
        requires
            old(self).wf(),
        ensures
            final(self).wf(),
            final(self).roster.player == mark_exploded(old(self).roster.player),
            final(self).roster.player_present == old(self).roster.player_present,
            final(self).roster.others@.len() == old(self).roster.others@.len(),
            forall|i: int| 0 <= i < final(self).roster.others@.len()
                ==> final(self).roster.others@[i] == mark_exploded(old(self).roster.others@[i]),
            unlock@ == unlock_ids(final(self).roster),
            final(self).sequencer == PacketSequencer::fresh(),
            final(self).clock.next_tick == 0,
            final(self).clock.history@ === Seq::empty(),
            !final(self).plans_sent,
            final(self).last_tick == old(self).last_tick,
            final(self).module_plans == old(self).module_plans,
    {
        self.roster.mark_dead_exploding();
        let unlock = self.roster.unlock_candidates();
        self.sequencer = PacketSequencer::new();
        self.clock = TickClock::new();
        self.plans_sent = false;
        unlock
    }
}

/// Law: the plan is transmitted exactly once per turn. A frame transmits only
/// when the threshold is reached, no plan went out before, the session is not
/// winding down, and the player's ship is not exploding; and once the sent
/// flag is up — which transmitting sets — no later frame of the turn can be
/// due again.
pub proof fn lemma_plan_sent_once(s: TurnScheduler, elapsed_ms: u64)
    ensures
        s.plan_due(elapsed_ms) ==> elapsed_ms >= PLAN_SEND_MS && !s.plans_sent && !s.last_tick
            && !s.roster.player.exploding,
        s.plans_sent ==> !s.plan_due(elapsed_ms),
{
}

/// A plain copy of the player's per-module orders.
fn copy_plans(plans: &Vec<ModulePlan>) -> (r: Vec<ModulePlan>)
    ensures
        r@ == plans@,
{
    let mut r: Vec<ModulePlan> = Vec::new();
    let mut k: usize = 0;
    while k < plans.len()
        invariant
            k <= plans@.len(),
            r@ == plans@.take(k as int),
        decreases plans@.len() - k,
    {
        r.push(plans[k]);
        k = k + 1;
    }
    assert(r@ =~= plans@);
    r
}

} // verus!
