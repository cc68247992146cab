use turnsync::msg::InboundMessage;
use turnsync::roster::Roster;
use turnsync::scheduler::{FrameInput, SchedulerOutcome, TurnScheduler};
use turnsync::ship::{ModulePlan, Ship};
use turnsync::{ExitMode, ProtocolError};

fn ship(id: u64, hp: u32) -> Ship {
    Ship {
        id,
        hp,
        shields: 0,
        max_shields: 0,
        exploding: false,
        jumping: false,
        target_sector: 12,
    }
}

fn scheduler_with(player: Ship) -> TurnScheduler {
    let roster = Roster::new(vec![player, ship(2, 6)], player.id).unwrap();
    TurnScheduler::new(roster, vec![ModulePlan { module_index: 0, active: true }])
}

fn quiet(elapsed_ms: u64) -> FrameInput {
    FrameInput { elapsed_ms, close_requested: false, received: None }
}

fn delivering(elapsed_ms: u64, msg: InboundMessage) -> FrameInput {
    FrameInput { elapsed_ms, close_requested: false, received: Some(msg) }
}

fn empty_delta() -> InboundMessage {
    InboundMessage::ShipDelta { added: Vec::new(), removed: Vec::new() }
}

fn results() -> InboundMessage {
    InboundMessage::SimResults { payload: vec![1, 2, 3] }
}

#[test]
fn plan_goes_out_once_at_the_threshold() {
    let mut s = scheduler_with(ship(1, 9));
    let early = s.frame(quiet(2499)).unwrap();
    assert!(early.plan.is_none());
    let at = s.frame(quiet(2500)).unwrap();
    let plan = at.plan.expect("plan is due at the threshold");
    assert_eq!(plan.target_sector, 12);
    assert_eq!(plan.module_plans.len(), 1);
    assert_eq!(plan.module_plans[0].module_index, 0);
    assert!(plan.module_plans[0].active);
    let after = s.frame(quiet(2600)).unwrap();
    assert!(after.plan.is_none());
    let late = s.frame(quiet(60_000)).unwrap();
    assert!(late.plan.is_none());
}

#[test]
fn no_plan_while_the_player_ship_is_exploding() {
    let mut dead = ship(1, 0);
    dead.exploding = true;
    let mut s = scheduler_with(dead);
    let out = s.frame(quiet(2500)).unwrap();
    assert!(out.plan.is_none());
    let out2 = s.frame(quiet(4000)).unwrap();
    assert!(out2.plan.is_none());
}

#[test]
fn full_turn_concludes_on_non_final_tick_and_flushes() {
    // Turn start: the blocking pre-fetch hands over an empty pre-delta and the
    // results through the same strict-order path as the polled messages.
    let mut s = scheduler_with(ship(1, 9));
    let pre = s.handle_message(empty_delta()).unwrap();
    assert!(!pre.turn_over);
    let res = s.handle_message(results()).unwrap();
    assert_eq!(res.results, Some(vec![1, 2, 3]));

    let mut ticks: Vec<u32> = Vec::new();

    // The timed loop: the plan goes out exactly once at 2.5 s.
    let f1 = s.frame(quiet(1000)).unwrap();
    assert!(matches!(f1.outcome, SchedulerOutcome::Continue));
    ticks.extend(&f1.ticks);
    let f2 = s.frame(quiet(2500)).unwrap();
    assert!(f2.plan.is_some());
    ticks.extend(&f2.ticks);

    // The post-results delta arrives through a poll.
    let f3 = s.frame(delivering(3000, empty_delta())).unwrap();
    assert!(matches!(f3.outcome, SchedulerOutcome::Continue));
    ticks.extend(&f3.ticks);

    // A non-final tick marker after all four messages: the turn concludes and
    // the remaining ticks are flushed.
    let f4 = s
        .frame(delivering(4000, InboundMessage::TickMarker { is_final: false }))
        .unwrap();
    assert!(matches!(f4.outcome, SchedulerOutcome::TurnConcluded));
    ticks.extend(&f4.ticks);
    assert_eq!(ticks, (0..100).collect::<Vec<u32>>());

    // The next turn starts with fresh per-turn state.
    let unlock = s.begin_turn();
    assert!(unlock.is_empty());
    let next = s.frame(quiet(2500)).unwrap();
    assert!(next.plan.is_some());
}

#[test]
fn final_tick_marker_ends_the_session_after_the_grace_window() {
    let mut s = scheduler_with(ship(1, 9));
    s.handle_message(empty_delta()).unwrap();
    s.handle_message(results()).unwrap();
    s.frame(quiet(2500)).unwrap();
    s.frame(delivering(3000, empty_delta())).unwrap();

    let marker = s
        .frame(delivering(4000, InboundMessage::TickMarker { is_final: true }))
        .unwrap();
    // The final marker does not conclude the turn; it opens the grace window.
    assert!(matches!(marker.outcome, SchedulerOutcome::Continue));

    // Further inbound traffic is ignored during the grace window.
    let graced = s.frame(delivering(4500, results())).unwrap();
    assert!(graced.message.is_none());
    assert!(matches!(graced.outcome, SchedulerOutcome::Continue));

    // At 5.0 s from turn start the session terminates, whatever else arrives.
    let end = s.frame(delivering(5000, empty_delta())).unwrap();
    assert!(matches!(end.outcome, SchedulerOutcome::SessionEnded(ExitMode::Logout)));
    assert!(end.message.is_none());
}

#[test]
fn second_pre_delta_before_results_is_fatal_and_mutates_nothing() {
    let mut s = scheduler_with(ship(1, 9));
    s.handle_message(empty_delta()).unwrap();
    assert!(matches!(
        s.handle_message(empty_delta()),
        Err(ProtocolError::OutOfOrderMessage)
    ));
    // No state was mutated for the rejected message: the expected message is
    // still accepted afterwards.
    assert!(s.handle_message(results()).is_ok());
}

#[test]
fn fatal_message_in_a_frame_leaves_the_scheduler_untouched() {
    let mut s = scheduler_with(ship(1, 9));
    s.handle_message(empty_delta()).unwrap();
    s.handle_message(results()).unwrap();
    // A delta removing an unknown ship is a roster violation.
    let bad = InboundMessage::ShipDelta { added: Vec::new(), removed: vec![77] };
    assert!(matches!(
        s.frame(delivering(2600, bad)),
        Err(ProtocolError::UnknownIdentity)
    ));
    // The failed frame changed nothing: the plan is still unsent, the clock
    // has not moved, and the expected post-delta still goes through.
    assert!(!s.plans_sent);
    let ok = s.frame(delivering(2600, empty_delta())).unwrap();
    assert!(ok.plan.is_some());
    assert_eq!(ok.ticks, (0..53).collect::<Vec<u32>>());
}

#[test]
fn polling_is_gated_until_the_plan_threshold() {
    let mut s = scheduler_with(ship(1, 9));
    assert!(!s.wants_message(0));
    assert!(!s.wants_message(2499));
    assert!(s.wants_message(2500));
    // Once the plan is out, earlier elapsed times poll too (the next frame's
    // clock can only be later anyway).
    s.frame(quiet(2500)).unwrap();
    assert!(s.wants_message(2600));
    // An exploding player ship suppresses the plan but not the polling.
    let mut dead = ship(1, 0);
    dead.exploding = true;
    let exploding = scheduler_with(dead);
    assert!(exploding.wants_message(0));
}

#[test]
fn tick_marker_before_the_post_delta_is_fatal() {
    let mut s = scheduler_with(ship(1, 9));
    s.handle_message(empty_delta()).unwrap();
    s.handle_message(results()).unwrap();
    assert!(matches!(
        s.handle_message(InboundMessage::TickMarker { is_final: false }),
        Err(ProtocolError::OutOfOrderMessage)
    ));
    // Nothing moved: the post-results delta is still the expected message.
    assert!(s.handle_message(empty_delta()).is_ok());
}

#[test]
fn close_request_ends_the_session_with_logout() {
    let mut s = scheduler_with(ship(1, 9));
    let out = s
        .frame(FrameInput { elapsed_ms: 100, close_requested: true, received: None })
        .unwrap();
    assert!(matches!(out.outcome, SchedulerOutcome::SessionEnded(ExitMode::Logout)));
    // Terminal frames flush the whole turn's ticks.
    assert_eq!(out.ticks, (0..100).collect::<Vec<u32>>());
}

#[test]
fn jumping_player_ends_the_session_with_jump() {
    let mut jumper = ship(1, 9);
    jumper.jumping = true;
    let mut s = scheduler_with(jumper);
    let out = s.frame(quiet(100)).unwrap();
    assert!(matches!(out.outcome, SchedulerOutcome::SessionEnded(ExitMode::Jump)));
}

#[test]
fn turn_boundary_marks_dead_ships_and_names_unlocks() {
    let mut s = scheduler_with(ship(1, 9));
    s.roster.record_hp(2, 0).unwrap();
    let unlock = s.begin_turn();
    // The dead third-party ship is now exploding and its lock is released.
    assert_eq!(unlock, vec![2]);
    assert!(s.roster.others[0].exploding);
    assert!(!s.plans_sent);
}

#[test]
fn delta_messages_carry_roster_actions_through_the_frame() {
    let mut s = scheduler_with(ship(1, 9));
    let delta = InboundMessage::ShipDelta { added: vec![ship(30, 4)], removed: vec![2] };
    let out = s.handle_message(delta).unwrap();
    assert_eq!(out.actions.release_locks, vec![2]);
    assert_eq!(out.actions.try_locks, vec![30]);
    assert_eq!(s.roster.others.len(), 1);
    assert_eq!(s.roster.others[0].id, 30);
}
