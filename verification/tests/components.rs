use turnsync::clock::TickClock;
use turnsync::msg::InboundMessage;
use turnsync::roster::Roster;
use turnsync::sequencer::{PacketSequencer, Slot};
use turnsync::ship::{ModuleBase, Ship};
use turnsync::shield::ShieldModule;
use turnsync::sprite::{frame_size, frame_source_origin};
use turnsync::ProtocolError;

fn ship(id: u64, hp: u32) -> Ship {
    Ship {
        id,
        hp,
        shields: 0,
        max_shields: 0,
        exploding: false,
        jumping: false,
        target_sector: 0,
    }
}

#[test]
fn clock_yields_due_ranges_in_order() {
    let mut c = TickClock::new();
    assert_eq!(c.ticks_due(0), vec![0]);
    assert_eq!(c.ticks_due(49), Vec::<u32>::new());
    assert_eq!(c.ticks_due(149), vec![1, 2]);
    assert_eq!(c.ticks_due(150), vec![3]);
}

#[test]
fn clock_clamps_to_last_tick_of_turn() {
    let mut c = TickClock::new();
    let all: Vec<u32> = c.ticks_due(1_000_000);
    assert_eq!(all, (0..100).collect::<Vec<u32>>());
    assert_eq!(c.ticks_due(2_000_000), Vec::<u32>::new());
    assert_eq!(c.flush(), Vec::<u32>::new());
}

#[test]
fn clock_turn_coverage_with_polls_and_flush() {
    let mut c = TickClock::new();
    let mut seen: Vec<u32> = Vec::new();
    for ms in [0u64, 220, 220, 1000, 3333] {
        seen.extend(c.ticks_due(ms));
    }
    seen.extend(c.flush());
    assert_eq!(seen, (0..100).collect::<Vec<u32>>());
}

#[test]
fn clock_flush_alone_covers_whole_turn() {
    let mut c = TickClock::new();
    assert_eq!(c.flush(), (0..100).collect::<Vec<u32>>());
}

fn empty_delta() -> InboundMessage {
    InboundMessage::ShipDelta { added: Vec::new(), removed: Vec::new() }
}

fn results() -> InboundMessage {
    InboundMessage::SimResults { payload: vec![9, 9, 9] }
}

#[test]
fn sequencer_accepts_the_expected_order() {
    let mut s = PacketSequencer::new();
    let pre = s.classify(&empty_delta()).unwrap();
    assert_eq!(pre, Slot::Pre);
    s.commit(pre);
    let res = s.classify(&results()).unwrap();
    assert_eq!(res, Slot::Results);
    s.commit(res);
    let post = s.classify(&empty_delta()).unwrap();
    assert_eq!(post, Slot::Post);
    s.commit(post);
    let tick = s.classify(&InboundMessage::TickMarker { is_final: false }).unwrap();
    assert_eq!(tick, Slot::Tick);
    s.commit(tick);
    assert!(s.all_received());
}

#[test]
fn sequencer_rejects_results_before_pre_delta() {
    let s = PacketSequencer::new();
    assert_eq!(s.classify(&results()), Err(ProtocolError::OutOfOrderMessage));
    assert_eq!(
        s.classify(&InboundMessage::TickMarker { is_final: true }),
        Err(ProtocolError::OutOfOrderMessage)
    );
}

#[test]
fn sequencer_rejects_second_pre_delta_before_results() {
    let mut s = PacketSequencer::new();
    let pre = s.classify(&empty_delta()).unwrap();
    s.commit(pre);
    assert_eq!(s.classify(&empty_delta()), Err(ProtocolError::OutOfOrderMessage));
    // Nothing was consumed: the expected message still goes through.
    assert_eq!(s.classify(&results()), Ok(Slot::Results));
}

#[test]
fn roster_construction_picks_the_player_entry() {
    let r = Roster::new(vec![ship(3, 9), ship(5, 7), ship(8, 1)], 5).unwrap();
    assert_eq!(r.player.id, 5);
    assert_eq!(r.player.hp, 7);
    assert!(r.player_present);
    let other_ids: Vec<u64> = r.others.iter().map(|s| s.id).collect();
    assert_eq!(other_ids, vec![3, 8]);
}

#[test]
fn roster_construction_rejects_duplicates_and_unknown_player() {
    assert!(matches!(
        Roster::new(vec![ship(3, 9), ship(3, 2)], 3),
        Err(ProtocolError::DuplicateIdentity)
    ));
    assert!(matches!(Roster::new(vec![ship(3, 9)], 4), Err(ProtocolError::UnknownIdentity)));
}

#[test]
fn respawn_replaces_dead_player_ship() {
    // The player's prior ship is dead; the delta removes a third-party ship
    // and adds a respawn under the player's identity.
    let mut r = Roster::new(vec![ship(1, 0), ship(2, 4)], 1).unwrap();
    let respawn = ship(1, 10);
    let actions = r.apply_delta(&vec![respawn], &vec![2]).unwrap();
    assert_eq!(r.player, respawn);
    assert!(r.player_present);
    assert!(r.others.is_empty());
    assert_eq!(actions.release_locks, vec![2]);
    assert_eq!(actions.try_locks, Vec::<u64>::new());
}

#[test]
fn respawn_of_living_player_is_fatal() {
    let mut r = Roster::new(vec![ship(1, 5), ship(2, 4)], 1).unwrap();
    let before_player = r.player;
    assert!(matches!(
        r.apply_delta(&vec![ship(1, 10)], &Vec::new()),
        Err(ProtocolError::DuplicateIdentity)
    ));
    // The failed delta mutated nothing.
    assert_eq!(r.player, before_player);
    assert_eq!(r.others.len(), 1);
}

#[test]
fn removing_an_unknown_identity_is_fatal() {
    let mut r = Roster::new(vec![ship(1, 5)], 1).unwrap();
    assert!(matches!(
        r.apply_delta(&Vec::new(), &vec![42]),
        Err(ProtocolError::UnknownIdentity)
    ));
    assert!(matches!(
        r.apply_delta(&Vec::new(), &vec![2, 2]),
        Err(ProtocolError::UnknownIdentity)
    ));
}

#[test]
fn duplicate_add_of_living_third_party_is_fatal() {
    let mut r = Roster::new(vec![ship(1, 5), ship(2, 4)], 1).unwrap();
    assert!(matches!(
        r.apply_delta(&vec![ship(2, 9)], &Vec::new()),
        Err(ProtocolError::DuplicateIdentity)
    ));
    assert_eq!(r.others[0].hp, 4);
}

#[test]
fn dead_third_party_entry_is_replaced_and_lock_attempted() {
    let mut r = Roster::new(vec![ship(1, 5), ship(2, 0)], 1).unwrap();
    let fresh = ship(2, 8);
    let actions = r.apply_delta(&vec![fresh, ship(6, 3)], &Vec::new()).unwrap();
    assert_eq!(r.others.len(), 2);
    assert_eq!(r.others[0], fresh);
    assert_eq!(r.others[1].id, 6);
    assert_eq!(actions.try_locks, vec![2, 6]);
    assert_eq!(actions.release_locks, Vec::<u64>::new());
}

#[test]
fn record_hp_and_mark_dead_exploding() {
    let mut r = Roster::new(vec![ship(1, 5), ship(2, 4)], 1).unwrap();
    r.record_hp(2, 0).unwrap();
    r.record_hp(1, 0).unwrap();
    assert_eq!(r.record_hp(9, 3), Err(ProtocolError::UnknownIdentity));
    r.mark_dead_exploding();
    assert!(r.player.exploding);
    assert!(r.others[0].exploding);
}

#[test]
fn shield_module_charges_only_while_powered_and_below_capacity() {
    let module = ShieldModule::new();
    assert_eq!(module.base, ModuleBase::new(1, 1, 2, 2, 3));
    let shield = module.module;
    let mut s = ship(1, 5);
    s.max_shields = 2;

    let unpowered = module.base;
    shield.after_simulation(&unpowered, &mut s);
    assert_eq!(s.shields, 0);

    let powered = ModuleBase { powered: true, ..module.base };
    shield.after_simulation(&powered, &mut s);
    assert_eq!(s.shields, 1);
    shield.after_simulation(&powered, &mut s);
    assert_eq!(s.shields, 2);
    shield.after_simulation(&powered, &mut s);
    assert_eq!(s.shields, 2);
}

#[test]
fn shield_activation_grants_and_withdraws_capacity() {
    let module = ShieldModule::new();
    let shield = module.module;
    let mut s = ship(1, 5);
    shield.on_activated(&mut s);
    assert_eq!(s.max_shields, 2);
    s.shields = 2;
    shield.on_deactivated(&mut s);
    assert_eq!(s.max_shields, 0);
    assert_eq!(s.shields, 0);
}

#[test]
fn sprite_frame_layout_arithmetic() {
    assert_eq!(frame_size(100, 60, 10, 6), (10, 10));
    assert_eq!(frame_size(90, 33, 4, 2), (22, 16));
    // Frame 13 on a five-column sheet of 16 by 24 frames sits at column 3,
    // row 2.
    assert_eq!(frame_source_origin(13, 5, 16, 24), (48, 48));
    assert_eq!(frame_source_origin(0, 5, 16, 24), (0, 0));
}
