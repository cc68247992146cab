//! The live set of ships in the battle, and reconciliation of roster deltas.
//!
//! The roster maps stable ship identities to ship values. The player's own
//! ship is a distinguished, replaceable entry: it is held apart from the other
//! entries, so at most one entry ever carries the player designation. A delta
//! removes identities and adds ships; removing an unknown identity, adding an
//! identity that is already present and still alive, or respawning the player
//! while the previous incarnation is still alive are fatal roster
//! inconsistencies, and a delta that fails mutates nothing.

use vstd::prelude::*;
use crate::ProtocolError;
use crate::ship::{Ship, ShipId};

verus! {

/// Whether some ship in `ships` carries identity `id`.
pub open spec fn has_id(ships: Seq<Ship>, id: ShipId) -> bool {
    exists|i: int| 0 <= i < ships.len() && ships[i].id == id
}

/// The index of the ship carrying identity `id`; meaningful only where `id`
/// occurs, and unique where ids are unique.
pub open spec fn idx_of(ships: Seq<Ship>, id: ShipId) -> int {
    choose|i: int| 0 <= i < ships.len() && ships[i].id == id
}

/// The ship carrying identity `id`.
pub open spec fn ship_with(ships: Seq<Ship>, id: ShipId) -> Ship {
    ships[idx_of(ships, id)]
}

/// `ships` with the entry carrying identity `id` deleted.
pub open spec fn without_id(ships: Seq<Ship>, id: ShipId) -> Seq<Ship> {
    ships.remove(idx_of(ships, id))
}

/// `ships` with the entry carrying `n.id` replaced by `n`.
pub open spec fn replaced(ships: Seq<Ship>, n: Ship) -> Seq<Ship> {
    ships.update(idx_of(ships, n.id), n)
}

/// The third-party entries are well-formed: ids are unique and none of them is
/// the player's.
pub open spec fn others_wf(player_id: ShipId, ships: Seq<Ship>) -> bool {
    &&& forall|i: int, j: int| 0 <= i < j < ships.len() ==> ships[i].id != ships[j].id
    &&& forall|i: int| 0 <= i < ships.len() ==> ships[i].id != player_id
}

/// Where ids are unique, `idx_of` is the one index of the ship carrying `id`.
pub proof fn lemma_idx_of_unique(ships: Seq<Ship>, id: ShipId, i: int)
    requires
        forall|p: int, q: int| 0 <= p < q < ships.len() ==> ships[p].id != ships[q].id,
        0 <= i < ships.len(),
        ships[i].id == id,
    ensures
        idx_of(ships, id) == i,
        has_id(ships, id),
{
    assert(has_id(ships, id));
    let j = idx_of(ships, id);
    assert(0 <= j < ships.len() && ships[j].id == id);
    if i < j {
        assert(ships[i].id != ships[j].id);
    } else if j < i {
        assert(ships[j].id != ships[i].id);
    }
}

/// Sequential application of the removal half of a delta: each removed
/// identity must be present when its removal is processed — the player's entry
/// counts only while it is present — else the delta is a fatal violation.
/// Returns the player's presence and the third-party entries afterwards.
pub open spec fn delta_remove(
    player_id: ShipId,
    present: bool,
    others: Seq<Ship>,
    removed: Seq<ShipId>,
) -> Result<(bool, Seq<Ship>), ProtocolError>
    decreases removed.len(),
{
    if removed.len() == 0 {
        Ok((present, others))
    } else {
        let id = removed[0];
        if id == player_id {
            if present {
                delta_remove(player_id, false, others, removed.skip(1))
            } else {
                Err(ProtocolError::UnknownIdentity)
            }
        } else if has_id(others, id) {
            delta_remove(player_id, present, without_id(others, id), removed.skip(1))
        } else {
            Err(ProtocolError::UnknownIdentity)
        }
    }
}

/// Sequential application of the addition half of a delta. A ship under the
/// player's identity is a respawn: legal only while the player's previous ship
/// has zero hit points, and it becomes the new designated player ship. Any
/// other ship replaces a dead entry under the same identity or is inserted as
/// a new entry; adding over a still-alive entry is a fatal violation. Returns
/// the player ship, the player's presence and the third-party entries
/// afterwards.
pub open spec fn delta_add(
    player: Ship,
    present: bool,
    others: Seq<Ship>,
    added: Seq<Ship>,
) -> Result<(Ship, bool, Seq<Ship>), ProtocolError>
    decreases added.len(),
{
    if added.len() == 0 {
        Ok((player, present, others))
    } else {
        let n = added[0];
        if n.id == player.id {
            if player.hp == 0 {
                delta_add(n, true, others, added.skip(1))
            } else {
                Err(ProtocolError::DuplicateIdentity)
            }
        } else if has_id(others, n.id) {
            if ship_with(others, n.id).hp == 0 {
                delta_add(player, present, replaced(others, n), added.skip(1))
            } else {
                Err(ProtocolError::DuplicateIdentity)
            }
        } else {
            delta_add(player, present, others.push(n), added.skip(1))
        }
    }
}

/// Sequential application of a whole delta: all removals, then all additions.
pub open spec fn delta_apply(
    r: Roster,
    added: Seq<Ship>,
    removed: Seq<ShipId>,
) -> Result<(Ship, bool, Seq<Ship>), ProtocolError> {
    match delta_remove(r.player.id, r.player_present, r.others@, removed) {
        Ok((present, others)) => delta_add(r.player, present, others, added),
        Err(e) => Err(e),
    }
}

/// The identities the presentation layer is asked to acquire a lock on after a
/// delta: every added ship that is not the player's, in arrival order.
pub open spec fn try_lock_ids(added: Seq<Ship>, player_id: ShipId) -> Seq<ShipId>
    decreases added.len(),
{
    if added.len() == 0 {
        Seq::empty()
    } else {
        let rest = try_lock_ids(added.drop_last(), player_id);
        if added.last().id == player_id {
            rest
        } else {
            rest.push(added.last().id)
        }
    }
}

/// What the presentation layer must be asked to do after a delta was applied:
/// locks to release for removed ships, and locks to attempt on added ones
/// (best effort; a refused lock is not an error).
pub struct RosterActions {
    /// Identities whose presentation locks must be released, in removal order.
    pub release_locks: Vec<ShipId>,
    /// Identities to attempt a presentation lock on, in arrival order.
    pub try_locks: Vec<ShipId>,
}

/// The live set of ships of the battle, with the player's ship as the
/// distinguished, replaceable entry.
pub struct Roster {
    /// The player's own ship: the client's held handle to it, kept even while
    /// the entry has been removed from the shared set.
    pub player: Ship,
    /// Whether the player's entry is currently part of the shared set.
    pub player_present: bool,
    /// Every other ship of the battle.
    pub others: Vec<Ship>,
}

impl Roster {
    /// Ids of the third-party entries are unique and distinct from the
    /// player's.
    pub open spec fn wf(self) -> bool {
        others_wf(self.player.id, self.others@)
    }

    /// Builds the roster of a fresh battle from the ships the server handed
    /// over, designating the entry carrying `player_id` as the player's ship.
    /// Fails with `UnknownIdentity` when no ship carries `player_id`, and with
    /// `DuplicateIdentity` when two ships share an identity.
    pub fn new(ships: Vec<Ship>, player_id: ShipId) -> (r: Result<Roster, ProtocolError>)
        ensures
            match r {
                Ok(roster) => {
                    &&& roster.wf()
                    &&& has_id(ships@, player_id)
                    &&& roster.player == ship_with(ships@, player_id)
                    &&& roster.player_present
                    &&& roster.others@ == without_id(ships@, player_id)
                    &&& forall|p: int, q: int|
                        0 <= p < q < ships@.len() ==> ships@[p].id != ships@[q].id
                },
                Err(e) => {
                    &&& (e == ProtocolError::DuplicateIdentity || e
                        == ProtocolError::UnknownIdentity)
                    &&& e == ProtocolError::UnknownIdentity ==> !has_id(ships@, player_id)
                        && (forall|p: int, q: int|
                            0 <= p < q < ships@.len() ==> ships@[p].id != ships@[q].id)
                    &&& e == ProtocolError::DuplicateIdentity ==> exists|p: int, q: int|
                        0 <= p < q < ships@.len() && ships@[p].id == ships@[q].id
                },
            },
    {
        // Reject duplicated identities outright: they mean the server and the
        // client already disagree about the battle.
        let n = ships.len();
        let mut p: usize = 0;
        while p < n
            invariant
                n == ships@.len(),
                forall|a: int, b: int| 0 <= a < b < ships@.len() && a < p ==> ships@[a].id != ships@[b].id,
            decreases n - p,
        {
            let mut q: usize = p + 1;
            while q < n
                invariant
                    n == ships@.len(),
                    p < n,
                    p < q,
                    forall|b: int| p < b < q ==> ships@[p as int].id != ships@[b].id,
                decreases n - q,
            {
                if ships[p].id == ships[q].id {
                    return Err(ProtocolError::DuplicateIdentity);
                }
                q = q + 1;
            }
            p = p + 1;
        }
        let player_at = match find_index(&ships, player_id) {
            Some(i) => i,
            None => {
                return Err(ProtocolError::UnknownIdentity);
            },
        };
        proof {
            lemma_idx_of_unique(ships@, player_id, player_at as int);
        }
        let player = ships[player_at];
        let mut others = ships;
        others.remove(player_at);
        let roster = Roster { player, player_present: true, others };
        proof {
            assert forall|i: int| 0 <= i < roster.others@.len() implies roster.others@[i].id
                != player_id by {
                if i < player_at {
                    assert(roster.others@[i] == ships@[i]);
                } else {
                    assert(roster.others@[i] == ships@[i + 1]);
                }
            }
            assert forall|i: int, j: int| 0 <= i < j < roster.others@.len() implies roster.others@[i].id
                != roster.others@[j].id by {
                let si = if i < player_at { i } else { i + 1 };
                let sj = if j < player_at { j } else { j + 1 };
                assert(roster.others@[i] == ships@[si]);
                assert(roster.others@[j] == ships@[sj]);
            }
        }
        Ok(roster)
    }

    /// Applies one ship-delta message: deletes each removed identity, then
    /// inserts each added ship, with the respawn and duplicate rules of
    /// [`delta_remove`] and [`delta_add`]. On success the returned actions name
    /// the presentation locks to release and to attempt; on failure the roster
    /// is left exactly as it was.
    pub fn apply_delta(&mut self, added: &Vec<Ship>, removed: &Vec<ShipId>) -> (r: Result<
        RosterActions,
        ProtocolError,
    >)
        requires
            old(self).wf(),
        ensures
            final(self).wf(),
            final(self).player.id == old(self).player.id,
            match r {
                Ok(actions) => {
                    &&& delta_apply(*old(self), added@, removed@) == Ok::<
                        _,
                        ProtocolError,
                    >((final(self).player, final(self).player_present, final(self).others@))
                    &&& actions.release_locks@ == removed@
                    &&& actions.try_locks@ == try_lock_ids(added@, old(self).player.id)
                },
                Err(e) => {
                    &&& delta_apply(*old(self), added@, removed@) == Err::<
                        (Ship, bool, Seq<Ship>),
                        _,
                    >(e)
                    &&& *final(self) == *old(self)
                },
            },
    {
        let ghost orig = *self;
        // Work on copies and commit only on success, so a fatal delta leaves
        // the roster untouched.
        let mut player = self.player;
        let mut present = self.player_present;
        let mut work: Vec<Ship> = Vec::new();
        let mut k: usize = 0;
        while k < self.others.len()
            invariant
                k <= self.others@.len(),
                work@ == self.others@.take(k as int),
            decreases self.others@.len() - k,
        {
            work.push(self.others[k]);
            k = k + 1;
        }
        assert(work@ =~= self.others@);

        let pid = player.id;
        let mut release_locks: Vec<ShipId> = Vec::new();
        assert(removed@.skip(0) =~= removed@);
        assert(release_locks@ =~= removed@.take(0));
        let mut k: usize = 0;
        while k < removed.len()
            invariant
                *self == orig,
                orig.wf(),
                k <= removed@.len(),
                player == orig.player,
                pid == player.id,
                others_wf(pid, work@),
                release_locks@ == removed@.take(k as int),
                delta_remove(pid, orig.player_present, orig.others@, removed@) == delta_remove(
                    pid,
                    present,
                    work@,
                    removed@.skip(k as int),
                ),
            decreases removed@.len() - k,
        {
            let id = removed[k];
            proof {
                assert(removed@.skip(k as int)[0] == id);
                assert(removed@.skip(k as int).skip(1) =~= removed@.skip(k as int + 1));
            }
            if id == pid {
                if present {
                    present = false;
                } else {
                    assert(delta_remove(pid, present, work@, removed@.skip(k as int)) == Err::<
                        (bool, Seq<Ship>),
                        _,
                    >(ProtocolError::UnknownIdentity));
                    return Err(ProtocolError::UnknownIdentity);
                }
            } else {
                match find_index(&work, id) {
                    Some(i) => {
                        proof {
                            lemma_idx_of_unique(work@, id, i as int);
                        }
                        let ghost before = work@;
                        work.remove(i);
                        proof {
                            assert forall|a: int, b: int| 0 <= a < b < work@.len() implies work@[a].id
                                != work@[b].id by {
                                let sa = if a < i { a } else { a + 1 };
                                let sb = if b < i { b } else { b + 1 };
                                assert(work@[a] == before[sa]);
                                assert(work@[b] == before[sb]);
                            }
                            assert forall|a: int| 0 <= a < work@.len() implies work@[a].id != pid by {
                                let sa = if a < i { a } else { a + 1 };
                                assert(work@[a] == before[sa]);
                            }
                        }
                    },
                    None => {
                        assert(delta_remove(pid, present, work@, removed@.skip(k as int)) == Err::<
                            (bool, Seq<Ship>),
                            _,
                        >(ProtocolError::UnknownIdentity));
                        return Err(ProtocolError::UnknownIdentity);
                    },
                }
            }
            release_locks.push(id);
            proof {
                assert(release_locks@ =~= removed@.take(k as int + 1));
            }
            k = k + 1;
        }
        assert(release_locks@ =~= removed@);
        assert(removed@.skip(removed@.len() as int) =~= Seq::<ShipId>::empty());
        assert(delta_remove(pid, orig.player_present, orig.others@, removed@) == Ok::<
            _,
            ProtocolError,
        >((present, work@)));

        let mut try_locks: Vec<ShipId> = Vec::new();
        let ghost after_remove_present = present;
        let ghost after_remove_others = work@;
        assert(added@.skip(0) =~= added@);
        assert(added@.take(0) =~= Seq::<Ship>::empty());
        let mut k: usize = 0;
        while k < added.len()
            invariant
                *self == orig,
                orig.wf(),
                k <= added@.len(),
                player.id == pid,
                pid == orig.player.id,
                others_wf(pid, work@),
                delta_remove(pid, orig.player_present, orig.others@, removed@) == Ok::<
                    _,
                    ProtocolError,
                >((after_remove_present, after_remove_others)),
                try_locks@ == try_lock_ids(added@.take(k as int), pid),
                delta_add(orig.player, after_remove_present, after_remove_others, added@)
                    == delta_add(player, present, work@, added@.skip(k as int)),
            decreases added@.len() - k,
        {
            let n = added[k];
            proof {
                assert(added@.skip(k as int)[0] == n);
                assert(added@.skip(k as int).skip(1) =~= added@.skip(k as int + 1));
                assert(added@.take(k as int + 1).drop_last() =~= added@.take(k as int));
                assert(added@.take(k as int + 1).last() == n);
            }
            if n.id == pid {
                if player.hp == 0 {
                    player = n;
                    present = true;
                } else {
                    assert(delta_add(player, present, work@, added@.skip(k as int)) == Err::<
                        (Ship, bool, Seq<Ship>),
                        _,
                    >(ProtocolError::DuplicateIdentity));
                    return Err(ProtocolError::DuplicateIdentity);
                }
            } else {
                match find_index(&work, n.id) {
                    Some(i) => {
                        proof {
                            lemma_idx_of_unique(work@, n.id, i as int);
                        }
                        if work[i].hp == 0 {
                            let ghost before = work@;
                            work[i] = n;
                            proof {
                                assert forall|a: int, b: int| 0 <= a < b < work@.len() implies work@[a].id
                                    != work@[b].id by {
                                    assert(before[a].id != before[b].id);
                                }
                            }
                        } else {
                            assert(delta_add(player, present, work@, added@.skip(k as int))
                                == Err::<(Ship, bool, Seq<Ship>), _>(
                                ProtocolError::DuplicateIdentity,
                            ));
                            return Err(ProtocolError::DuplicateIdentity);
                        }
                    },
                    None => {
                        work.push(n);
                    },
                }
                try_locks.push(n.id);
            }
            k = k + 1;
        }
        assert(try_locks@ == try_lock_ids(added@, pid)) by {
            assert(added@.take(added@.len() as int) =~= added@);
        }
        assert(added@.skip(added@.len() as int) =~= Seq::<Ship>::empty());

        self.player = player;
        self.player_present = present;
        self.others = work;
        Ok(RosterActions { release_locks, try_locks })
    }

    /// Records the hit points the simulation collaborator reports for a ship
    /// after replay; the ship must be known. The player's held ship is updated
    /// even while its entry is not part of the shared set.
    pub fn record_hp(&mut self, id: ShipId, hp: u32) -> (r: Result<(), ProtocolError>)
        requires
            old(self).wf(),
        ensures
            final(self).wf(),
            final(self).player.id == old(self).player.id,
            match r {
                Ok(()) => {
                    &&& final(self).player_present == old(self).player_present
                    &&& if id == old(self).player.id {
                        &&& final(self).player == (Ship { hp, ..old(self).player })
                        &&& final(self).others@ == old(self).others@
                    } else {
                        &&& has_id(old(self).others@, id)
                        &&& final(self).player == old(self).player
                        &&& final(self).others@ == replaced(
                            old(self).others@,
                            Ship { hp, ..ship_with(old(self).others@, id) },
                        )
                    }
                },
                Err(e) => {
                    &&& e == ProtocolError::UnknownIdentity
                    &&& id != old(self).player.id
                    &&& !has_id(old(self).others@, id)
                    &&& *final(self) == *old(self)
                },
            },
    {
        if id == self.player.id {
            self.player.hp = hp;
            return Ok(());
        }
        match find_index(&self.others, id) {
            Some(i) => {
                proof {
                    lemma_idx_of_unique(self.others@, id, i as int);
                }
                let ghost before = self.others@;
                let updated = Ship { hp, ..self.others[i] };
                self.others[i] = updated;
                proof {
                    assert forall|a: int, b: int| 0 <= a < b < self.others@.len() implies self.others@[a].id
                        != self.others@[b].id by {
                        assert(before[a].id != before[b].id);
                    }
                }
                Ok(())
            },
            None => Err(ProtocolError::UnknownIdentity),
        }
    }

    /// Marks every ship whose hit points reached zero as exploding — the
    /// presentation and removal trigger for the next turn's cycle, not an
    /// immediate removal. Run at turn end, after the simulation outcome has
    /// been recorded.
    pub fn mark_dead_exploding(&mut self)
        requires
            old(self).wf(),
        ensures
            final(self).wf(),
            final(self).player == mark_exploded(old(self).player),
            final(self).player_present == old(self).player_present,
            final(self).others@.len() == old(self).others@.len(),
            forall|i: int| 0 <= i < final(self).others@.len() ==> final(self).others@[i]
                == mark_exploded(old(self).others@[i]),
    {
        if self.player.hp == 0 {
            self.player.exploding = true;
        }
        let ghost orig = self.others@;
        let ghost player_now = self.player;
        let ghost present_now = self.player_present;
        let mut k: usize = 0;
        while k < self.others.len()
            invariant
                k <= self.others@.len(),
                self.others@.len() == orig.len(),
                self.player == player_now,
                self.player_present == present_now,
                forall|i: int| 0 <= i < k ==> self.others@[i] == mark_exploded(orig[i]),
                forall|i: int| k <= i < orig.len() ==> self.others@[i] == orig[i],
            decreases self.others@.len() - k,
        {
            if self.others[k].hp == 0 {
                let updated = Ship { exploding: true, ..self.others[k] };
                self.others[k] = updated;
            }
            k = k + 1;
        }
        proof {
            assert forall|a: int, b: int| 0 <= a < b < self.others@.len() implies self.others@[a].id
                != self.others@[b].id by {
                assert(orig[a].id != orig[b].id);
            }
            assert forall|a: int| 0 <= a < self.others@.len() implies self.others@[a].id
                != self.player.id by {
                assert(orig[a].id != old(self).player.id);
            }
        }
    }

    /// The identities whose presentation locks must be released at turn start:
    /// every ship of the shared set that is exploding or jumping, the player's
    /// included, in roster order with the player first.
    pub fn unlock_candidates(&self) -> (r: Vec<ShipId>)
        ensures
            r@ == unlock_ids(*self),
    {
        let mut r: Vec<ShipId> = Vec::new();
        if self.player_present && (self.player.exploding || self.player.jumping) {
            r.push(self.player.id);
        }
        let mut k: usize = 0;
        while k < self.others.len()
            invariant
                k <= self.others@.len(),
                r@ == unlock_prefix(*self, k as int),
            decreases self.others@.len() - k,
        {
            proof {
                assert(self.others@.take(k as int + 1).drop_last() =~= self.others@.take(k as int));
                assert(self.others@.take(k as int + 1).last() == self.others@[k as int]);
            }
            if self.others[k].exploding || self.others[k].jumping {
                r.push(self.others[k].id);
            }
            k = k + 1;
        }
        proof {
            assert(self.others@.take(self.others@.len() as int) =~= self.others@);
        }
        r
    }
}

/// `s` with the exploding flag set when its hit points are zero.
pub open spec fn mark_exploded(s: Ship) -> Ship {
    if s.hp == 0 {
        Ship { exploding: true, ..s }
    } else {
        s
    }
}

/// Ids of the exploding or jumping ships among `ships`, in order.
pub open spec fn exploding_or_jumping_ids(ships: Seq<Ship>) -> Seq<ShipId>
    decreases ships.len(),
{
    if ships.len() == 0 {
        Seq::empty()
    } else {
        let rest = exploding_or_jumping_ids(ships.drop_last());
        if ships.last().exploding || ships.last().jumping {
            rest.push(ships.last().id)
        } else {
            rest
        }
    }
}

/// The whole unlock list of a roster: the player's entry while present, then
/// the third-party entries.
pub open spec fn unlock_ids(r: Roster) -> Seq<ShipId> {
    unlock_prefix(r, r.others@.len() as int)
}

/// The unlock list restricted to the first `k` third-party entries.
pub open spec fn unlock_prefix(r: Roster, k: int) -> Seq<ShipId> {
    let head: Seq<ShipId> = if r.player_present && (r.player.exploding || r.player.jumping) {
        seq![r.player.id]
    } else {
        Seq::empty()
    };
    head + exploding_or_jumping_ids(r.others@.take(k))
}

/// The index of the first — under unique ids, the only — ship carrying `id`,
/// or `None` when no ship does.
fn find_index(ships: &Vec<Ship>, id: ShipId) -> (r: Option<usize>)
    ensures
        match r {
            Some(i) => 0 <= i < ships@.len() && ships@[i as int].id == id,
            None => !has_id(ships@, id),
        },
{
    let mut k: usize = 0;
    while k < ships.len()
        invariant
            k <= ships@.len(),
            forall|j: int| 0 <= j < k ==> ships@[j].id != id,
        decreases ships@.len() - k,
    {
        if ships[k].id == id {
            return Some(k);
        }
        k = k + 1;
    }
    None
}

/// Law (respawn): a delta that removes some other ship `x` and adds a ship `n`
/// under the player's identity, while the player's previous ship has zero hit
/// points, succeeds; afterwards the player's designated ship is exactly the
/// new entry, it is part of the shared set, and neither the old player entry
/// nor `x` remains anywhere in the roster.
pub proof fn lemma_respawn_replaces_player(r: Roster, n: Ship, x: ShipId)
    requires
        r.wf(),
        r.player.hp == 0,
        n.id == r.player.id,
        x != r.player.id,
        has_id(r.others@, x),
    ensures
        ({
            let res = delta_apply(r, seq![n], seq![x]);
            &&& res is Ok
            &&& res->Ok_0.0 == n
            &&& res->Ok_0.1 == true
            &&& !has_id(res->Ok_0.2, n.id)
            &&& !has_id(res->Ok_0.2, x)
        }),
{
    let removed: Seq<ShipId> = seq![x];
    let added: Seq<Ship> = seq![n];
    let after = without_id(r.others@, x);
    assert(removed.skip(1) =~= Seq::<ShipId>::empty());
    assert(added.skip(1) =~= Seq::<Ship>::empty());
    assert(removed[0] == x && added[0] == n);
    assert(delta_remove(r.player.id, r.player_present, r.others@, removed) == delta_remove(
        r.player.id,
        r.player_present,
        after,
        Seq::<ShipId>::empty(),
    ));
    assert(delta_remove(r.player.id, r.player_present, after, Seq::<ShipId>::empty()) == Ok::<
        _,
        ProtocolError,
    >((r.player_present, after)));
    assert(delta_add(r.player, r.player_present, after, added) == delta_add(
        n,
        true,
        after,
        Seq::<Ship>::empty(),
    ));
    assert(delta_add(n, true, after, Seq::<Ship>::empty()) == Ok::<_, ProtocolError>(
        (n, true, after),
    ));
    let ix = idx_of(r.others@, x);
    assert(0 <= ix < r.others@.len() && r.others@[ix].id == x);
    assert forall|i: int| 0 <= i < after.len() implies after[i].id != x && after[i].id != n.id by {
        let si = if i < ix {
            i
        } else {
            i + 1
        };
        assert(after[i] == r.others@[si]);
        if si < ix {
            assert(r.others@[si].id != r.others@[ix].id);
        } else if si > ix {
            assert(r.others@[ix].id != r.others@[si].id);
        }
    }
}

/// Law (no respawn of the living): a delta that adds a ship under the player's
/// identity while the player's current ship still has hit points is a fatal
/// duplicate-identity violation.
pub proof fn lemma_respawn_of_living_player_rejected(r: Roster, n: Ship)
    requires
        r.wf(),
        r.player.hp != 0,
        n.id == r.player.id,
    ensures
        delta_apply(r, seq![n], Seq::empty()) == Err::<(Ship, bool, Seq<Ship>), _>(
            ProtocolError::DuplicateIdentity,
        ),
{
    assert(delta_remove(r.player.id, r.player_present, r.others@, Seq::empty()) == Ok::<
        _,
        ProtocolError,
    >((r.player_present, r.others@)));
    assert(seq![n][0] == n);
    assert(delta_add(r.player, r.player_present, r.others@, seq![n]) == Err::<
        (Ship, bool, Seq<Ship>),
        _,
    >(ProtocolError::DuplicateIdentity));
}

} // verus!
