//! The replicated state store and the movement integrator.
//!
//! The store is the single registry of players. On the authority it is the
//! source of truth, mutated only through its narrow write methods; on a
//! client it is a read-only mirror refreshed by `apply_snapshot`. The
//! single-writer rule of the design is enforced here: every write method
//! that only the authority may use takes the process `Role` and rejects a
//! non-authority caller without touching the state.

use crate::color::Color;
use crate::fixed::{add_sat, move_delta, sat_add, step_component, Vec2Fx};
use crate::intent::{is_unit_dir, lemma_unit_dir_components, MoveIntent};
use crate::player::Player;
use vstd::prelude::*;

verus! {

/// Whether this process hosts the authoritative simulation. Decided once
/// at startup; there is no role migration.
#[derive(Clone, Copy, PartialEq, Eq, Structural, Debug)]
pub enum Role {
    /// The server, or the combined server+client of single-player mode.
    Authority,
    /// A pure client: it mirrors replicated state and never simulates.
    Client,
}

/// A programming error the store refuses: a non-authority process tried
/// to mutate authoritative state directly.
#[derive(Clone, Copy, PartialEq, Eq, Structural, Debug)]
pub enum StoreError {
    UnauthorizedMutation,
}

/// What became of a received movement intent.
#[derive(Clone, Copy, PartialEq, Eq, Structural, Debug)]
pub enum ApplyOutcome {
    /// The sender's player was moved.
    Applied,
    /// The sender has no live player (a stale message racing a
    /// disconnect); the intent was discarded without error.
    StaleIntentIgnored,
}

/// No two players share a client id.
pub open spec fn unique_ids(s: Seq<Player>) -> bool {
    forall|i: int, j: int|
        0 <= i < s.len() && 0 <= j < s.len() && i != j ==> s[i].client_id != s[j].client_id
}

/// Some player carries this client id.
pub open spec fn contains_id(s: Seq<Player>, id: u64) -> bool {
    exists|i: int| 0 <= i < s.len() && s[i].client_id == id
}

/// The index of the player with this id, where one exists.
pub open spec fn index_of_id(s: Seq<Player>, id: u64) -> int {
    choose|i: int| 0 <= i < s.len() && s[i].client_id == id
}

/// A player moved by a coordinate shift, saturating at the `i64` range.
pub open spec fn shifted(p: Player, dx: int, dy: int) -> Player {
    Player {
        position: Vec2Fx {
            x: sat_add(p.position.x as int, dx) as i64,
            y: sat_add(p.position.y as int, dy) as i64,
        },
        ..p
    }
}

/// Every player with the given id shifted by `(dx, dy)`; all others kept.
pub open spec fn shift_all(s: Seq<Player>, id: u64, dx: int, dy: int) -> Seq<Player> {
    Seq::new(
        s.len(),
        |i: int|
            if s[i].client_id == id {
                shifted(s[i], dx, dy)
            } else {
                s[i]
            },
    )
}

/// Shifting players of an id that none carries changes nothing.
pub proof fn lemma_shift_all_absent(s: Seq<Player>, id: u64, dx: int, dy: int)
    requires
        !contains_id(s, id),
    ensures
        shift_all(s, id, dx, dy) == s,
{
    assert(shift_all(s, id, dx, dy) =~= s);
}

/// One snapshot entry folded into a mirror: an existing player with the
/// entry's id is overwritten in place, a new one is appended.
pub open spec fn upsert(s: Seq<Player>, e: Player) -> Seq<Player> {
    if contains_id(s, e.client_id) {
        s.update(index_of_id(s, e.client_id), e)
    } else {
        s.push(e)
    }
}

/// The first `n` snapshot entries folded into a mirror, in order.
pub open spec fn upsert_all(s: Seq<Player>, entries: Seq<Player>, n: int) -> Seq<Player>
    decreases n,
{
    if n <= 0 {
        s
    } else {
        upsert(upsert_all(s, entries, n - 1), entries[n - 1])
    }
}

/// The first `n` entries of a registry, upserted into an empty mirror in
/// order, rebuild exactly that prefix.
proof fn lemma_upsert_prefix(s: Seq<Player>, n: int)
    requires
        unique_ids(s),
        0 <= n <= s.len(),
    ensures
        upsert_all(Seq::empty(), s, n) == s.subrange(0, n),
    decreases n,
{
    if n > 0 {
        lemma_upsert_prefix(s, n - 1);
        let prev = s.subrange(0, n - 1);
        assert forall|j: int| 0 <= j < prev.len() implies prev[j].client_id != s[n
            - 1].client_id by {
            assert(prev[j] == s[j]);
        }
        assert(!contains_id(prev, s[n - 1].client_id));
        assert(upsert(prev, s[n - 1]) == prev.push(s[n - 1]));
        assert(prev.push(s[n - 1]) =~= s.subrange(0, n));
    } else {
        assert(upsert_all(Seq::empty(), s, 0) =~= s.subrange(0, 0));
    }
}

/// Law: applying a whole snapshot of the authority's registry to an empty
/// mirror reproduces the registry exactly, entry for entry and in order.
pub proof fn lemma_snapshot_rebuilds_mirror(s: Seq<Player>)
    requires
        unique_ids(s),
    ensures
        upsert_all(Seq::empty(), s, s.len() as int) == s,
{
    lemma_upsert_prefix(s, s.len() as int);
    assert(s.subrange(0, s.len() as int) =~= s);
}

/// A registry with the player of this id removed, order kept; unchanged
/// when no player carries the id.
pub open spec fn remove_id(s: Seq<Player>, id: u64) -> Seq<Player> {
    if contains_id(s, id) {
        s.remove(index_of_id(s, id))
    } else {
        s
    }
}

/// Law: integrating a unit-direction intent over `ms` milliseconds moves
/// the sender's player, and only the sender's player, by exactly
/// `direction * ms * SPEED / MS_PER_SEC` in each coordinate — stated
/// division-free — whenever the result stays in the coordinate range.
pub proof fn lemma_integration_exact(s: Seq<Player>, id: u64, d: Vec2Fx, ms: int, i: int)
    requires
        is_unit_dir(d),
        0 <= ms,
        0 <= i < s.len(),
        s[i].client_id == id,
        i64::MIN <= s[i].position.x + move_delta(d.x as int, ms) <= i64::MAX,
        i64::MIN <= s[i].position.y + move_delta(d.y as int, ms) <= i64::MAX,
    ensures
        ({
            let moved = shift_all(s, id, move_delta(d.x as int, ms), move_delta(d.y as int, ms));
            &&& moved[i].position.x == s[i].position.x + move_delta(d.x as int, ms)
            &&& moved[i].position.y == s[i].position.y + move_delta(d.y as int, ms)
            &&& (moved[i].position.x - s[i].position.x) * (crate::fixed::MS_PER_SEC as int) == (
            d.x as int) * ms * (crate::fixed::SPEED as int)
            &&& (moved[i].position.y - s[i].position.y) * (crate::fixed::MS_PER_SEC as int) == (
            d.y as int) * ms * (crate::fixed::SPEED as int)
            &&& forall|j: int|
                0 <= j < s.len() && s[j].client_id != id ==> #[trigger] moved[j] == s[j]
        }),
{
    lemma_unit_dir_components(d);
    crate::fixed::lemma_unit_component_divisible(d.x as int);
    crate::fixed::lemma_unit_component_divisible(d.y as int);
    crate::fixed::lemma_move_delta_formula(d.x as int, ms);
    crate::fixed::lemma_move_delta_formula(d.y as int, ms);
}

/// The shared registry of replicated players.
pub struct ReplicatedStore {
    players: Vec<Player>,
}

impl View for ReplicatedStore {
    type V = Seq<Player>;

    /// The players, in spawn order.
    closed spec fn view(&self) -> Seq<Player> {
        self.players@
    }
}

impl ReplicatedStore {
    /// Exactly one player per connected client.
    pub open spec fn wf(&self) -> bool {
        unique_ids(self@)
    }

    /// An empty registry: no client has connected yet.
    pub fn new() -> (s: ReplicatedStore)
        ensures
            s@ == Seq::<Player>::empty(),
            s.wf(),
    {
        ReplicatedStore { players: Vec::new() }
    }

    /// How many players are live.
    pub fn len(&self) -> (n: usize)
        ensures
            n == self@.len(),
    {
        self.players.len()
    }

    /// The index of the player with this client id, if any is live.
    fn find_index(&self, client_id: u64) -> (r: Option<usize>)
        ensures
            match r {
                Some(i) => i < self@.len() && self@[i as int].client_id == client_id,
                None => !contains_id(self@, client_id),
            },
    {
        let mut i: usize = 0;
        while i < self.players.len()
            invariant
                i <= self@.len(),
                forall|j: int| 0 <= j < i ==> self@[j].client_id != client_id,
            decreases self@.len() - i,
        {
            if self.players[i].client_id == client_id {
                return Some(i);
            }
            i = i + 1;
        }
        None
    }

    /// A read-only copy of the player spawned for this client id.
    pub fn get(&self, client_id: u64) -> (r: Option<Player>)
        requires
            self.wf(),
        ensures
            match r {
                Some(p) => contains_id(self@, client_id) && p.client_id == client_id
                    && self@.contains(p),
                None => !contains_id(self@, client_id),
            },
    {
        match self.find_index(client_id) {
            Some(i) => {
                let p = self.players[i];
                proof {
                    assert(self@[i as int] == p);
                }
                Some(p)
            },
            None => None,
        }
    }

    /// Registers the player of a newly connected client. A duplicate id is
    /// refused without touching the store, keeping exactly one player per
    /// client; otherwise the player is appended.
    pub fn create_player(&mut self, client_id: u64, position: Vec2Fx, color: Color) -> (spawned:
        bool)
        requires
            old(self).wf(),
        ensures
            final(self).wf(),
            spawned == !contains_id(old(self)@, client_id),
            spawned ==> final(self)@ == old(self)@.push(Player { client_id, position, color }),
            !spawned ==> final(self)@ == old(self)@,
    {
        match self.find_index(client_id) {
            Some(_) => false,
            None => {
                let ghost s0 = self@;
                self.players.push(Player::new(client_id, position, color));
                proof {
                    assert forall|i: int, j: int|
                        0 <= i < self@.len() && 0 <= j < self@.len() && i != j implies self@[
                    i].client_id != self@[j].client_id by {
                        if i < s0.len() && j < s0.len() {
                            assert(s0[i].client_id != s0[j].client_id);
                        }
                    }
                }
                true
            },
        }
    }

    /// The store's one write path for positions: shifts the position of
    /// the player carrying this client id by `(dx, dy)`, saturating at the
    /// `i64` coordinate range. Only the authority may mutate; any other
    /// role is rejected with `UnauthorizedMutation` and the store is left
    /// untouched. A missing id moves nothing: `Ok(false)` reports it.
    pub fn mutate_position(&mut self, role: Role, client_id: u64, dx: i64, dy: i64) -> (r: Result<
        bool,
        StoreError,
    >)
        requires
            old(self).wf(),
        ensures
            final(self).wf(),
            role == Role::Client ==> r == Err::<bool, StoreError>(StoreError::UnauthorizedMutation)
                && final(self)@ == old(self)@,
            role == Role::Authority ==> final(self)@ == shift_all(
                old(self)@,
                client_id,
                dx as int,
                dy as int,
            ) && r == Ok::<bool, StoreError>(contains_id(old(self)@, client_id)),
    {
        if let Role::Client = role {
            return Err(StoreError::UnauthorizedMutation);
        }
        let ghost s0 = self@;
        match self.find_index(client_id) {
            None => {
                proof {
                    lemma_shift_all_absent(s0, client_id, dx as int, dy as int);
                }
                Ok(false)
            },
            Some(i) => {
                let p = self.players[i];
                let np = Player {
                    client_id: p.client_id,
                    position: Vec2Fx {
                        x: add_sat(p.position.x, dx),
                        y: add_sat(p.position.y, dy),
                    },
                    color: p.color,
                };
                self.players[i] = np;
                proof {
                    assert(self@ =~= shift_all(s0, client_id, dx as int, dy as int));
                    assert(unique_ids(self@));
                }
                Ok(true)
            },
        }
    }

    /// The movement integrator: advances the sender's player by the intent
    /// direction at `SPEED` world units per second over `elapsed_ms`
    /// milliseconds — each coordinate moves by exactly
    /// `move_delta(direction, elapsed_ms)`. Authority-only; an intent from
    /// a sender with no live player is silently discarded.
    pub fn apply_intent(&mut self, role: Role, sender: u64, intent: &MoveIntent, elapsed_ms: u32)
        -> (r: Result<ApplyOutcome, StoreError>)
        requires
            old(self).wf(),
            is_unit_dir(intent.direction),
        ensures
            final(self).wf(),
            role == Role::Client ==> r == Err::<ApplyOutcome, StoreError>(
                StoreError::UnauthorizedMutation,
            ) && final(self)@ == old(self)@,
            role == Role::Authority ==> {
                &&& final(self)@ == shift_all(
                    old(self)@,
                    sender,
                    move_delta(intent.direction.x as int, elapsed_ms as int),
                    move_delta(intent.direction.y as int, elapsed_ms as int),
                )
                &&& contains_id(old(self)@, sender) ==> r == Ok::<ApplyOutcome, StoreError>(
                    ApplyOutcome::Applied,
                )
                &&& !contains_id(old(self)@, sender) ==> r == Ok::<ApplyOutcome, StoreError>(
                    ApplyOutcome::StaleIntentIgnored,
                ) && final(self)@ == old(self)@
            },
    {
        proof {
            lemma_unit_dir_components(intent.direction);
        }
        let dx = step_component(intent.direction.x, elapsed_ms);
        let dy = step_component(intent.direction.y, elapsed_ms);
        match self.mutate_position(role, sender, dx, dy) {
            Err(e) => Err(e),
            Ok(true) => Ok(ApplyOutcome::Applied),
            Ok(false) => Ok(ApplyOutcome::StaleIntentIgnored),
        }
    }

    /// The per-tick outbound snapshot: a copy of every player record, in
    /// store order, for transmission to non-authority processes.
    pub fn snapshot(&self) -> (r: Vec<Player>)
        ensures
            r@ == self@,
    {
        let mut out: Vec<Player> = Vec::new();
        let mut i: usize = 0;
        while i < self.players.len()
            invariant
                i <= self@.len(),
                out@ == self@.subrange(0, i as int),
            decreases self@.len() - i,
        {
            out.push(self.players[i]);
            proof {
                assert(out@ =~= self@.subrange(0, i + 1));
            }
            i = i + 1;
        }
        proof {
            assert(self@.subrange(0, self@.len() as int) =~= self@);
        }
        out
    }

    /// Folds one received snapshot entry into this mirror.
    fn upsert_one(&mut self, e: Player)
        requires
            old(self).wf(),
        ensures
            final(self).wf(),
            final(self)@ == upsert(old(self)@, e),
    {
        let ghost s0 = self@;
        match self.find_index(e.client_id) {
            Some(i) => {
                self.players[i] = e;
                proof {
                    let k = index_of_id(s0, e.client_id);
                    assert(contains_id(s0, e.client_id));
                    assert(0 <= k < s0.len() && s0[k].client_id == e.client_id);
                    assert(k == i);
                    assert(self@ == upsert(s0, e));
                    assert forall|a: int, b: int|
                        0 <= a < self@.len() && 0 <= b < self@.len() && a != b implies self@[
                    a].client_id != self@[b].client_id by {
                        assert(s0[a].client_id != s0[b].client_id);
                    }
                }
            },
            None => {
                self.players.push(e);
                proof {
                    assert forall|a: int, b: int|
                        0 <= a < self@.len() && 0 <= b < self@.len() && a != b implies self@[
                    a].client_id != self@[b].client_id by {
                        if a < s0.len() && b < s0.len() {
                            assert(s0[a].client_id != s0[b].client_id);
                        }
                    }
                }
            },
        }
    }

    /// Applies a received snapshot to this process's read-only mirror:
    /// each entry upserts the matching player, in entry order. Players
    /// absent from a snapshot are retained — removal happens only through
    /// an explicit disconnect relay.
    pub fn apply_snapshot(&mut self, entries: &Vec<Player>)
        requires
            old(self).wf(),
        ensures
            final(self).wf(),
            final(self)@ == upsert_all(old(self)@, entries@, entries@.len() as int),
    {
        let ghost s0 = self@;
        let mut k: usize = 0;
        while k < entries.len()
            invariant
                k <= entries@.len(),
                self.wf(),
                self@ == upsert_all(s0, entries@, k as int),
            decreases entries@.len() - k,
        {
            self.upsert_one(entries[k]);
            k = k + 1;
        }
    }

    /// Removes the player spawned for this client id, if one is live.
    /// Removing an id with no live player — a duplicate disconnect — is a
    /// no-op, not an error.
    pub fn remove_player(&mut self, client_id: u64) -> (removed: bool)
        requires
            old(self).wf(),
        ensures
            final(self).wf(),
            removed == contains_id(old(self)@, client_id),
            final(self)@ == remove_id(old(self)@, client_id),
            !contains_id(final(self)@, client_id),
    {
        let ghost s0 = self@;
        match self.find_index(client_id) {
            Some(i) => {
                self.players.remove(i);
                proof {
                    let k = index_of_id(s0, client_id);
                    assert(contains_id(s0, client_id));
                    assert(0 <= k < s0.len() && s0[k].client_id == client_id);
                    assert(k == i);
                    s0.remove_ensures(i as int);
                    assert forall|a: int, b: int|
                        0 <= a < self@.len() && 0 <= b < self@.len() && a != b implies self@[
                    a].client_id != self@[b].client_id by {
                        let oa: int = if a < i {
                            a
                        } else {
                            a + 1
                        };
                        let ob: int = if b < i {
                            b
                        } else {
                            b + 1
                        };
                        assert(self@[a] == s0[oa]);
                        assert(self@[b] == s0[ob]);
                        assert(s0[oa].client_id != s0[ob].client_id);
                    }
                    assert forall|a: int| 0 <= a < self@.len() implies self@[a].client_id
                        != client_id by {
                        let oa: int = if a < i {
                            a
                        } else {
                            a + 1
                        };
                        assert(self@[a] == s0[oa]);
                        assert(s0[oa].client_id != client_id);
                    }
                }
                true
            },
            None => false,
        }
    }
}

} // verus!
