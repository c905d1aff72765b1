//! The entity store: a typed registry of parallel sparse storages, one per
//! component kind, keyed by entity identifier (the slot index). Structural
//! changes requested during a frame are queued and committed at a single
//! barrier per frame, so systems never observe a half-mutated store.

use crate::components::{Monster, Player, Position, Renderable, Viewshed};
use vstd::prelude::*;

verus! {

/// A structural change awaiting the commit barrier: one new entity and
/// the component records it is created with.
#[derive(Clone, Debug)]
pub struct Spawn {
    pub position: Option<Position>,
    pub renderable: Option<Renderable>,
    pub player: bool,
    pub monster: bool,
    pub viewshed: Option<Viewshed>,
}

/// A queued spawn is well formed when the position it carries (if any)
/// lies on the map.
pub open spec fn spawn_wf(s: Spawn) -> bool {
    s.position is Some ==> s.position->0.wf()
}

/// The mathematical value of an entity store: one sequence per component
/// kind, all of one length (the number of live entities; the identifier of
/// an entity is its index), plus the queued structural changes.
#[verifier::ext_equal]
pub struct StoreView {
    pub positions: Seq<Option<Position>>,
    pub renderables: Seq<Option<Renderable>>,
    pub players: Seq<bool>,
    pub monsters: Seq<bool>,
    pub viewsheds: Seq<Option<Viewshed>>,
    pub pending: Seq<Spawn>,
}

impl StoreView {
    /// Number of live entities.
    pub open spec fn len(self) -> int {
        self.positions.len() as int
    }

    /// Well-formedness: the parallel storages agree on the entity count,
    /// every live position lies on the map, and so does every queued one.
    pub open spec fn wf(self) -> bool {
        &&& self.renderables.len() == self.positions.len()
        &&& self.players.len() == self.positions.len()
        &&& self.monsters.len() == self.positions.len()
        &&& self.viewsheds.len() == self.positions.len()
        &&& forall|i: int|
            0 <= i < self.positions.len() && self.positions[i] is Some
                ==> (#[trigger] self.positions[i])->0.wf()
        &&& forall|i: int| 0 <= i < self.pending.len() ==> spawn_wf(#[trigger] self.pending[i])
    }
}

/// The store after a spawn is queued: the live storages are untouched and
/// the request joins the back of the queue.
pub open spec fn queued_view(v: StoreView, s: Spawn) -> StoreView {
    StoreView { pending: v.pending.push(s), ..v }
}

/// The store after the commit barrier: each queued entity becomes live, in
/// request order, under the next free identifiers; the queue empties.
pub open spec fn committed_view(v: StoreView) -> StoreView {
    StoreView {
        positions: v.positions + v.pending.map_values(|s: Spawn| s.position),
        renderables: v.renderables + v.pending.map_values(|s: Spawn| s.renderable),
        players: v.players + v.pending.map_values(|s: Spawn| s.player),
        monsters: v.monsters + v.pending.map_values(|s: Spawn| s.monster),
        viewsheds: v.viewsheds + v.pending.map_values(|s: Spawn| s.viewshed),
        pending: Seq::empty(),
    }
}

/// The entity store. Component records live in parallel sparse storages;
/// slot `i` of every storage belongs to the entity with identifier `i`.
pub struct EntityStore {
    pub positions: Vec<Option<Position>>,
    pub renderables: Vec<Option<Renderable>>,
    pub players: Vec<bool>,
    pub monsters: Vec<bool>,
    pub viewsheds: Vec<Option<Viewshed>>,
    pub pending: Vec<Spawn>,
}

impl View for EntityStore {
    type V = StoreView;

    open spec fn view(&self) -> StoreView {
        StoreView {
            positions: self.positions@,
            renderables: self.renderables@,
            players: self.players@,
            monsters: self.monsters@,
            viewsheds: self.viewsheds@,
            pending: self.pending@,
        }
    }
}

impl EntityStore {
    /// A fresh store: no entities, nothing queued.
    pub fn new() -> (s: EntityStore)
        ensures
            s@.wf(),
            s@.len() == 0,
            s@.pending.len() == 0,
    {
        EntityStore {
            positions: Vec::new(),
            renderables: Vec::new(),
            players: Vec::new(),
            monsters: Vec::new(),
            viewsheds: Vec::new(),
            pending: Vec::new(),
        }
    }

    /// Number of live entities.
    pub fn entity_count(&self) -> (n: usize)
        ensures
            n == self@.len(),
    {
        self.positions.len()
    }

    /// Requests a new entity with the given component records. The change
    /// is deferred: no live storage moves until the commit barrier.
    pub fn queue_spawn(&mut self, s: Spawn)
        requires
            old(self)@.wf(),
            spawn_wf(s),
        ensures
            final(self)@.wf(),
            final(self)@ == queued_view(old(self)@, s),
    {
        self.pending.push(s);
        assert(final(self)@ =~= queued_view(old(self)@, s));
    }

    /// The commit barrier: applies every queued structural change, in
    /// request order, and leaves the queue empty. Runs at one fixed point
    /// per frame, after the systems and before the render phase.
    pub fn maintain(&mut self)
        requires
            old(self)@.wf(),
        ensures
            final(self)@.wf(),
            final(self)@ == committed_view(old(self)@),
    {
        let ghost orig = old(self)@;
        let n = self.pending.len();
        let mut j: usize = 0;
        while j < n
            invariant
                j <= n,
                n == orig.pending.len(),
                self.pending@ =~= orig.pending.subrange(j as int, n as int),
                self.positions@ =~= orig.positions + orig.pending.subrange(0, j as int).map_values(
                    |s: Spawn| s.position,
                ),
                self.renderables@ =~= orig.renderables + orig.pending.subrange(
                    0,
                    j as int,
                ).map_values(|s: Spawn| s.renderable),
                self.players@ =~= orig.players + orig.pending.subrange(0, j as int).map_values(
                    |s: Spawn| s.player,
                ),
                self.monsters@ =~= orig.monsters + orig.pending.subrange(0, j as int).map_values(
                    |s: Spawn| s.monster,
                ),
                self.viewsheds@ =~= orig.viewsheds + orig.pending.subrange(0, j as int).map_values(
                    |s: Spawn| s.viewshed,
                ),
            decreases n - j,
        {
            let s = self.pending.remove(0);
            assert(s == orig.pending[j as int]);
            self.positions.push(s.position);
            self.renderables.push(s.renderable);
            self.players.push(s.player);
            self.monsters.push(s.monster);
            self.viewsheds.push(s.viewshed);
            proof {
                assert(self.pending@ =~= orig.pending.subrange(j + 1 as int, n as int));
                assert(orig.pending.subrange(0, j + 1 as int).map_values(|s: Spawn| s.position)
                    =~= orig.pending.subrange(0, j as int).map_values(|s: Spawn| s.position).push(
                    orig.pending[j as int].position,
                ));
                assert(orig.pending.subrange(0, j + 1 as int).map_values(|s: Spawn| s.renderable)
                    =~= orig.pending.subrange(0, j as int).map_values(|s: Spawn| s.renderable).push(
                    orig.pending[j as int].renderable,
                ));
                assert(orig.pending.subrange(0, j + 1 as int).map_values(|s: Spawn| s.player)
                    =~= orig.pending.subrange(0, j as int).map_values(|s: Spawn| s.player).push(
                    orig.pending[j as int].player,
                ));
                assert(orig.pending.subrange(0, j + 1 as int).map_values(|s: Spawn| s.monster)
                    =~= orig.pending.subrange(0, j as int).map_values(|s: Spawn| s.monster).push(
                    orig.pending[j as int].monster,
                ));
                assert(orig.pending.subrange(0, j + 1 as int).map_values(|s: Spawn| s.viewshed)
                    =~= orig.pending.subrange(0, j as int).map_values(|s: Spawn| s.viewshed).push(
                    orig.pending[j as int].viewshed,
                ));
            }
            j = j + 1;
        }
        proof {
            assert(orig.pending.subrange(0, n as int) =~= orig.pending);
            assert(final(self)@ =~= committed_view(orig));
            assert forall|i: int|
                0 <= i < final(self)@.positions.len() && final(self)@.positions[i]
                    is Some implies (#[trigger] final(self)@.positions[i])->0.wf() by {
                if i >= orig.positions.len() {
                    assert(final(self)@.positions[i] == orig.pending[i - orig.positions.len()].position);
                    assert(spawn_wf(orig.pending[i - orig.positions.len()]));
                }
            }
        }
    }
}

} // verus!
