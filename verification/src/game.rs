//! The game-state container and the per-frame cycle:
//! apply input -> commit queued mutations -> render. The host collects the
//! input event, hands it to `tick`, and forwards the returned draw
//! commands to its output surface.

use crate::components::{black, black_exec, yellow, yellow_exec, Position, Renderable};
use crate::map::{generated_tile, in_map_bounds, new_map_rooms_and_corridors, tile_index, TileType};
use crate::player::{
    delta_x_of, delta_y_of, input_view, repeat_moved, try_move_player, Direction,
};
use crate::render::{
    cp437_of, draw_map, entity_cmd, entity_draw_seq, map_draw_seq, render_entities, DrawCommand,
};
use crate::store::{committed_view, queued_view, EntityStore, Spawn, StoreView};
use vstd::prelude::*;

verus! {

/// The game state: the entity store and the tile map, the two process-wide
/// resources, owned here and passed by reference into each system.
pub struct State {
    pub ecs: EntityStore,
    pub map: Vec<TileType>,
}

impl State {
    /// The state invariant: a well-formed store and a full-size map.
    pub open spec fn wf(self) -> bool {
        self.ecs@.wf() && self.map@.len() == 4000
    }

    /// Runs the frame's systems and ends with the commit barrier; in this
    /// scope no system other than movement exists, so only the barrier runs.
    pub fn run_systems(&mut self)
        requires
            old(self).wf(),
        ensures
            final(self).wf(),
            final(self).map@ == old(self).map@,
            final(self).ecs@ == committed_view(old(self).ecs@),
    {
        self.ecs.maintain();
    }

    /// One frame: movement from the input event, the commit barrier, then
    /// the render projection of the map with the entities drawn on top.
    /// Returns the frame's ordered draw commands.
    pub fn tick(&mut self, key: Option<Direction>) -> (cmds: Vec<DrawCommand>)
        requires
            old(self).wf(),
        ensures
            final(self).wf(),
            final(self).map@ == old(self).map@,
            final(self).ecs@ == frame_store(old(self).ecs@, key),
            cmds@ == render_seq(old(self).map@, frame_store(old(self).ecs@, key)),
    {
        player_input(self, key);
        self.run_systems();
        let mut cmds = draw_map(&self.map);
        let mut entity_cmds = render_entities(&self.ecs.positions, &self.ecs.renderables);
        cmds.append(&mut entity_cmds);
        cmds
    }
}

/// Applies the frame's input event: a directional event runs the movement
/// system with the matching step; no event is a no-op.
pub fn player_input(gs: &mut State, key: Option<Direction>)
    requires
        old(gs).wf(),
    ensures
        final(gs).wf(),
        final(gs).map@ == old(gs).map@,
        final(gs).ecs@ == input_view(old(gs).ecs@, key),
{
    match key {
        None => {},
        Some(Direction::Left) => try_move_player(-1, 0, &mut gs.ecs),
        Some(Direction::Right) => try_move_player(1, 0, &mut gs.ecs),
        Some(Direction::Up) => try_move_player(0, -1, &mut gs.ecs),
        Some(Direction::Down) => try_move_player(0, 1, &mut gs.ecs),
    }
}

/// The store a frame leaves behind: the input phase, then the barrier.
pub open spec fn frame_store(v: StoreView, key: Option<Direction>) -> StoreView {
    committed_view(input_view(v, key))
}

/// The frame's render output: the map projection first, then one command
/// per renderable entity, so entities always render on top.
pub open spec fn render_seq(m: Seq<TileType>, v: StoreView) -> Seq<DrawCommand> {
    map_draw_seq(m) + entity_draw_seq(v.positions, v.renderables)
}

/// Movement no-op law: a frame without input moves nothing — every live
/// entity keeps its position records exactly (the barrier only appends).
pub proof fn lemma_no_input_positions_unchanged(v: StoreView)
    ensures
        frame_store(v, None).positions.len() == v.positions.len() + v.pending.len(),
        forall|i: int|
            0 <= i < v.positions.len() ==> frame_store(v, None).positions[i] == v.positions[i],
{
}

/// Movement no-op law, whole store: with nothing queued, a frame without
/// input leaves the store exactly as it was.
pub proof fn lemma_no_input_is_noop(v: StoreView)
    requires
        v.pending.len() == 0,
    ensures
        frame_store(v, None) == v,
{
    assert(frame_store(v, None) =~= v);
}

/// A store under `k` whole frames, each carrying the same input event.
pub open spec fn repeat_frame(v: StoreView, key: Option<Direction>, k: nat) -> StoreView
    decreases k,
{
    if k == 0 {
        v
    } else {
        frame_store(repeat_frame(v, key, (k - 1) as nat), key)
    }
}

/// Movement clamp law across frames: with nothing structural requested,
/// `k` frames of one directional event move every player entity exactly as
/// `k` clamped steps move its position, and touch nothing else. Together
/// with the per-direction laws of repeated movement this pins where the
/// player converges: x to 0 under Left and to 79 under Right, y to 0 under
/// Up and to 49 under Down.
pub proof fn lemma_repeated_frames(v: StoreView, d: Direction, k: nat)
    requires
        v.wf(),
        v.pending.len() == 0,
    ensures
        repeat_frame(v, Some(d), k).wf(),
        repeat_frame(v, Some(d), k).pending.len() == 0,
        repeat_frame(v, Some(d), k).positions.len() == v.positions.len(),
        repeat_frame(v, Some(d), k).renderables == v.renderables,
        repeat_frame(v, Some(d), k).players == v.players,
        repeat_frame(v, Some(d), k).monsters == v.monsters,
        repeat_frame(v, Some(d), k).viewsheds == v.viewsheds,
        forall|i: int|
            0 <= i < v.positions.len() && v.players[i] && v.positions[i] is Some
                ==> repeat_frame(v, Some(d), k).positions[i] == Some(
                repeat_moved(v.positions[i]->0, delta_x_of(d), delta_y_of(d), k),
            ),
        forall|i: int|
            0 <= i < v.positions.len() && !(v.players[i] && v.positions[i] is Some)
                ==> repeat_frame(v, Some(d), k).positions[i] == v.positions[i],
    decreases k,
{
    if k > 0 {
        lemma_repeated_frames(v, d, (k - 1) as nat);
        let prev = repeat_frame(v, Some(d), (k - 1) as nat);
        let cur = repeat_frame(v, Some(d), k);
        assert(cur == frame_store(prev, Some(d)));
        assert(cur.positions =~= crate::player::moved_positions(
            prev.players,
            prev.positions,
            delta_x_of(d),
            delta_y_of(d),
        ));
        assert(cur.renderables =~= prev.renderables);
        assert(cur.players =~= prev.players);
        assert(cur.monsters =~= prev.monsters);
        assert(cur.viewsheds =~= prev.viewsheds);
        assert(cur.pending =~= prev.pending);
    }
}

/// Render determinism law: the render pass is a function of the tile map
/// and the store alone, so two passes over one state emit identical
/// ordered command sequences.
pub proof fn lemma_render_deterministic(
    m: Seq<TileType>,
    v: StoreView,
    c1: Seq<DrawCommand>,
    c2: Seq<DrawCommand>,
)
    requires
        c1 == render_seq(m, v),
        c2 == render_seq(m, v),
    ensures
        c1 == c2,
{
}

/// Commit-barrier law: a spawn requested during a frame is never seen by
/// the movement of that frame — the input phase still acts on exactly the
/// previously live slots — yet is live for the render phase of the same
/// frame, which draws it whenever it carries a Position and a Renderable.
pub proof fn lemma_commit_barrier(
    m: Seq<TileType>,
    v: StoreView,
    s: Spawn,
    key: Option<Direction>,
)
    requires
        v.wf(),
    ensures
        input_view(queued_view(v, s), key).positions.len() == v.positions.len(),
        frame_store(queued_view(v, s), key).positions.len() == v.positions.len()
            + v.pending.len() + 1,
        frame_store(queued_view(v, s), key).positions[v.positions.len() + v.pending.len() as int]
            == s.position,
        frame_store(queued_view(v, s), key).renderables[v.positions.len() + v.pending.len() as int]
            == s.renderable,
        frame_store(queued_view(v, s), key).players[v.positions.len() + v.pending.len() as int]
            == s.player,
        s.position is Some && s.renderable is Some ==> render_seq(
            m,
            frame_store(queued_view(v, s), key),
        ).contains(entity_cmd(s.position->0, s.renderable->0)),
{
    let fv = frame_store(queued_view(v, s), key);
    let idx = v.positions.len() + v.pending.len();
    assert(fv.positions[idx as int] == s.position);
    assert(fv.renderables[idx as int] == s.renderable);
    if s.position is Some && s.renderable is Some {
        crate::render::lemma_entity_drawn(fv.positions, fv.renderables, idx as int);
        let cmd = entity_cmd(s.position->0, s.renderable->0);
        let ecmds = entity_draw_seq(fv.positions, fv.renderables);
        let j = choose|j: int| 0 <= j < ecmds.len() && ecmds[j] == cmd;
        assert(render_seq(m, fv)[map_draw_seq(m).len() + j] == cmd);
    }
}

/// The player's appearance: the '@' glyph, yellow on black.
pub open spec fn player_renderable() -> Renderable {
    Renderable { glyph: cp437_of('@'), fg: yellow(), bg: black() }
}

/// The store of a fresh game: exactly one entity, the player, at the
/// center of the first generated room, with its marker and appearance,
/// and nothing queued.
pub open spec fn initial_store() -> StoreView {
    StoreView {
        positions: seq![Some(Position { x: 25, y: 22 })],
        renderables: seq![Some(player_renderable())],
        players: seq![true],
        monsters: seq![false],
        viewsheds: seq![Option::None],
        pending: Seq::empty(),
    }
}

/// Builds the fresh game state: generates the two-room map and creates
/// the one player entity at the first room's center, carrying Position,
/// Renderable and the Player marker, committed before the first frame.
pub fn new_game() -> (gs: State)
    ensures
        gs.wf(),
        forall|x: int, y: int|
            in_map_bounds(x, y) ==> gs.map@[tile_index(x, y)] == generated_tile(x, y),
        gs.ecs@ == initial_store(),
{
    let (rooms, map) = new_map_rooms_and_corridors();
    let center = rooms[0].center();
    let mut ecs = EntityStore::new();
    ecs.queue_spawn(
        Spawn {
            position: Some(Position { x: center.0, y: center.1 }),
            renderable: Some(Renderable::new('@', yellow_exec(), black_exec())),
            player: true,
            monster: false,
            viewshed: None,
        },
    );
    ecs.maintain();
    proof {
        assert(ecs@ =~= initial_store());
    }
    State { ecs, map }
}

} // verus!
