//! The movement system: the player's response to a directional input
//! event, clamped to the map extents, and the laws of repeated movement.

use crate::components::Position;
use crate::store::{EntityStore, StoreView};
use vstd::prelude::*;

verus! {

/// A directional input event. The input collaborator supplies at most one
/// per frame; its absence is no event, never an error.
#[derive(PartialEq, Eq, Structural, Copy, Clone, Debug)]
pub enum Direction {
    Left,
    Right,
    Up,
    Down,
}

/// The horizontal step of a directional event.
pub open spec fn delta_x_of(d: Direction) -> int {
    match d {
        Direction::Left => -1,
        Direction::Right => 1,
        Direction::Up => 0,
        Direction::Down => 0,
    }
}

/// The vertical step of a directional event.
pub open spec fn delta_y_of(d: Direction) -> int {
    match d {
        Direction::Left => 0,
        Direction::Right => 0,
        Direction::Up => -1,
        Direction::Down => 1,
    }
}

/// `v` clamped into `[lo, hi]`.
pub open spec fn clamp_coord(v: int, lo: int, hi: int) -> int {
    if v < lo {
        lo
    } else if v > hi {
        hi
    } else {
        v
    }
}

/// A position moved by `(dx, dy)` and clamped to the map extents:
/// clamping, not wrapping, and not blocking on walls.
pub open spec fn moved_position(p: Position, dx: int, dy: int) -> Position {
    Position {
        x: clamp_coord(p.x + dx, 0, 79) as i32,
        y: clamp_coord(p.y + dy, 0, 49) as i32,
    }
}

/// The position storage after the movement system ran: every entity
/// holding both the Player marker and a Position moves by the clamped
/// step; every other slot is untouched.
pub open spec fn moved_positions(
    players: Seq<bool>,
    positions: Seq<Option<Position>>,
    dx: int,
    dy: int,
) -> Seq<Option<Position>> {
    Seq::new(
        positions.len(),
        |i: int|
            if 0 <= i < players.len() && players[i] && positions[i] is Some {
                Some(moved_position(positions[i]->0, dx, dy))
            } else {
                positions[i]
            },
    )
}

/// The whole store after the movement system ran: only the position
/// storage changes, and only in the player slots.
pub open spec fn moved_view(v: StoreView, dx: int, dy: int) -> StoreView {
    StoreView { positions: moved_positions(v.players, v.positions, dx, dy), ..v }
}

/// Moves every entity holding both the Player marker and a Position by
/// `(delta_x, delta_y)`, clamped to `[0, 79] x [0, 49]`.
pub fn try_move_player(delta_x: i32, delta_y: i32, ecs: &mut EntityStore)
    requires
        old(ecs)@.wf(),
    ensures
        final(ecs)@.wf(),
        final(ecs)@ == moved_view(old(ecs)@, delta_x as int, delta_y as int),
{
    let ghost orig = old(ecs)@;
    let n = ecs.positions.len();
    let mut i: usize = 0;
    while i < n
        invariant
            i <= n,
            orig.wf(),
            n == orig.positions.len(),
            ecs@.renderables == orig.renderables,
            ecs@.players == orig.players,
            ecs@.monsters == orig.monsters,
            ecs@.viewsheds == orig.viewsheds,
            ecs@.pending == orig.pending,
            ecs@.positions.len() == n,
            forall|k: int|
                0 <= k < i ==> ecs@.positions[k] == moved_positions(
                    orig.players,
                    orig.positions,
                    delta_x as int,
                    delta_y as int,
                )[k],
            forall|k: int| i <= k < n ==> ecs@.positions[k] == orig.positions[k],
        decreases n - i,
    {
        if ecs.players[i] {
            match ecs.positions[i] {
                Some(pos) => {
                    let long_x: i64 = pos.x as i64 + delta_x as i64;
                    let long_y: i64 = pos.y as i64 + delta_y as i64;
                    let new_x: i32 = if long_x < 0 {
                        0
                    } else if long_x > 79 {
                        79
                    } else {
                        long_x as i32
                    };
                    let new_y: i32 = if long_y < 0 {
                        0
                    } else if long_y > 49 {
                        49
                    } else {
                        long_y as i32
                    };
                    ecs.positions.set(i, Some(Position { x: new_x, y: new_y }));
                },
                None => {},
            }
        }
        i = i + 1;
    }
    proof {
        assert(final(ecs)@.positions =~= moved_positions(
            orig.players,
            orig.positions,
            delta_x as int,
            delta_y as int,
        ));
        assert(final(ecs)@ =~= moved_view(orig, delta_x as int, delta_y as int));
    }
}

/// The store after the frame's input phase: no event moves nothing; a
/// directional event runs the movement system with its step.
pub open spec fn input_view(v: StoreView, key: Option<Direction>) -> StoreView {
    match key {
        Option::None => v,
        Option::Some(d) => moved_view(v, delta_x_of(d), delta_y_of(d)),
    }
}

/// A position under `k` repeated steps of the clamped movement.
pub open spec fn repeat_moved(p: Position, dx: int, dy: int, k: nat) -> Position
    decreases k,
{
    if k == 0 {
        p
    } else {
        moved_position(repeat_moved(p, dx, dy, (k - 1) as nat), dx, dy)
    }
}

/// Movement clamp law, Left: repeated Left input walks x down one cell a
/// step, never below 0, and x stays 0 from the x-th step on; y is untouched.
pub proof fn lemma_repeated_left(p: Position, k: nat)
    requires
        p.wf(),
    ensures
        repeat_moved(p, -1, 0, k).wf(),
        repeat_moved(p, -1, 0, k).y == p.y,
        repeat_moved(p, -1, 0, k).x as int == (if k >= p.x as int {
            0int
        } else {
            p.x as int - k
        }),
    decreases k,
{
    if k > 0 {
        lemma_repeated_left(p, (k - 1) as nat);
    }
}

/// Movement clamp law, Right: repeated Right input walks x up one cell a
/// step, never past 79, and x stays 79 from the (79 - x)-th step on.
pub proof fn lemma_repeated_right(p: Position, k: nat)
    requires
        p.wf(),
    ensures
        repeat_moved(p, 1, 0, k).wf(),
        repeat_moved(p, 1, 0, k).y == p.y,
        repeat_moved(p, 1, 0, k).x as int == (if k >= 79 - p.x as int {
            79int
        } else {
            p.x as int + k
        }),
    decreases k,
{
    if k > 0 {
        lemma_repeated_right(p, (k - 1) as nat);
    }
}

/// Movement clamp law, Up: repeated Up input walks y down to 0 and holds.
pub proof fn lemma_repeated_up(p: Position, k: nat)
    requires
        p.wf(),
    ensures
        repeat_moved(p, 0, -1, k).wf(),
        repeat_moved(p, 0, -1, k).x == p.x,
        repeat_moved(p, 0, -1, k).y as int == (if k >= p.y as int {
            0int
        } else {
            p.y as int - k
        }),
    decreases k,
{
    if k > 0 {
        lemma_repeated_up(p, (k - 1) as nat);
    }
}

/// Movement clamp law, Down: repeated Down input walks y up to 49 and holds.
pub proof fn lemma_repeated_down(p: Position, k: nat)
    requires
        p.wf(),
    ensures
        repeat_moved(p, 0, 1, k).wf(),
        repeat_moved(p, 0, 1, k).x == p.x,
        repeat_moved(p, 0, 1, k).y as int == (if k >= 49 - p.y as int {
            49int
        } else {
            p.y as int + k
        }),
    decreases k,
{
    if k > 0 {
        lemma_repeated_down(p, (k - 1) as nat);
    }
}

} // verus!
