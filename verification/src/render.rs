//! Render projection: a pure read of the tile map and of the entity store
//! into an ordered sequence of draw commands. The host forwards each
//! command to its output surface; nothing here touches a screen.

use crate::components::{black, black_exec, gray, gray_exec, green, green_exec, Position, Renderable};
use crate::map::TileType;
use vstd::prelude::*;

verus! {

/// Code-page-437 code point that the terminal library assigns to a
/// character; a fixed table, so the result depends on the character alone.
pub uninterp spec fn cp437_of(c: char) -> u16;

/// Relies on rltk::to_cp437: looks a character up in the fixed
/// code-page-437 table (returning 0 where the table has no entry).
#[verifier::external_body]
pub(crate) fn to_cp437(c: char) -> (r: u16)
    ensures
        r == cp437_of(c),
{
    rltk::to_cp437(c)
}

/// One draw command for the output surface: a glyph and a color pair
/// placed at a cell.
#[derive(PartialEq, Eq, Structural, Copy, Clone, Debug)]
pub struct DrawCommand {
    pub x: i32,
    pub y: i32,
    pub fg: crate::components::Rgb,
    pub bg: crate::components::Rgb,
    pub glyph: u16,
}

/// The character drawn for a tile kind: '.' for Floor, '#' for Wall.
pub open spec fn tile_char(t: TileType) -> char {
    match t {
        TileType::Floor => '.',
        TileType::Wall => '#',
    }
}

/// The foreground color of a tile kind: mid-gray Floor, green Wall.
pub open spec fn tile_fg(t: TileType) -> crate::components::Rgb {
    match t {
        TileType::Floor => gray(),
        TileType::Wall => green(),
    }
}

/// The draw command the map projection emits for cell `i` of `m`:
/// the cell's coordinates recovered row-major, the tile's color pair
/// on a black background, and the tile's glyph.
pub open spec fn map_draw_command(m: Seq<TileType>, i: int) -> DrawCommand {
    DrawCommand {
        x: (i % 80) as i32,
        y: (i / 80) as i32,
        fg: tile_fg(m[i]),
        bg: black(),
        glyph: cp437_of(tile_char(m[i])),
    }
}

/// The whole map projection: one command per cell, in row-major order.
pub open spec fn map_draw_seq(m: Seq<TileType>) -> Seq<DrawCommand> {
    Seq::new(m.len(), |i: int| map_draw_command(m, i))
}

/// Projects the map into draw commands, walking the cells in row-major
/// order with an (x, y) cursor that wraps at the end of each row.
pub fn draw_map(map: &Vec<TileType>) -> (cmds: Vec<DrawCommand>)
    requires
        map.len() <= 4000,
    ensures
        cmds@ == map_draw_seq(map@),
{
    let floor_glyph = to_cp437('.');
    let wall_glyph = to_cp437('#');
    let mut cmds: Vec<DrawCommand> = Vec::new();
    let mut x: i32 = 0;
    let mut y: i32 = 0;
    let mut i: usize = 0;
    while i < map.len()
        invariant
            i <= map.len() <= 4000,
            cmds.len() == i,
            x == i as int % 80,
            y == i as int / 80,
            floor_glyph == cp437_of('.'),
            wall_glyph == cp437_of('#'),
            forall|k: int| 0 <= k < i ==> cmds@[k] == map_draw_command(map@, k),
        decreases map.len() - i,
    {
        let tile = map[i];
        match tile {
            TileType::Floor => {
                cmds.push(
                    DrawCommand { x, y, fg: gray_exec(), bg: black_exec(), glyph: floor_glyph },
                );
            },
            TileType::Wall => {
                cmds.push(
                    DrawCommand { x, y, fg: green_exec(), bg: black_exec(), glyph: wall_glyph },
                );
            },
        }
        x = x + 1;
        if x > 79 {
            x = 0;
            y = y + 1;
        }
        i = i + 1;
    }
    assert(cmds@ =~= map_draw_seq(map@));
    cmds
}

/// The draw command that places an entity's glyph at its position.
pub open spec fn entity_cmd(p: Position, r: Renderable) -> DrawCommand {
    DrawCommand { x: p.x, y: p.y, fg: r.fg, bg: r.bg, glyph: r.glyph }
}

/// The commands the render join emits: one per entity holding both a
/// Position and a Renderable, in stable creation (identifier) order.
pub open spec fn entity_draw_seq(
    positions: Seq<Option<Position>>,
    renderables: Seq<Option<Renderable>>,
) -> Seq<DrawCommand>
    decreases positions.len(),
{
    if positions.len() == 0 {
        Seq::empty()
    } else {
        let i = positions.len() - 1;
        let rest = entity_draw_seq(positions.drop_last(), renderables.drop_last());
        if positions[i] is Some && renderables[i] is Some {
            rest.push(entity_cmd(positions[i]->0, renderables[i]->0))
        } else {
            rest
        }
    }
}

/// Emits one draw command per entity holding both a Position and a
/// Renderable, joined by shared identifier, in creation order.
pub fn render_entities(
    positions: &Vec<Option<Position>>,
    renderables: &Vec<Option<Renderable>>,
) -> (cmds: Vec<DrawCommand>)
    requires
        positions.len() == renderables.len(),
    ensures
        cmds@ == entity_draw_seq(positions@, renderables@),
{
    let mut cmds: Vec<DrawCommand> = Vec::new();
    let mut i: usize = 0;
    while i < positions.len()
        invariant
            i <= positions.len(),
            positions.len() == renderables.len(),
            cmds@ == entity_draw_seq(positions@.subrange(0, i as int), renderables@.subrange(0, i as int)),
        decreases positions.len() - i,
    {
        match (&positions[i], &renderables[i]) {
            (Some(p), Some(r)) => {
                cmds.push(DrawCommand { x: p.x, y: p.y, fg: r.fg, bg: r.bg, glyph: r.glyph });
            },
            _ => {},
        }
        proof {
            let pre_p = positions@.subrange(0, i as int);
            let pre_r = renderables@.subrange(0, i as int);
            let cur_p = positions@.subrange(0, i + 1 as int);
            let cur_r = renderables@.subrange(0, i + 1 as int);
            assert(cur_p.drop_last() =~= pre_p);
            assert(cur_r.drop_last() =~= pre_r);
            assert(cur_p[i as int] == positions@[i as int]);
            assert(cur_r[i as int] == renderables@[i as int]);
        }
        i = i + 1;
    }
    proof {
        assert(positions@.subrange(0, positions@.len() as int) =~= positions@);
        assert(renderables@.subrange(0, renderables@.len() as int) =~= renderables@);
    }
    cmds
}

/// Every entity holding both a Position and a Renderable is drawn: the
/// render join's output contains its command.
pub proof fn lemma_entity_drawn(
    positions: Seq<Option<Position>>,
    renderables: Seq<Option<Renderable>>,
    i: int,
)
    requires
        positions.len() == renderables.len(),
        0 <= i < positions.len(),
        positions[i] is Some,
        renderables[i] is Some,
    ensures
        entity_draw_seq(positions, renderables).contains(entity_cmd(positions[i]->0, renderables[i]->0)),
    decreases positions.len(),
{
    let last = positions.len() - 1;
    let rest = entity_draw_seq(positions.drop_last(), renderables.drop_last());
    if i == last {
        let s = entity_draw_seq(positions, renderables);
        assert(s == rest.push(entity_cmd(positions[i]->0, renderables[i]->0)));
        assert(s[s.len() - 1] == entity_cmd(positions[i]->0, renderables[i]->0));
    } else {
        lemma_entity_drawn(positions.drop_last(), renderables.drop_last(), i);
        let cmd = entity_cmd(positions[i]->0, renderables[i]->0);
        let j = choose|j: int| 0 <= j < rest.len() && rest[j] == cmd;
        let s = entity_draw_seq(positions, renderables);
        assert(s[j] == cmd);
    }
}

} // verus!
