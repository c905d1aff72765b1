//! The tile map: a fixed 80x50 grid of tile kinds, the row-major
//! coordinate-to-index mapping, and the deterministic two-room generator.

use crate::rect::Rect;
use vstd::prelude::*;

verus! {

/// The kind of one map cell. There are no other states.
#[derive(PartialEq, Eq, Structural, Copy, Clone, Debug)]
pub enum TileType {
    Wall,
    Floor,
}

/// Row-major index of the cell at `(x, y)`: `y * width + x`.
pub open spec fn tile_index(x: int, y: int) -> int {
    y * 80 + x
}

/// True when `(x, y)` lies on the map.
pub open spec fn in_map_bounds(x: int, y: int) -> bool {
    0 <= x < 80 && 0 <= y < 50
}

/// Maps an in-bounds coordinate pair to its row-major cell index.
/// Callers must supply in-bounds coordinates; there is no checked wrapper.
pub fn xy_idx(x: i32, y: i32) -> (r: usize)
    requires
        in_map_bounds(x as int, y as int),
    ensures
        r == tile_index(x as int, y as int),
        r < 4000,
{
    (y as usize * 80) + x as usize
}

/// The index mapping is injective on the map: two in-bounds coordinate
/// pairs with the same index are the same pair.
pub proof fn lemma_tile_index_injective(x1: int, y1: int, x2: int, y2: int)
    requires
        in_map_bounds(x1, y1),
        in_map_bounds(x2, y2),
        tile_index(x1, y1) == tile_index(x2, y2),
    ensures
        x1 == x2 && y1 == y2,
{
}

/// Every in-bounds coordinate pair has an index below the tile count.
pub proof fn lemma_tile_index_in_range(x: int, y: int)
    requires
        in_map_bounds(x, y),
    ensures
        0 <= tile_index(x, y) < 4000,
{
}

/// True when the cell `(x, y)` belongs to the carved interior of `room`:
/// the carve keeps a one-tile wall border on the room's top and left edges,
/// so both ranges are exclusive below and inclusive above.
pub open spec fn carves(room: Rect, x: int, y: int) -> bool {
    room.x1 + 1 <= x <= room.x2 && room.y1 + 1 <= y <= room.y2
}

/// True when every cell `room` carves lies on the map.
pub open spec fn room_on_map(room: Rect) -> bool {
    0 <= room.x1 && room.x2 < 80 && 0 <= room.y1 && room.y2 < 50
}

/// Carves `room` into `map`: every cell of the room's interior becomes
/// Floor and every other cell keeps its previous kind.
pub fn apply_room_to_map(room: &Rect, map: &mut Vec<TileType>)
    requires
        old(map).len() == 4000,
        room.wf(),
        room_on_map(*room),
    ensures
        final(map).len() == 4000,
        forall|x: int, y: int|
            in_map_bounds(x, y) ==> final(map)@[tile_index(x, y)] == (if carves(*room, x, y) {
                TileType::Floor
            } else {
                old(map)@[tile_index(x, y)]
            }),
{
    let mut y: i32 = room.y1 + 1;
    while y <= room.y2
        invariant
            map.len() == 4000,
            room.wf(),
            room_on_map(*room),
            room.y1 + 1 <= y <= room.y2 + 1,
            forall|xx: int, yy: int|
                in_map_bounds(xx, yy) ==> map@[tile_index(xx, yy)] == (if carves(*room, xx, yy)
                    && yy < y {
                    TileType::Floor
                } else {
                    old(map)@[tile_index(xx, yy)]
                }),
        decreases room.y2 + 1 - y,
    {
        let mut x: i32 = room.x1 + 1;
        while x <= room.x2
            invariant
                map.len() == 4000,
                room.wf(),
                room_on_map(*room),
                room.y1 + 1 <= y <= room.y2,
                room.x1 + 1 <= x <= room.x2 + 1,
                forall|xx: int, yy: int|
                    in_map_bounds(xx, yy) ==> map@[tile_index(xx, yy)] == (if carves(
                        *room,
                        xx,
                        yy,
                    ) && (yy < y || (yy == y && xx < x)) {
                        TileType::Floor
                    } else {
                        old(map)@[tile_index(xx, yy)]
                    }),
            decreases room.x2 + 1 - x,
        {
            let idx = xy_idx(x, y);
            map.set(idx, TileType::Floor);
            x = x + 1;
        }
        y = y + 1;
    }
}

/// The first room of the two-room layout: `Rect::new(20, 15, 10, 15)`.
pub open spec fn room1_spec() -> Rect {
    Rect { x1: 20, y1: 15, x2: 30, y2: 30 }
}

/// The second room of the two-room layout: `Rect::new(35, 15, 10, 15)`.
pub open spec fn room2_spec() -> Rect {
    Rect { x1: 35, y1: 15, x2: 45, y2: 30 }
}

/// The kind the two-room generator gives the cell `(x, y)`: Floor inside
/// either room's carved interior, Wall everywhere else.
pub open spec fn generated_tile(x: int, y: int) -> TileType {
    if carves(room1_spec(), x, y) || carves(room2_spec(), x, y) {
        TileType::Floor
    } else {
        TileType::Wall
    }
}

/// Builds the two-room map: every cell starts as Wall and the two fixed
/// rooms are carved in creation order. Returns the rooms (so the caller
/// can place the player at the first room's center) and the finished map.
pub fn new_map_rooms_and_corridors() -> (r: (Vec<Rect>, Vec<TileType>))
    ensures
        r.0.len() == 2,
        r.0@[0] == room1_spec(),
        r.0@[1] == room2_spec(),
        r.1.len() == 4000,
        forall|x: int, y: int|
            in_map_bounds(x, y) ==> r.1@[tile_index(x, y)] == generated_tile(x, y),
{
    let mut map: Vec<TileType> = Vec::new();
    let mut i: usize = 0;
    while i < 4000
        invariant
            map.len() == i,
            i <= 4000,
            forall|k: int| 0 <= k < i ==> map@[k] == TileType::Wall,
        decreases 4000 - i,
    {
        map.push(TileType::Wall);
        i = i + 1;
    }

    let room1 = Rect::new(20, 15, 10, 15);
    let room2 = Rect::new(35, 15, 10, 15);

    apply_room_to_map(&room1, &mut map);
    apply_room_to_map(&room2, &mut map);

    let mut rooms: Vec<Rect> = Vec::new();
    rooms.push(room1);
    rooms.push(room2);
    (rooms, map)
}

} // verus!
