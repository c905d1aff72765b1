use rogue_core::map::{new_map_rooms_and_corridors, xy_idx, TileType};
use rogue_core::rect::Rect;

#[test]
fn index_corners_and_center() {
    assert_eq!(xy_idx(0, 0), 0);
    assert_eq!(xy_idx(79, 0), 79);
    assert_eq!(xy_idx(0, 1), 80);
    assert_eq!(xy_idx(79, 49), 3999);
    assert_eq!(xy_idx(40, 25), 2040);
}

#[test]
fn index_is_injective_on_the_map() {
    // Every in-bounds pair gets its own cell and every index is below 4000.
    let mut seen = vec![false; 4000];
    for y in 0..50 {
        for x in 0..80 {
            let idx = xy_idx(x, y);
            assert!(idx < 4000);
            assert!(!seen[idx]);
            seen[idx] = true;
        }
    }
}

#[test]
fn rect_new_and_center() {
    let room = Rect::new(20, 15, 10, 15);
    assert_eq!(room.x1, 20);
    assert_eq!(room.y1, 15);
    assert_eq!(room.x2, 30);
    assert_eq!(room.y2, 30);
    assert_eq!(room.center(), (25, 22));
}

#[test]
fn rect_intersect() {
    let a = Rect::new(20, 15, 10, 15);
    let b = Rect::new(35, 15, 10, 15);
    let c = Rect::new(25, 20, 10, 5);
    assert!(!a.intersect(&b));
    assert!(a.intersect(&c));
    assert!(c.intersect(&a));
    assert!(b.intersect(&c));
    assert!(a.intersect(&a));
}

#[test]
fn generation_returns_the_two_rooms() {
    let (rooms, map) = new_map_rooms_and_corridors();
    assert_eq!(map.len(), 4000);
    assert_eq!(rooms.len(), 2);
    assert_eq!(rooms[0], Rect { x1: 20, y1: 15, x2: 30, y2: 30 });
    assert_eq!(rooms[1], Rect { x1: 35, y1: 15, x2: 45, y2: 30 });
    assert_eq!(rooms[0].center(), (25, 22));
}

#[test]
fn generation_carves_exactly_the_two_interiors() {
    let (_rooms, map) = new_map_rooms_and_corridors();
    let mut floors = 0;
    for y in 0..50 {
        for x in 0..80 {
            let in_room1 = (21..=30).contains(&x) && (16..=30).contains(&y);
            let in_room2 = (36..=45).contains(&x) && (16..=30).contains(&y);
            let tile = map[xy_idx(x, y)];
            if in_room1 || in_room2 {
                assert_eq!(tile, TileType::Floor);
            } else {
                assert_eq!(tile, TileType::Wall);
            }
        }
    }
    for tile in &map {
        if *tile == TileType::Floor {
            floors += 1;
        }
    }
    // two 10x15 interiors
    assert_eq!(floors, 300);
}

#[test]
fn generation_keeps_the_one_tile_border() {
    let (_rooms, map) = new_map_rooms_and_corridors();
    // top and left edges of room one stay wall; its interior edge is floor
    assert_eq!(map[xy_idx(20, 16)], TileType::Wall);
    assert_eq!(map[xy_idx(21, 15)], TileType::Wall);
    assert_eq!(map[xy_idx(21, 16)], TileType::Floor);
    assert_eq!(map[xy_idx(30, 30)], TileType::Floor);
    assert_eq!(map[xy_idx(31, 16)], TileType::Wall);
    assert_eq!(map[xy_idx(30, 31)], TileType::Wall);
    // the gap between the rooms stays wall
    for y in 0..50 {
        assert_eq!(map[xy_idx(33, y)], TileType::Wall);
    }
}
