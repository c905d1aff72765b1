use rogue_core::components::{Position, Renderable, Rgb};
use rogue_core::game::new_game;
use rogue_core::map::TileType;
use rogue_core::player::Direction;
use rogue_core::render::{draw_map, render_entities, DrawCommand};
use rogue_core::store::Spawn;

const BLACK: Rgb = Rgb { r: 0, g: 0, b: 0 };
const GRAY: Rgb = Rgb { r: 128, g: 128, b: 128 };
const GREEN: Rgb = Rgb { r: 0, g: 255, b: 0 };
const YELLOW: Rgb = Rgb { r: 255, g: 255, b: 0 };

#[test]
fn fresh_game_has_one_player_at_room_center() {
    let gs = new_game();
    assert_eq!(gs.ecs.positions.len(), 1);
    assert_eq!(gs.ecs.positions[0], Some(Position { x: 25, y: 22 }));
    assert_eq!(gs.ecs.players, vec![true]);
    assert_eq!(gs.ecs.monsters, vec![false]);
    let renderable = gs.ecs.renderables[0].unwrap();
    assert_eq!(renderable.glyph, 64); // '@' in code page 437
    assert_eq!(renderable.fg, YELLOW);
    assert_eq!(renderable.bg, BLACK);
    assert_eq!(gs.ecs.pending.len(), 0);
}

#[test]
fn glyph_table_is_not_the_code_point() {
    // a character whose code-page-437 slot differs from its Unicode value
    let smiley = Renderable::new('\u{263A}', YELLOW, BLACK);
    assert_eq!(smiley.glyph, 1);
    let wall = Renderable::new('#', GREEN, BLACK);
    assert_eq!(wall.glyph, 35);
    let floor = Renderable::new('.', GRAY, BLACK);
    assert_eq!(floor.glyph, 46);
}

#[test]
fn movement_clamps_left_at_zero() {
    let mut gs = new_game();
    // x starts at 25; left input converges to 0 and never goes negative
    for step in 1..=30 {
        gs.tick(Some(Direction::Left));
        let p = gs.ecs.positions[0].unwrap();
        let expected = if step >= 25 { 0 } else { 25 - step };
        assert_eq!(p.x, expected);
        assert!(p.x >= 0);
        assert_eq!(p.y, 22);
    }
}

#[test]
fn movement_clamps_on_all_sides() {
    let mut gs = new_game();
    for _ in 0..100 {
        gs.tick(Some(Direction::Up));
    }
    assert_eq!(gs.ecs.positions[0].unwrap(), Position { x: 25, y: 0 });
    for _ in 0..100 {
        gs.tick(Some(Direction::Down));
    }
    assert_eq!(gs.ecs.positions[0].unwrap(), Position { x: 25, y: 49 });
    for _ in 0..100 {
        gs.tick(Some(Direction::Left));
    }
    assert_eq!(gs.ecs.positions[0].unwrap(), Position { x: 0, y: 49 });
}

#[test]
fn no_input_is_a_no_op() {
    let mut gs = new_game();
    let before = gs.ecs.positions.clone();
    gs.tick(None);
    assert_eq!(gs.ecs.positions, before);
    assert_eq!(gs.ecs.positions[0], Some(Position { x: 25, y: 22 }));
}

#[test]
fn end_to_end_right_clamps_at_79() {
    let mut gs = new_game();
    assert_eq!(gs.ecs.positions[0], Some(Position { x: 25, y: 22 }));
    for _ in 0..100 {
        gs.tick(Some(Direction::Right));
    }
    assert_eq!(gs.ecs.positions[0], Some(Position { x: 79, y: 22 }));
}

#[test]
fn render_is_deterministic() {
    let mut gs = new_game();
    let first = gs.tick(None);
    let second = gs.tick(None);
    assert_eq!(first, second);
    let map_pass_one = draw_map(&gs.map);
    let map_pass_two = draw_map(&gs.map);
    assert_eq!(map_pass_one, map_pass_two);
    let join_one = render_entities(&gs.ecs.positions, &gs.ecs.renderables);
    let join_two = render_entities(&gs.ecs.positions, &gs.ecs.renderables);
    assert_eq!(join_one, join_two);
}

#[test]
fn map_projection_emits_exact_commands() {
    let map = vec![TileType::Floor, TileType::Wall];
    let cmds = draw_map(&map);
    assert_eq!(cmds.len(), 2);
    assert_eq!(cmds[0], DrawCommand { x: 0, y: 0, fg: GRAY, bg: BLACK, glyph: 46 });
    assert_eq!(cmds[1], DrawCommand { x: 1, y: 0, fg: GREEN, bg: BLACK, glyph: 35 });
}

#[test]
fn map_projection_wraps_rows() {
    let map = vec![TileType::Wall; 161];
    let cmds = draw_map(&map);
    assert_eq!((cmds[79].x, cmds[79].y), (79, 0));
    assert_eq!((cmds[80].x, cmds[80].y), (0, 1));
    assert_eq!((cmds[160].x, cmds[160].y), (0, 2));
}

#[test]
fn entities_render_after_the_map_in_creation_order() {
    let mut gs = new_game();
    let cmds = gs.tick(None);
    // 4000 map commands, then the player on top
    assert_eq!(cmds.len(), 4001);
    assert_eq!(cmds[4000], DrawCommand { x: 25, y: 22, fg: YELLOW, bg: BLACK, glyph: 64 });
}

#[test]
fn commit_barrier_defers_to_the_same_frame_render() {
    let mut gs = new_game();
    gs.ecs.queue_spawn(Spawn {
        position: Some(Position { x: 10, y: 10 }),
        renderable: Some(Renderable::new('\u{263A}', YELLOW, BLACK)),
        player: true,
        monster: false,
        viewshed: None,
    });
    // while queued, the spawn is not live
    assert_eq!(gs.ecs.positions.len(), 1);
    let cmds = gs.tick(Some(Direction::Right));
    // movement of this frame never saw the spawn: it stands exactly where
    // requested, even though it carries the Player marker ...
    assert_eq!(gs.ecs.positions[1], Some(Position { x: 10, y: 10 }));
    // ... while the player that was already live did move
    assert_eq!(gs.ecs.positions[0], Some(Position { x: 26, y: 22 }));
    // and the render phase of the same frame drew it
    let spawned = DrawCommand { x: 10, y: 10, fg: YELLOW, bg: BLACK, glyph: 1 };
    assert!(cmds.contains(&spawned));
    // the next frame's movement does see it
    gs.tick(Some(Direction::Right));
    assert_eq!(gs.ecs.positions[1], Some(Position { x: 11, y: 10 }));
    assert_eq!(gs.ecs.positions[0], Some(Position { x: 27, y: 22 }));
}

#[test]
fn maintain_commits_in_request_order() {
    let mut gs = new_game();
    gs.ecs.queue_spawn(Spawn {
        position: Some(Position { x: 1, y: 1 }),
        renderable: None,
        player: false,
        monster: true,
        viewshed: None,
    });
    gs.ecs.queue_spawn(Spawn {
        position: Some(Position { x: 2, y: 2 }),
        renderable: None,
        player: false,
        monster: true,
        viewshed: None,
    });
    assert_eq!(gs.ecs.pending.len(), 2);
    gs.ecs.maintain();
    assert_eq!(gs.ecs.pending.len(), 0);
    assert_eq!(gs.ecs.entity_count(), 3);
    assert_eq!(gs.ecs.positions[1], Some(Position { x: 1, y: 1 }));
    assert_eq!(gs.ecs.positions[2], Some(Position { x: 2, y: 2 }));
    assert_eq!(gs.ecs.monsters, vec![false, true, true]);
}
