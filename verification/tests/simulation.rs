use snake_core::grid::{step, Position, ARENA_HEIGHT, ARENA_WIDTH};
use snake_core::heading::Direction;
use snake_core::input::{snake_movement_input, KeyState};
use snake_core::mapper::{convert, position_translation, scale_axis, size_scaling, Size};
use snake_core::snake::{snake_movement, spawn_snake, SnakeHead, SNAKE_HEAD_SIZE_MILLI};
use snake_core::spawner::{food_position, food_spawner, sample_to_cell, FOOD_SIZE_MILLI};
use snake_core::timer::{FixedTimer, MOVEMENT_INTERVAL_MS, SPAWN_INTERVAL_MS};

fn keys(left: bool, down: bool, up: bool, right: bool) -> KeyState {
    KeyState { left, down, up, right }
}

const ALL_HEADINGS: [Direction; 4] =
    [Direction::Left, Direction::Up, Direction::Right, Direction::Down];

#[test]
fn opposite_is_involution() {
    for h in ALL_HEADINGS {
        assert_eq!(h.opposite().opposite(), h);
    }
}

#[test]
fn opposite_swaps_axes() {
    assert_eq!(Direction::Left.opposite(), Direction::Right);
    assert_eq!(Direction::Right.opposite(), Direction::Left);
    assert_eq!(Direction::Up.opposite(), Direction::Down);
    assert_eq!(Direction::Down.opposite(), Direction::Up);
}

#[test]
fn keyboard_precedence_left_down_up_right() {
    assert_eq!(
        Direction::from_keyboard_or(keys(true, true, true, true), Direction::Up),
        Direction::Left
    );
    assert_eq!(
        Direction::from_keyboard_or(keys(false, true, true, true), Direction::Up),
        Direction::Down
    );
    assert_eq!(
        Direction::from_keyboard_or(keys(false, false, true, true), Direction::Down),
        Direction::Up
    );
    assert_eq!(
        Direction::from_keyboard_or(keys(false, false, false, true), Direction::Up),
        Direction::Right
    );
}

#[test]
fn keyboard_none_pressed_keeps_current() {
    for h in ALL_HEADINGS {
        assert_eq!(Direction::from_keyboard_or(keys(false, false, false, false), h), h);
    }
}

#[test]
fn input_rejects_direct_reversal() {
    // Heading Up, only Down pressed: the reversal is discarded, Up stands.
    let mut head = SnakeHead { direction: Direction::Up };
    snake_movement_input(keys(false, true, false, false), &mut head);
    assert_eq!(head.direction, Direction::Up);
}

#[test]
fn input_never_reverses_any_heading() {
    for h in ALL_HEADINGS {
        let opposite = h.opposite();
        for mask in 0u32..16 {
            let mut head = SnakeHead { direction: h };
            snake_movement_input(
                keys(mask & 1 != 0, mask & 2 != 0, mask & 4 != 0, mask & 8 != 0),
                &mut head,
            );
            assert_ne!(head.direction, opposite);
        }
    }
}

#[test]
fn input_adopts_allowed_turn() {
    let mut head = SnakeHead { direction: Direction::Up };
    snake_movement_input(keys(true, false, false, false), &mut head);
    assert_eq!(head.direction, Direction::Left);
}

#[test]
fn step_wraps_left_edge() {
    // Position (0, 3), heading Left: wraps to (9, 3).
    let p = step(Position { x: 0, y: 3 }, Direction::Left, 10, 10);
    assert_eq!(p, Position { x: 9, y: 3 });
}

#[test]
fn step_wraps_right_edge() {
    // Position (9, 3), heading Right: wraps to (0, 3).
    let p = step(Position { x: 9, y: 3 }, Direction::Right, 10, 10);
    assert_eq!(p, Position { x: 0, y: 3 });
}

#[test]
fn step_wraps_vertical_edges() {
    let p = step(Position { x: 4, y: 9 }, Direction::Up, 10, 10);
    assert_eq!(p, Position { x: 4, y: 0 });
    let q = step(Position { x: 4, y: 0 }, Direction::Down, 10, 10);
    assert_eq!(q, Position { x: 4, y: 9 });
}

#[test]
fn step_moves_one_cell_inside() {
    let p = step(Position { x: 5, y: 5 }, Direction::Left, 10, 10);
    assert_eq!(p, Position { x: 4, y: 5 });
    let p = step(p, Direction::Up, 10, 10);
    assert_eq!(p, Position { x: 4, y: 6 });
}

#[test]
fn step_stays_in_bounds_everywhere() {
    for x in 0..10 {
        for y in 0..10 {
            for h in ALL_HEADINGS {
                let p = step(Position { x, y }, h, 10, 10);
                assert!(0 <= p.x && p.x < 10);
                assert!(0 <= p.y && p.y < 10);
            }
        }
    }
}

#[test]
fn movement_advances_head_position() {
    let mut pos = Position { x: 3, y: 3 };
    let head = SnakeHead { direction: Direction::Up };
    snake_movement(&mut pos, &head, ARENA_WIDTH, ARENA_HEIGHT);
    assert_eq!(pos, Position { x: 3, y: 4 });
}

#[test]
fn spawn_snake_initial_components() {
    let (head, pos, size) = spawn_snake();
    assert_eq!(head.direction, Direction::Up);
    assert_eq!(pos, Position { x: 3, y: 3 });
    assert_eq!(size.width, SNAKE_HEAD_SIZE_MILLI);
    assert_eq!(size.height, SNAKE_HEAD_SIZE_MILLI);
}

#[test]
fn sample_scaling_truncates() {
    // A sample of 0.45 over a dimension of 10 lands in cell 4.
    assert_eq!(sample_to_cell(45, 100, 10), 4);
    assert_eq!(sample_to_cell(0, 100, 10), 0);
    assert_eq!(sample_to_cell(999, 1000, 10), 9);
    assert_eq!(sample_to_cell(99, 100, 7), 6);
}

#[test]
fn food_position_from_two_samples() {
    // Samples 0.45, 0.45 on a 10 x 10 arena: food at (4, 4).
    let p = food_position(45, 45, 100, 10, 10);
    assert_eq!(p, Position { x: 4, y: 4 });
}

#[test]
fn food_spawner_stays_in_arena() {
    for _ in 0..100 {
        let (_food, pos, size) = food_spawner(ARENA_WIDTH, ARENA_HEIGHT);
        assert!(0 <= pos.x && pos.x < ARENA_WIDTH as i32);
        assert!(0 <= pos.y && pos.y < ARENA_HEIGHT as i32);
        assert_eq!(size.width, FOOD_SIZE_MILLI);
        assert_eq!(size.height, FOOD_SIZE_MILLI);
    }
}

#[test]
fn timer_fires_on_reaching_interval() {
    let mut t = FixedTimer::new(MOVEMENT_INTERVAL_MS);
    assert!(!t.tick(100));
    assert!(t.tick(100));
    // The leftover 50 ms is retained, not discarded.
    assert_eq!(t.accumulated, 50);
    assert!(t.tick(100));
    assert_eq!(t.accumulated, 0);
}

#[test]
fn timer_fire_count_ignores_chunking() {
    // 450 ms of elapsed time at a 150 ms cadence: three fires, however the
    // time is chunked into frames.
    let chunkings: [&[u64]; 4] = [
        &[150, 150, 150],
        &[100, 100, 100, 100, 50],
        &[50, 50, 50, 50, 50, 50, 50, 50, 50],
        &[149, 1, 150, 75, 75],
    ];
    for deltas in chunkings {
        let mut t = FixedTimer::new(150);
        let mut fires = 0u64;
        for &d in deltas {
            if t.tick(d) {
                fires += 1;
            }
        }
        assert_eq!(fires, 3);
    }
}

#[test]
fn timer_spawn_cadence() {
    let mut t = FixedTimer::new(SPAWN_INTERVAL_MS);
    for _ in 0..9 {
        assert!(!t.tick(100));
    }
    assert!(t.tick(100));
    assert_eq!(t.accumulated, 0);
}

#[test]
fn scaling_matches_formula() {
    // A 0.8-cell sprite on a 10-cell arena in a 500-pixel window: 40 pixels.
    let px = scale_axis(800, 10, 500);
    assert_eq!(px.num, 800 * 500);
    assert_eq!(px.den, 1000 * 10);
    assert_eq!(px.num as f32 / px.den as f32, 40.0);
}

#[test]
fn size_scaling_both_axes() {
    let size = Size::square(600);
    let (sx, sy) = size_scaling(&size, 10, 10, 500, 400);
    assert_eq!(sx.num as f32 / sx.den as f32, 30.0);
    assert_eq!(sy.num as f32 / sy.den as f32, 24.0);
}

#[test]
fn translation_matches_formula() {
    // pos / arena * window - window / 2 + tile / 2, with tile = window / arena:
    // for pos 3, window 500, arena 10: 150 - 250 + 25 = -75.
    let px = convert(3, 500, 10);
    assert_eq!(px.num, 500 * (2 * 3 + 1 - 10));
    assert_eq!(px.den, 20);
    assert_eq!(px.num as f32 / px.den as f32, -75.0);
}

#[test]
fn translation_centering_at_even_center() {
    // For pos = arena / 2 on an even arena, the pixel is exactly half a tile
    // from the origin: within tile / 2 of center.
    let px = convert(5, 500, 10);
    let value = px.num as f32 / px.den as f32;
    let tile = 500.0f32 / 10.0;
    assert_eq!(value, tile / 2.0);
    assert!(value.abs() <= tile / 2.0);
}

#[test]
fn position_translation_both_axes() {
    let (tx, ty) = position_translation(&Position { x: 3, y: 3 }, 10, 10, 500, 500);
    assert_eq!(tx.num as f32 / tx.den as f32, -75.0);
    assert_eq!(ty.num as f32 / ty.den as f32, -75.0);
}

#[test]
fn translation_is_monotone_in_position() {
    let mut last = f32::MIN;
    for x in 0..10 {
        let px = convert(x, 500, 10);
        let v = px.num as f32 / px.den as f32;
        assert!(v > last);
        last = v;
    }
    // Cells span the window symmetrically: first and last mirror each other.
    let first = convert(0, 500, 10);
    let last = convert(9, 500, 10);
    assert_eq!(first.num as f32 / first.den as f32, -225.0);
    assert_eq!(last.num as f32 / last.den as f32, 225.0);
}
