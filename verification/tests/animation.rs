use pipes::color::Color;
use pipes::coord::WrapU32;
use pipes::direction::Direction;
use pipes::driver::State;

const VERTICAL: char = '\u{2551}';
const HORIZONTAL: char = '\u{2550}';
const TOP_LEFT: char = '\u{2554}';
const TOP_RIGHT: char = '\u{2557}';
const BOTTOM_LEFT: char = '\u{255A}';
const BOTTOM_RIGHT: char = '\u{255D}';

#[test]
fn add_wraps_around() {
    let c = WrapU32 { n: 5, max: 9 };
    assert_eq!(c.add(7), WrapU32 { n: 2, max: 9 });
    assert_eq!(c.add(0), c);
    assert_eq!(c.add(5), WrapU32 { n: 0, max: 9 });
    assert_eq!(c.add(10), c);
    assert_eq!(c.add(10_000_005), WrapU32 { n: 0, max: 9 });
}

#[test]
fn sub_restores_after_add() {
    let c = WrapU32 { n: 5, max: 9 };
    let moved = c.add(7);
    assert_eq!(moved, WrapU32 { n: 2, max: 9 });
    assert_eq!(moved.sub(7), c);
}

#[test]
fn sub_wraps_below_zero() {
    assert_eq!(WrapU32 { n: 0, max: 9 }.sub(3), WrapU32 { n: 7, max: 9 });
    assert_eq!(WrapU32 { n: 2, max: 9 }.sub(12), WrapU32 { n: 0, max: 9 });
    assert_eq!(WrapU32 { n: 0, max: 9 }.sub(10), WrapU32 { n: 0, max: 9 });
    assert_eq!(WrapU32 { n: 0, max: 9 }.sub(25), WrapU32 { n: 5, max: 9 });
}

#[test]
fn add_sub_round_trip_many_deltas() {
    let deltas = [0u32, 1, 2, 9, 10, 11, 99, 100, 12345, u32::MAX];
    for max in [0u32, 1, 4, 9, 79] {
        for n in [0u32, 1, 3] {
            if n > max {
                continue;
            }
            let c = WrapU32 { n, max };
            for d in deltas {
                assert_eq!(c.add(d).sub(d), c);
            }
        }
    }
}

#[test]
fn full_cycle_returns_to_start() {
    for (n, max) in [(3u32, 4u32), (0, 0), (7, 9), (0, 79)] {
        let start = WrapU32 { n, max };
        let mut c = start;
        for _ in 0..(max + 1) {
            c = c.add(1);
        }
        assert_eq!(c, start);
    }
}

#[test]
fn coordinate_operands_wrap_too() {
    let a = WrapU32 { n: 6, max: 9 };
    let b = WrapU32 { n: 7, max: 9 };
    assert_eq!(a.add_coord(b), WrapU32 { n: 3, max: 9 });
    assert_eq!(a.sub_coord(b), WrapU32 { n: 9, max: 9 });
}

#[test]
fn turn_table_is_fixed() {
    assert_eq!(Direction::Up.turn(true), Direction::Left);
    assert_eq!(Direction::Up.turn(false), Direction::Right);
    assert_eq!(Direction::Down.turn(true), Direction::Left);
    assert_eq!(Direction::Down.turn(false), Direction::Right);
    assert_eq!(Direction::Left.turn(true), Direction::Down);
    assert_eq!(Direction::Left.turn(false), Direction::Up);
    assert_eq!(Direction::Right.turn(true), Direction::Down);
    assert_eq!(Direction::Right.turn(false), Direction::Up);
}

#[test]
fn turn_never_straight_or_reversed() {
    let dirs = [
        Direction::Left,
        Direction::Down,
        Direction::Up,
        Direction::Right,
    ];
    let opposite = |d: Direction| match d {
        Direction::Left => Direction::Right,
        Direction::Right => Direction::Left,
        Direction::Up => Direction::Down,
        Direction::Down => Direction::Up,
    };
    for d in dirs {
        for coin in [false, true] {
            let t = d.turn(coin);
            assert_ne!(t, d);
            assert_ne!(t, opposite(d));
        }
    }
}

#[test]
fn straight_glyphs_follow_axis() {
    assert_eq!(Direction::Up.to_char(), VERTICAL);
    assert_eq!(Direction::Down.to_char(), VERTICAL);
    assert_eq!(Direction::Left.to_char(), HORIZONTAL);
    assert_eq!(Direction::Right.to_char(), HORIZONTAL);
}

#[test]
fn corner_table_covers_all_eight_turns() {
    let cases = [
        (Direction::Right, true, Direction::Down, TOP_RIGHT),
        (Direction::Up, true, Direction::Left, TOP_RIGHT),
        (Direction::Down, false, Direction::Right, BOTTOM_LEFT),
        (Direction::Left, false, Direction::Up, BOTTOM_LEFT),
        (Direction::Down, true, Direction::Left, BOTTOM_RIGHT),
        (Direction::Right, false, Direction::Up, BOTTOM_RIGHT),
        (Direction::Up, false, Direction::Right, TOP_LEFT),
        (Direction::Left, true, Direction::Down, TOP_LEFT),
    ];
    for (start, coin, expected_dir, expected_glyph) in cases {
        let mut d = start;
        let glyph = d.turn_and_to_char(coin);
        assert_eq!(d, expected_dir);
        assert_eq!(glyph, expected_glyph);
        assert!([TOP_LEFT, TOP_RIGHT, BOTTOM_LEFT, BOTTOM_RIGHT].contains(&glyph));
    }
}

#[test]
fn movement_deltas_match_directions() {
    assert_eq!(Direction::Left.movement_delta(), (-1, 0));
    assert_eq!(Direction::Right.movement_delta(), (1, 0));
    assert_eq!(Direction::Up.movement_delta(), (0, -1));
    assert_eq!(Direction::Down.movement_delta(), (0, 1));
}

#[test]
fn direction_from_index_wraps_modulo_four() {
    assert_eq!(Direction::from_index(0), Direction::Left);
    assert_eq!(Direction::from_index(1), Direction::Down);
    assert_eq!(Direction::from_index(2), Direction::Up);
    assert_eq!(Direction::from_index(3), Direction::Right);
    assert_eq!(Direction::from_index(6), Direction::Up);
    assert_eq!(Direction::from_index(103), Direction::Right);
}

#[test]
fn advance_shifts_red_toward_orange() {
    let red = Color { r: 255, g: 0, b: 0 };
    let next = red.advance();
    assert_ne!(next, red);
    assert_eq!(next, Color { r: 255, g: 63, b: 0 });
    assert!(next.g > 0 && next.r == 255 && next.b == 0);
}

#[test]
fn advance_known_values() {
    let cases = [
        ((255u8, 63u8, 0u8), (255u8, 126u8, 0u8)),
        ((10, 200, 30), (10, 200, 77)),
        ((12, 34, 56), (12, 23, 56)),
        ((0, 255, 0), (0, 255, 63)),
        ((0, 0, 255), (63, 0, 255)),
    ];
    for ((r, g, b), (er, eg, eb)) in cases {
        let c = Color { r, g, b };
        assert_eq!(c.advance(), Color { r: er, g: eg, b: eb });
    }
}

#[test]
fn advance_leaves_gray_unchanged() {
    for v in [0u8, 100, 255] {
        let gray = Color { r: v, g: v, b: v };
        assert_eq!(gray.advance(), gray);
    }
}

#[test]
fn advance_preserves_value_and_saturation() {
    for c in [
        Color { r: 255, g: 0, b: 0 },
        Color { r: 10, g: 200, b: 30 },
        Color { r: 12, g: 34, b: 56 },
    ] {
        let n = c.advance();
        let mx = |k: Color| k.r.max(k.g).max(k.b);
        let mn = |k: Color| k.r.min(k.g).min(k.b);
        assert_eq!(mx(n), mx(c));
        assert_eq!(mn(n), mn(c));
    }
}

#[test]
fn twenty_four_steps_cycle_hue_back_near_start() {
    // 24 steps of 15 degrees make one full hue revolution. Truncation
    // pulls each step a fraction of a degree short, so the cycle lands a
    // few degrees shy of the start rather than exactly on it.
    let start = Color { r: 255, g: 0, b: 0 };
    let mut c = start;
    for _ in 0..24 {
        c = c.advance();
    }
    assert_eq!(c, Color { r: 255, g: 0, b: 6 });
    // Still a strongly red color: full red channel, nearly empty others.
    assert_eq!(c.r, 255);
    assert!(c.g == 0 && c.b < 10);
}

#[test]
fn step_straight_moves_and_counts_down() {
    let mut s = State {
        color: Color { r: 255, g: 0, b: 0 },
        dir: Direction::Down,
        countdown: 3,
        x: WrapU32 { n: 5, max: 9 },
        y: WrapU32 { n: 8, max: 9 },
        rng: rand::thread_rng(),
    };
    let glyph = s.step_with(false, 0);
    assert_eq!(glyph, VERTICAL);
    assert_eq!(s.dir, Direction::Down);
    assert_eq!(s.countdown, 2);
    assert_eq!(s.x, WrapU32 { n: 5, max: 9 });
    assert_eq!(s.y, WrapU32 { n: 9, max: 9 });
    assert_eq!(s.color, Color { r: 255, g: 63, b: 0 });
    // One more step wraps the row coordinate past its bound.
    let glyph = s.step_with(false, 0);
    assert_eq!(glyph, VERTICAL);
    assert_eq!(s.y, WrapU32 { n: 0, max: 9 });
    assert_eq!(s.countdown, 1);
}

#[test]
fn step_turn_right_to_down_draws_top_right_corner() {
    let mut s = State {
        color: Color { r: 255, g: 0, b: 0 },
        dir: Direction::Right,
        countdown: 0,
        x: WrapU32 { n: 5, max: 9 },
        y: WrapU32 { n: 3, max: 9 },
        rng: rand::thread_rng(),
    };
    let glyph = s.step_with(true, 7);
    assert_eq!(glyph, TOP_RIGHT);
    assert_eq!(s.dir, Direction::Down);
    assert_eq!(s.countdown, 7);
    assert_eq!(s.x, WrapU32 { n: 6, max: 9 });
    assert_eq!(s.y, WrapU32 { n: 3, max: 9 });
}

#[test]
fn leftward_step_wraps_at_left_edge() {
    let mut s = State {
        color: Color { r: 1, g: 2, b: 3 },
        dir: Direction::Left,
        countdown: 5,
        x: WrapU32 { n: 0, max: 79 },
        y: WrapU32 { n: 10, max: 23 },
        rng: rand::thread_rng(),
    };
    let glyph = s.step_with(false, 0);
    assert_eq!(glyph, HORIZONTAL);
    assert_eq!(s.x, WrapU32 { n: 79, max: 79 });
    assert_eq!(s.y, WrapU32 { n: 10, max: 23 });
    assert_eq!(s.countdown, 4);
}

#[test]
fn random_state_respects_bounds_across_steps() {
    let mut s = State::from_rng(80, 24, rand::thread_rng());
    assert!(s.x.n < 80 && s.x.max == 80);
    assert!(s.y.n < 24 && s.y.max == 24);
    assert!(s.countdown < 20);
    let glyphs = [
        VERTICAL,
        HORIZONTAL,
        TOP_LEFT,
        TOP_RIGHT,
        BOTTOM_LEFT,
        BOTTOM_RIGHT,
    ];
    for _ in 0..200 {
        let glyph = s.step();
        assert!(glyphs.contains(&glyph));
        assert!(s.x.n <= s.x.max && s.y.n <= s.y.max);
        assert!(s.countdown < 20);
    }
}
