use tachyonfx::fx::direction::{offset, DirectionalVariance};
use tachyonfx::fx::glitch::{cell_position, glitch_symbol};
use tachyonfx::{
    blit_region, blit_target, AsIndexedColor, BlitRegion, Color, Direction, Glitch, GlitchCell,
    GlitchType, Margin, Offset, Position, RangeSampler, Rect, SimpleRng, Size, ToRgbComponents,
};

#[test]
fn rect_inner_pulls_every_side_in() {
    let area = Rect::new(2, 3, 10, 8);
    assert_eq!(area.inner(Margin::new(1, 2)), Rect::new(3, 5, 8, 4));
    assert_eq!(area.inner(Margin::new(0, 0)), area);
    assert_eq!(area.inner(Margin::new(5, 4)), Rect::new(7, 7, 0, 0));
    assert_eq!(area.inner(Margin::new(6, 0)), Rect::new(0, 0, 0, 0));
    assert_eq!(area.inner(Margin::new(0, 5)), Rect::new(0, 0, 0, 0));
    // a margin whose double does not fit the coordinate range
    let huge = Rect::new(10, 10, 65535, 65535);
    assert_eq!(huge.inner(Margin::new(40000, 40000)), Rect::new(40010, 40010, 0, 0));
}

#[test]
fn rect_contains_its_corner_but_not_its_far_edges() {
    let area = Rect::new(2, 3, 4, 5);
    assert!(area.contains(Position::new(2, 3)));
    assert!(area.contains(Position::new(5, 7)));
    assert!(!area.contains(Position::new(6, 7)));
    assert!(!area.contains(Position::new(5, 8)));
    assert!(!area.contains(Position::new(1, 3)));
    assert!(!area.contains(Position::new(2, 2)));
    assert!(!Rect::new(0, 0, 0, 5).contains(Position::new(0, 0)));
    assert_eq!(area.right(), 6);
    assert_eq!(area.bottom(), 8);
    assert_eq!(Rect::new(65530, 65530, 10, 10).right(), 65535);
    assert_eq!(area.area(), 20);
    assert_eq!(Rect::new(0, 0, 65535, 65535).area(), 65535 * 65535);
}

#[test]
fn rect_intersection_is_the_shared_part() {
    let a = Rect::new(0, 0, 10, 10);
    let b = Rect::new(5, 7, 10, 10);
    assert_eq!(a.intersection(b), Rect::new(5, 7, 5, 3));
    assert_eq!(b.intersection(a), Rect::new(5, 7, 5, 3));
    assert_eq!(a.intersection(Rect::new(20, 20, 5, 5)), Rect::new(20, 20, 0, 0));
    assert_eq!(a.intersection(a), a);
}

#[test]
fn inner_centered_centres_and_clamps() {
    let original = Rect::new(0, 0, 100, 100);
    assert_eq!(original.inner_centered(50, 50), Rect::new(25, 25, 50, 50));
    let screen = Rect::new(0, 0, 20, 10);
    assert_eq!(screen.inner_centered(10, 4), Rect::new(5, 3, 10, 4));
    assert_eq!(screen.inner_centered(30, 11), Rect::new(0, 0, 20, 10));
    assert_eq!(Rect::new(4, 6, 9, 3).inner_centered(4, 2), Rect::new(6, 6, 4, 2));
}

#[test]
fn colours_have_fixed_components() {
    assert_eq!(Color::Rgb(1, 2, 3).to_rgb(), (1, 2, 3));
    assert_eq!(Color::Reset.to_rgb(), (0, 0, 0));
    assert_eq!(Color::Red.to_rgb(), (128, 0, 0));
    assert_eq!(Color::Green.to_rgb(), (0, 128, 0));
    assert_eq!(Color::DarkGray.to_rgb(), (96, 96, 96));
    assert_eq!(Color::LightCyan.to_rgb(), (0, 255, 255));
    assert_eq!(Color::White.to_rgb(), (192, 192, 192));
}

#[test]
fn indexed_colours_come_from_the_palette() {
    assert_eq!(Color::Indexed(9).to_rgb(), (255, 0, 0));
    assert_eq!(Color::Indexed(211).to_rgb(), (255, 135, 175));
    assert_eq!(Color::Indexed(0).to_rgb(), (0, 0, 0));
    assert_eq!(Color::Indexed(249).to_rgb(), (178, 178, 178));
    assert_eq!(Color::Indexed(154).to_rgb(), (175, 255, 0));
}

#[test]
fn colours_map_to_palette_entries() {
    assert_eq!(Color::Rgb(95, 0, 175).as_indexed_color(), Color::Indexed(55));
    assert_eq!(Color::Rgb(135, 95, 255).as_indexed_color(), Color::Indexed(99));
    assert_eq!(Color::Rgb(255, 215, 255).as_indexed_color(), Color::Indexed(225));
    assert_eq!(Color::Black.as_indexed_color(), Color::Indexed(16));
    assert_eq!(Color::LightRed.as_indexed_color(), Color::Indexed(196));
}

#[test]
fn directions_flip() {
    assert_eq!(Direction::LeftToRight.flipped(), Direction::RightToLeft);
    assert_eq!(Direction::RightToLeft.flipped(), Direction::LeftToRight);
    assert_eq!(Direction::UpToDown.flipped(), Direction::DownToUp);
    assert_eq!(Direction::DownToUp.flipped(), Direction::UpToDown);
    assert!(!Direction::LeftToRight.flips_timer());
    assert!(Direction::RightToLeft.flips_timer());
    assert!(!Direction::UpToDown.flips_timer());
    assert!(Direction::DownToUp.flips_timer());
}

#[test]
fn directional_variance_stays_on_its_axis() {
    let area = Rect::new(0, 0, 20, 10);
    let mut none = DirectionalVariance::from(area, Direction::LeftToRight, 0);
    assert_eq!(none.next(), (0, 0));
    assert_eq!(none.rng, SimpleRng::new((20 << 16) | 10));

    let mut reference = SimpleRng::new((20 << 16) | 10);
    let mut right = DirectionalVariance::from(area, Direction::LeftToRight, 5);
    let mut left = DirectionalVariance::from(area, Direction::RightToLeft, 5);
    let mut down = DirectionalVariance::from(area, Direction::UpToDown, 5);
    let mut up = DirectionalVariance::from(area, Direction::DownToUp, 5);
    for _ in 0..50 {
        let expected = (reference.gen() % 5) as i16;
        assert_eq!(right.next(), (expected, 0));
        assert_eq!(left.next(), (-expected, 0));
        assert_eq!(down.next(), (0, expected));
        assert_eq!(up.next(), (0, -expected));
    }
}

#[test]
fn offset_moves_a_position_and_stops_at_zero() {
    assert_eq!(offset(Position::new(5, 5), (3, -2)), Position::new(8, 3));
    assert_eq!(offset(Position::new(1, 0), (-4, -1)), Position::new(0, 0));
    assert_eq!(offset(Position::new(0, 7), (0, 0)), Position::new(0, 7));
}

#[test]
fn blit_region_clips_on_every_side() {
    let source = Size { width: 4, height: 4 };
    let target = Size { width: 8, height: 8 };
    let whole = Some(BlitRegion { from_x: 0, to_x: 4, from_y: 0, to_y: 4 });
    assert_eq!(blit_region(source, target, Offset { x: 0, y: 0 }), whole);
    assert_eq!(blit_region(source, target, Offset { x: 4, y: 3 }), whole);
    assert_eq!(
        blit_region(source, target, Offset { x: -1, y: -2 }),
        Some(BlitRegion { from_x: 1, to_x: 4, from_y: 2, to_y: 4 })
    );
    assert_eq!(
        blit_region(source, target, Offset { x: 6, y: 7 }),
        Some(BlitRegion { from_x: 0, to_x: 2, from_y: 0, to_y: 1 })
    );
    assert_eq!(blit_region(source, target, Offset { x: 8, y: 0 }), None);
    assert_eq!(blit_region(source, target, Offset { x: 0, y: -4 }), None);
    assert_eq!(blit_region(source, target, Offset { x: -400, y: 1 }), None);
    assert_eq!(blit_region(source, target, Offset { x: i32::MAX, y: i32::MIN }), None);
    // a source larger than the target
    let large = Size { width: 20, height: 10 };
    assert_eq!(
        blit_region(large, target, Offset { x: -5, y: -1 }),
        Some(BlitRegion { from_x: 5, to_x: 13, from_y: 1, to_y: 9 })
    );
    assert_eq!(blit_target(Position::new(5, 1), Offset { x: -5, y: -1 }), Position::new(0, 0));
    assert_eq!(blit_target(Position::new(3, 3), Offset { x: 4, y: 3 }), Position::new(7, 6));
}

#[test]
fn glitch_population_reaches_its_steady_state() {
    // a 2x2 area glitched in full: four entries at a time
    let mut glitch = Glitch::new(0..1, 100..101, SimpleRng::new(7));
    for tick in 0..25 {
        glitch.ensure_population(4, 4);
        assert_eq!(glitch.glitch_cells.len(), 4, "tick {tick}");
        glitch.update_cells(10);
        glitch.drop_out_of_bounds(4);
        assert_eq!(glitch.glitch_cells.len(), 4);
        assert_eq!(glitch.active_cells().len(), 4, "tick {tick}");
        assert!(glitch.glitch_cells.iter().all(|c| c.cell_idx < 4));
        glitch.remove_expired();
        // all four were drawn together and last 100 ms, so they expire together
        let expected = if tick % 10 == 9 { 0 } else { 4 };
        assert_eq!(glitch.glitch_cells.len(), expected, "tick {tick}");
    }
}

#[test]
fn glitch_population_with_a_start_delay() {
    let mut glitch = Glitch::new(30..31, 100..101, SimpleRng::new(1));
    glitch.ensure_population(4, 4);
    glitch.update_cells(10);
    assert_eq!(glitch.active_cells().len(), 0);
    glitch.update_cells(10);
    assert_eq!(glitch.active_cells().len(), 0);
    glitch.update_cells(15);
    // the wait is over; the 5 ms that it did not use count against the time shown
    assert_eq!(glitch.active_cells().len(), 4);
    assert!(glitch.glitch_cells.iter().all(|c| c.glitch_remaining_ms == 95));
    glitch.reset();
    assert!(glitch.glitch_cells.is_empty());
}

#[test]
fn glitch_cells_are_drawn_in_a_fixed_order() {
    let mut glitch = Glitch::new(5..50, 100..200, SimpleRng::new(42));
    let mut reference = SimpleRng::new(42);
    glitch.ensure_population(1, 12);
    let cell_idx: usize = reference.gen_range(0usize..12usize);
    let kind_draw = reference.gen();
    let kind = if kind_draw % 2 == 0 {
        GlitchType::ChangeCase
    } else {
        let by: i32 = reference.gen_range(0i32..20i32);
        GlitchType::ChangeCharByValue((by - 10) as i8)
    };
    let shown: u32 = reference.gen_range(100u32..200u32);
    let wait: u32 = reference.gen_range(5u32..50u32);
    assert_eq!(
        glitch.glitch_cells,
        vec![GlitchCell {
            cell_idx,
            glitch_remaining_ms: shown,
            presleep_remaining_ms: wait,
            glitch: kind
        }]
    );
    assert_eq!(glitch.rng, reference);
    // a population that is large enough is left alone
    glitch.ensure_population(1, 12);
    assert_eq!(glitch.glitch_cells.len(), 1);
    assert_eq!(glitch.rng, reference);
}

#[test]
fn glitches_outside_the_grid_are_dropped() {
    let mut glitch = Glitch::new(0..1, 10..11, SimpleRng::new(3));
    for idx in [0usize, 9, 3, 10, 4] {
        glitch.glitch_cells.push(GlitchCell {
            cell_idx: idx,
            glitch_remaining_ms: 5,
            presleep_remaining_ms: 0,
            glitch: GlitchType::ChangeCase,
        });
    }
    glitch.drop_out_of_bounds(9);
    let left: Vec<usize> = glitch.glitch_cells.iter().map(|c| c.cell_idx).collect();
    assert_eq!(left, vec![0, 3, 4]);
}

#[test]
fn update_cell_runs_the_wait_down_first() {
    let mut cell = GlitchCell {
        cell_idx: 0,
        glitch_remaining_ms: 100,
        presleep_remaining_ms: 30,
        glitch: GlitchType::ChangeCase,
    };
    Glitch::update_cell(&mut cell, 20);
    assert_eq!((cell.presleep_remaining_ms, cell.glitch_remaining_ms), (10, 100));
    Glitch::update_cell(&mut cell, 25);
    assert_eq!((cell.presleep_remaining_ms, cell.glitch_remaining_ms), (0, 85));
    assert!(Glitch::is_running(&cell));
    Glitch::update_cell(&mut cell, 500);
    assert_eq!((cell.presleep_remaining_ms, cell.glitch_remaining_ms), (0, 0));
    assert!(!Glitch::is_running(&cell));
}

#[test]
fn glitch_symbol_changes_case_and_moves_codes() {
    assert_eq!(glitch_symbol("a", GlitchType::ChangeCase), Some('A'));
    assert_eq!(glitch_symbol("Q", GlitchType::ChangeCase), Some('q'));
    assert_eq!(glitch_symbol("7", GlitchType::ChangeCase), Some('7'));
    assert_eq!(glitch_symbol("hello", GlitchType::ChangeCase), Some('H'));
    assert_eq!(glitch_symbol("é", GlitchType::ChangeCase), None);
    assert_eq!(glitch_symbol("", GlitchType::ChangeCase), None);

    assert_eq!(glitch_symbol("a", GlitchType::ChangeCharByValue(3)), Some('d'));
    assert_eq!(glitch_symbol("a", GlitchType::ChangeCharByValue(-10)), Some('W'));
    assert_eq!(glitch_symbol("a", GlitchType::ChangeCharByValue(0)), Some('a'));
    assert_eq!(glitch_symbol("!", GlitchType::ChangeCharByValue(-10)), Some(' '));
    assert_eq!(glitch_symbol("\u{1}", GlitchType::ChangeCharByValue(-10)), Some(' '));
    assert_eq!(glitch_symbol("~", GlitchType::ChangeCharByValue(9)), Some('\u{87}'));
    assert_eq!(glitch_symbol("~", GlitchType::ChangeCharByValue(127)), Some('\u{fd}'));
    assert_eq!(glitch_symbol(" ", GlitchType::ChangeCharByValue(5)), None);
    assert_eq!(glitch_symbol("ab", GlitchType::ChangeCharByValue(5)), None);
    assert_eq!(glitch_symbol("é", GlitchType::ChangeCharByValue(5)), None);
}

#[test]
fn cell_position_counts_rows_first() {
    let area = Rect::new(3, 1, 4, 2);
    assert_eq!(cell_position(0, area), Position::new(3, 1));
    assert_eq!(cell_position(3, area), Position::new(6, 1));
    assert_eq!(cell_position(4, area), Position::new(3, 2));
    assert_eq!(cell_position(7, area), Position::new(6, 2));
}

#[test]
fn color_resolver_test_shuffle() {
    let mut lcg = SimpleRng::new(12345);
    let mut vec = vec![1, 2, 3, 4, 5];
    let original = vec.clone();

    tachyonfx::shuffle(&mut vec, &mut lcg);

    assert_ne!(vec, original);
    assert_eq!(vec.len(), original.len());
    assert_eq!(vec.iter().sum::<i32>(), original.iter().sum::<i32>());
}

#[test]
fn glitch_tick_keeps_four_glitches_in_play_on_two_by_two() {
    let mut glitch = Glitch::new(0..40, 100..101, SimpleRng::new(11));
    // the first tick outlasts every wait: all four are active at once
    let active = glitch.tick(40, 4, 4, 4);
    assert_eq!(active.len(), 4);
    assert!(active.iter().all(|c| c.presleep_remaining_ms == 0 && c.cell_idx < 4));
    assert_eq!(glitch.glitch_cells.len(), 4);
    for _ in 0..40 {
        let before = glitch.glitch_cells.len();
        let active = glitch.tick(7, 4, 4, 4);
        // topped up to four, of which the expired ones leave at the end of the tick
        assert!(before <= 4);
        assert!(active.len() <= 4);
        assert!(glitch.glitch_cells.len() <= 4);
        assert!(glitch.glitch_cells.iter().all(|c| c.glitch_remaining_ms > 0));
    }
}

#[test]
fn glitch_tick_does_in_one_step_what_its_parts_do() {
    let mut whole = Glitch::new(5..30, 20..60, SimpleRng::new(3));
    let mut parts = Glitch::new(5..30, 20..60, SimpleRng::new(3));
    for tick in [10u32, 3, 25, 40, 8, 8, 60] {
        let active = whole.tick(tick, 6, 9, 8);
        parts.ensure_population(6, 9);
        parts.update_cells(tick);
        parts.drop_out_of_bounds(8);
        let expected = parts.active_cells();
        parts.remove_expired();
        assert_eq!(active, expected);
        assert_eq!(whole.glitch_cells, parts.glitch_cells);
        assert_eq!(whole.rng, parts.rng);
    }
}
