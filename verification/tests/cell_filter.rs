use ratatui::layout::{Constraint, Layout};
use tachyonfx::cell_filter::{region_at, Resolved};
use tachyonfx::fx;
use tachyonfx::fx::sleep::Sleep;
use tachyonfx::{
    Effect, Cell, CellFilter, CellPredicate, Color, Margin, Position, PositionPredicate, Rect,
};

struct OnPosition<F>(F);

impl<F: Fn(Position) -> bool> PositionPredicate for OnPosition<F> {
    fn test(&self, pos: Position) -> bool {
        (self.0)(pos)
    }
}

struct OnCell<F>(F);

impl<F: Fn(&Cell) -> bool> CellPredicate for OnCell<F> {
    fn test(&self, cell: &Cell) -> bool {
        (self.0)(cell)
    }
}

fn cell(symbol: &str) -> Cell {
    Cell { symbol: symbol.to_string(), fg: Color::White, bg: Color::Black }
}

fn selects(filter: &CellFilter, area: Rect, x: u16, y: u16, cell: &Cell) -> bool {
    filter.selector(area).expect("resolves").is_valid(Position::new(x, y), cell)
}

#[test]
fn test_cell_filter_to_string() {
    let filter = CellFilter::FgColor(Color::Red);
    assert_eq!(filter.to_string(), "fg(#800000)");

    let filter = CellFilter::BgColor(Color::Green);
    assert_eq!(filter.to_string(), "bg(#008000)");

    let filter = CellFilter::Inner(Margin::new(1, 1));
    assert_eq!(filter.to_string(), "inner(1:1)");

    let filter = CellFilter::Outer(Margin::new(3, 4));
    assert_eq!(filter.to_string(), "outer(3:4)");

    let filter = CellFilter::Text;
    assert_eq!(filter.to_string(), "text");

    let filter = CellFilter::AllOf(vec![
        CellFilter::FgColor(Color::Red),
        CellFilter::BgColor(Color::Green),
    ]);
    assert_eq!(filter.to_string(), "all_of(fg(#800000), bg(#008000))");

    let filter = CellFilter::AnyOf(vec![
        CellFilter::FgColor(Color::Red),
        CellFilter::BgColor(Color::Green),
    ]);
    assert_eq!(filter.to_string(), "any_of(fg(#800000), bg(#008000))");

    let filter = CellFilter::NoneOf(vec![
        CellFilter::FgColor(Color::Red),
        CellFilter::BgColor(Color::Green),
    ]);
    assert_eq!(filter.to_string(), "none_of(fg(#800000), bg(#008000))");

    let filter = CellFilter::Not(Box::new(CellFilter::FgColor(Color::Red)));
    assert_eq!(filter.to_string(), "!fg(#800000)");

    let filter = CellFilter::Layout(Layout::horizontal(&[] as &[Constraint]), 0);
    assert_eq!(filter.to_string(), "layout(0)");

    let filter = CellFilter::apply_position_fn(Box::new(OnPosition(|_: Position| true)));
    assert_eq!(filter.to_string(), "position_fn");

    let filter = CellFilter::eval_fn(Box::new(OnCell(|_: &Cell| true)));
    assert_eq!(filter.to_string(), "cell_fn");
}

#[test]
fn predicates_decide_for_positions_and_cells() {
    let area = Rect::new(0, 0, 4, 4);
    let diagonal = CellFilter::apply_position_fn(Box::new(OnPosition(|p: Position| p.x == p.y)));
    let c = cell("x");
    assert!(selects(&diagonal, area, 2, 2, &c));
    assert!(!selects(&diagonal, area, 2, 1, &c));
    // a position predicate is not bound to the area
    assert!(selects(&diagonal, area, 9, 9, &c));
    assert_eq!(diagonal.selector(area).unwrap().inner_area, area);

    let wide = CellFilter::eval_fn(Box::new(OnCell(|c: &Cell| c.symbol.len() > 1)));
    assert!(selects(&wide, area, 0, 0, &cell("ab")));
    assert!(!selects(&wide, area, 0, 0, &cell("a")));
    assert!(!selects(&wide, area, 4, 0, &cell("ab")));

    let both = CellFilter::AllOf(vec![diagonal.clone(), CellFilter::Not(Box::new(wide))]);
    assert!(selects(&both, area, 1, 1, &cell("a")));
    assert!(!selects(&both, area, 1, 1, &cell("ab")));
    assert!(!selects(&both, area, 1, 2, &cell("a")));
    assert_eq!(both.to_string(), "all_of(position_fn, !cell_fn)");
}

#[test]
fn to_string_writes_numbers_and_colours_in_full() {
    assert_eq!(CellFilter::All.to_string(), "all");
    assert_eq!(CellFilter::Inner(Margin::new(0, 65535)).to_string(), "inner(0:65535)");
    assert_eq!(CellFilter::Outer(Margin::new(10, 209)).to_string(), "outer(10:209)");
    assert_eq!(CellFilter::FgColor(Color::Rgb(0, 171, 255)).to_string(), "fg(#00abff)");
    assert_eq!(CellFilter::BgColor(Color::Indexed(99)).to_string(), "bg(#875fff)");
    assert_eq!(CellFilter::AllOf(vec![]).to_string(), "all_of()");
    assert_eq!(CellFilter::AnyOf(vec![CellFilter::Text]).to_string(), "any_of(text)");
    assert_eq!(
        CellFilter::Not(Box::new(CellFilter::NoneOf(vec![
            CellFilter::All,
            CellFilter::Text,
            CellFilter::Layout(Layout::vertical([Constraint::Min(0)]), 12),
        ])))
        .to_string(),
        "!none_of(all, text, layout(12))"
    );
}

#[test]
fn not_text_selects_the_complement_of_text() {
    let area = Rect::new(0, 0, 3, 3);
    let text = CellFilter::Text;
    let not_text = CellFilter::Not(Box::new(CellFilter::Text));
    let accepted: Vec<char> = "abc 123 ?!.,".chars().collect();
    let rejected = [
        '-', '_', '#', '$', '%', '(', ')', '[', ']', '{', '}', '<', '>', '/', '\\', '|', '*', '+',
        '=', '~', '^', '@', '&', '\'', '"', '`', '│', '█', '─', '€', '\n',
    ];
    for ch in accepted {
        let c = cell(&ch.to_string());
        assert!(selects(&text, area, 1, 1, &c), "text accepts {ch:?}");
        assert!(!selects(&not_text, area, 1, 1, &c), "not-text rejects {ch:?}");
    }
    // letters and digits of any script count
    for ch in [':', ';', 'Z', 'q', '0', '9', 'é', 'ß', 'Ω', 'я', '中', '٣', '½'] {
        let c = cell(&ch.to_string());
        assert!(selects(&text, area, 0, 2, &c));
        assert!(!selects(&not_text, area, 0, 2, &c));
    }
    for ch in rejected {
        let c = cell(&ch.to_string());
        assert!(!selects(&text, area, 1, 1, &c), "text rejects {ch:?}");
        assert!(selects(&not_text, area, 1, 1, &c), "not-text accepts {ch:?}");
    }
    // symbols of no or several characters are no text
    for symbol in ["", "ab", "a ", "12"] {
        let c = cell(symbol);
        assert!(!selects(&text, area, 1, 1, &c));
        assert!(selects(&not_text, area, 1, 1, &c));
    }
    // outside the area neither selects
    let c = cell("a");
    assert!(!selects(&text, area, 3, 1, &c));
    assert!(!selects(&not_text, area, 3, 1, &cell("#")));
}

#[test]
fn all_selects_the_whole_area_and_nothing_else() {
    let area = Rect::new(2, 1, 3, 2);
    let c = cell("x");
    let selector = CellFilter::All.selector(area).unwrap();
    assert_eq!(selector.inner_area, area);
    for (x, y, expected) in [(2, 1, true), (4, 2, true), (1, 1, false), (5, 1, false), (2, 0, false), (2, 3, false)] {
        assert_eq!(selector.is_valid(Position::new(x, y), &c), expected, "at {x},{y}");
    }
}

#[test]
fn inner_and_outer_margins_split_the_area() {
    let area = Rect::new(0, 0, 6, 4);
    let c = cell("x");
    let inner = CellFilter::Inner(Margin::new(2, 1));
    let outer = CellFilter::Outer(Margin::new(2, 1));
    assert_eq!(inner.selector(area).unwrap().inner_area, Rect::new(2, 1, 2, 2));
    assert_eq!(outer.selector(area).unwrap().inner_area, Rect::new(2, 1, 2, 2));
    for y in 0..4 {
        for x in 0..6 {
            let inside = (2..4).contains(&x) && (1..3).contains(&y);
            assert_eq!(selects(&inner, area, x, y, &c), inside);
            assert_eq!(selects(&outer, area, x, y, &c), !inside);
        }
    }
    // the outer margin also accepts what lies outside the area altogether
    assert!(selects(&outer, area, 40, 40, &c));
    // margins that leave nothing select nothing
    let swallowed = CellFilter::Inner(Margin::new(3, 2));
    assert_eq!(swallowed.selector(area).unwrap().inner_area, Rect::new(3, 2, 0, 0));
    assert!(!selects(&swallowed, area, 3, 2, &c));
    let too_big = CellFilter::Inner(Margin::new(4, 0));
    assert_eq!(too_big.selector(area).unwrap().inner_area, Rect::new(0, 0, 0, 0));
}

#[test]
fn colour_filters_require_the_exact_colour() {
    let area = Rect::new(0, 0, 2, 2);
    let red_on_blue = Cell { symbol: "x".to_string(), fg: Color::Red, bg: Color::Blue };
    assert!(selects(&CellFilter::FgColor(Color::Red), area, 0, 0, &red_on_blue));
    assert!(!selects(&CellFilter::FgColor(Color::LightRed), area, 0, 0, &red_on_blue));
    assert!(!selects(&CellFilter::FgColor(Color::Rgb(128, 0, 0)), area, 0, 0, &red_on_blue));
    assert!(selects(&CellFilter::BgColor(Color::Blue), area, 1, 1, &red_on_blue));
    assert!(!selects(&CellFilter::BgColor(Color::Red), area, 1, 1, &red_on_blue));
    assert!(!selects(&CellFilter::FgColor(Color::Red), area, 2, 0, &red_on_blue));
}

#[test]
fn combinations_combine_position_and_content() {
    let area = Rect::new(0, 0, 6, 4);
    let letter = Cell { symbol: "a".to_string(), fg: Color::Red, bg: Color::Black };
    let hash = Cell { symbol: "#".to_string(), fg: Color::Red, bg: Color::Black };
    let all_of = CellFilter::AllOf(vec![CellFilter::Text, CellFilter::Inner(Margin::new(1, 1))]);
    assert!(selects(&all_of, area, 1, 1, &letter));
    assert!(!selects(&all_of, area, 0, 0, &letter));
    assert!(!selects(&all_of, area, 1, 1, &hash));

    let any_of = CellFilter::AnyOf(vec![CellFilter::Text, CellFilter::FgColor(Color::Blue)]);
    assert!(selects(&any_of, area, 0, 0, &letter));
    assert!(!selects(&any_of, area, 0, 0, &hash));
    assert!(!selects(&any_of, area, 6, 0, &letter));

    // no child may accept the position, and none the content
    let none_of = CellFilter::NoneOf(vec![CellFilter::Inner(Margin::new(1, 1))]);
    assert!(!selects(&none_of, area, 0, 0, &hash));
    let none_of = CellFilter::NoneOf(vec![CellFilter::AllOf(vec![
        CellFilter::Inner(Margin::new(1, 1)),
        CellFilter::Text,
    ])]);
    assert!(selects(&none_of, area, 0, 0, &hash));
    assert!(!selects(&none_of, area, 0, 0, &letter));
    assert!(!selects(&none_of, area, 1, 1, &hash));

    assert!(selects(&CellFilter::AllOf(vec![]), area, 99, 99, &hash));
    assert!(!selects(&CellFilter::AnyOf(vec![]), area, 0, 0, &hash));
    assert!(selects(&CellFilter::NoneOf(vec![]), area, 0, 0, &hash));
}

#[test]
fn negated_margin_narrows_the_area_like_the_margin() {
    let area = Rect::new(0, 0, 6, 4);
    let c = cell("x");
    let not_inner = CellFilter::Not(Box::new(CellFilter::Inner(Margin::new(1, 1))));
    let selector = not_inner.selector(area).unwrap();
    assert_eq!(selector.inner_area, Rect::new(1, 1, 4, 2));
    // the position test is that of the margin; the content test, always met by
    // a margin, is negated
    assert!(!selector.is_valid(Position::new(1, 1), &c));
    assert!(!selector.is_valid(Position::new(0, 0), &c));
    let not_not = CellFilter::Not(Box::new(not_inner));
    assert!(selects(&not_not, area, 1, 1, &c));
    assert!(!selects(&not_not, area, 0, 0, &c));
}

#[test]
fn layout_filter_selects_one_region() {
    let area = Rect::new(0, 0, 10, 4);
    let c = cell("x");
    let layout = Layout::horizontal([Constraint::Length(3), Constraint::Length(7)]);
    let second = CellFilter::Layout(layout.clone(), 1);
    let selector = second.selector(area).unwrap();
    assert_eq!(selector.inner_area, Rect::new(3, 0, 7, 4));
    assert!(!selector.is_valid(Position::new(2, 0), &c));
    assert!(selector.is_valid(Position::new(3, 3), &c));
    let first = CellFilter::Layout(layout.clone(), 0);
    assert_eq!(first.selector(area).unwrap().inner_area, Rect::new(0, 0, 3, 4));
    // a region the layout does not have
    assert!(CellFilter::Layout(layout.clone(), 2).selector(area).is_none());
    assert!(CellFilter::AllOf(vec![CellFilter::Text, CellFilter::Layout(layout, 7)])
        .selector(area)
        .is_none());
}

#[test]
fn default_filter_selects_everything() {
    assert!(matches!(CellFilter::default(), CellFilter::All));
}

#[test]
fn a_cloned_filter_selects_and_reads_the_same() {
    let layout = Layout::vertical([Constraint::Length(1), Constraint::Min(0)]);
    let filter = CellFilter::AllOf(vec![
        CellFilter::Not(Box::new(CellFilter::Text)),
        CellFilter::AnyOf(vec![CellFilter::Inner(Margin::new(1, 0)), CellFilter::FgColor(Color::Red)]),
        CellFilter::NoneOf(vec![CellFilter::Layout(layout, 0), CellFilter::BgColor(Color::Blue)]),
    ]);
    let copy = filter.clone();
    assert_eq!(copy.to_string(), filter.to_string());
    assert_eq!(copy.to_string(), "all_of(!text, any_of(inner(1:0), fg(#800000)), none_of(layout(0), bg(#000080)))");
    let area = Rect::new(0, 0, 5, 3);
    for y in 0..4 {
        for x in 0..6 {
            for c in [cell("a"), cell("#"), Cell { symbol: "#".to_string(), fg: Color::Red, bg: Color::Blue }] {
                assert_eq!(selects(&copy, area, x, y, &c), selects(&filter, area, x, y, &c));
            }
        }
    }
}

#[test]
fn a_layout_filter_takes_the_region_at_its_index() {
    let regions = vec![Rect::new(0, 0, 3, 4), Rect::new(3, 0, 7, 4)];
    assert!(matches!(region_at(&regions, 0), Some(Resolved::Within(r)) if r == Rect::new(0, 0, 3, 4)));
    assert!(matches!(region_at(&regions, 1), Some(Resolved::Within(r)) if r == Rect::new(3, 0, 7, 4)));
    assert!(region_at(&regions, 2).is_none());
    assert!(region_at(&Vec::new(), 0).is_none());
}

#[test]
fn ping_pong_starts_forward_and_selects_everything() {
    let effect: Effect<Sleep> = fx::ping_pong(fx::sleep(100u32));
    assert!(matches!(effect.cell_selection().as_deref(), Some(CellFilter::All)));
    assert!(!effect.done());
}
