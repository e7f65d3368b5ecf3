//! Selecting the cells an effect applies to.

use crate::color_ext::{rgb_of, Color, ToRgbComponents};
use crate::geometry::{Margin, Position, Rect};
use crate::shader::share;
use ratatui::layout::Layout;
use std::rc::Rc;
use vstd::prelude::*;

verus! {

/// A recipe for dividing an area into regions. The library stores it and hands
/// it back to the layout engine; it never looks inside.
#[verifier::external_type_specification]
#[verifier::external_body]
pub struct ExLayout(ratatui::layout::Layout);

/// What a filter reads of a cell: its glyph and its two colours.
#[derive(Clone, Debug, PartialEq, Eq)]
pub struct Cell {
    pub symbol: String,
    pub fg: Color,
    pub bg: Color,
}

/// A test on positions supplied by the caller.
///
/// The verdict is expected to depend on the position alone; `accepts` is the
/// name under which the filters speak of it.
pub trait PositionPredicate {
    closed spec fn accepts(&self, pos: Position) -> bool {
        let named: spec_fn(&Self, Position) -> bool = arbitrary();
        named(self, pos)
    }

    fn test(&self, pos: Position) -> (verdict: bool)
        ensures
            verdict == self.accepts(pos),
    ;
}

/// A test on cells supplied by the caller.
///
/// The verdict is expected to depend on the cell alone; `accepts` is the name
/// under which the filters speak of it.
pub trait CellPredicate {
    closed spec fn accepts(&self, cell: Cell) -> bool {
        let named: spec_fn(&Self, Cell) -> bool = arbitrary();
        named(self, cell)
    }

    fn test(&self, cell: &Cell) -> (verdict: bool)
        ensures
            verdict == self.accepts(*cell),
    ;
}

/// A predicate over positions and cells, built up from simpler ones.
pub enum CellFilter {
    /// Selects every cell.
    All,
    /// Selects cells with matching foreground colour.
    FgColor(Color),
    /// Selects cells with matching background colour.
    BgColor(Color),
    /// Selects cells within the inner margin of the area.
    Inner(Margin),
    /// Selects cells outside the inner margin of the area.
    Outer(Margin),
    /// Selects cells holding a text glyph.
    Text,
    /// Selects cells that match all the given filters.
    AllOf(Vec<CellFilter>),
    /// Selects cells that match any of the given filters.
    AnyOf(Vec<CellFilter>),
    /// Selects cells that match none of the given filters.
    NoneOf(Vec<CellFilter>),
    /// Negates the given filter.
    Not(Box<CellFilter>),
    /// Selects cells within one region of the layout, denoted by its index.
    Layout(Layout, u16),
    /// Selects the positions that the predicate accepts.
    PositionFn(Rc<Box<dyn PositionPredicate>>),
    /// Selects the cells of the area that the predicate accepts.
    EvalCell(Rc<Box<dyn CellPredicate>>),
}

/// A filter resolved against an area: every node carries the rectangle it
/// tests positions against.
pub enum Resolved {
    /// Any cell inside the rectangle.
    Within(Rect),
    /// Any cell outside the rectangle.
    Outside(Rect),
    /// Cells inside the rectangle that hold a text glyph.
    Text(Rect),
    /// Cells inside the rectangle with the given foreground colour.
    Fg(Rect, Color),
    /// Cells inside the rectangle with the given background colour.
    Bg(Rect, Color),
    /// Any cell at a position that the predicate accepts.
    PositionFn(Rc<Box<dyn PositionPredicate>>),
    /// Cells inside the rectangle that the predicate accepts.
    EvalCell(Rect, Rc<Box<dyn CellPredicate>>),
    AllOf(ResolvedList),
    AnyOf(ResolvedList),
    NoneOf(ResolvedList),
    Not(Box<Resolved>),
}

pub enum ResolvedList {
    Nil,
    Cons(Box<Resolved>, Box<ResolvedList>),
}

/// The decision procedure a filter resolves to for one area.
pub struct CellSelector {
    pub inner_area: Rect,
    pub strategy: Resolved,
}

/// Whether std counts the character as alphabetic: the result of
/// `char::is_alphabetic`.
pub uninterp spec fn alphabetic(c: char) -> bool;

/// Whether std counts the character as numeric: the result of
/// `char::is_numeric`.
pub uninterp spec fn numeric(c: char) -> bool;

/// A character counts as text when it is alphabetic, numeric, a space or one
/// of `?!.,:;`.
pub open spec fn is_text_char(c: char) -> bool {
    ||| alphabetic(c)
    ||| numeric(c)
    ||| c == ' '
    ||| c == '?'
    ||| c == '!'
    ||| c == '.'
    ||| c == ','
    ||| c == ':'
    ||| c == ';'
}

/// A glyph counts as text when it is a single text character.
pub open spec fn is_text_glyph(symbol: Seq<char>) -> bool {
    symbol.len() == 1 && is_text_char(symbol[0])
}

impl Resolved {
    /// The position half of the decision.
    pub open spec fn accepts_position(self, pos: Position) -> bool
        decreases self, 1int,
    {
        match self {
            Resolved::Within(r) => r.holds(pos),
            Resolved::Outside(r) => !r.holds(pos),
            Resolved::Text(r) => r.holds(pos),
            Resolved::Fg(r, _) => r.holds(pos),
            Resolved::Bg(r, _) => r.holds(pos),
            Resolved::PositionFn(predicate) => predicate.accepts(pos),
            Resolved::EvalCell(r, _) => r.holds(pos),
            Resolved::AllOf(list) => list.all_accept_position(pos),
            Resolved::AnyOf(list) => list.any_accepts_position(pos),
            Resolved::NoneOf(list) => !list.any_accepts_position(pos),
            Resolved::Not(inner) => inner.accepts_position(pos),
        }
    }

    /// The content half of the decision.
    pub open spec fn accepts_cell(self, cell: Cell) -> bool
        decreases self, 1int,
    {
        match self {
            Resolved::Within(_) => true,
            Resolved::Outside(_) => true,
            Resolved::Text(_) => is_text_glyph(cell.symbol@),
            Resolved::Fg(_, color) => cell.fg == color,
            Resolved::Bg(_, color) => cell.bg == color,
            Resolved::PositionFn(_) => true,
            Resolved::EvalCell(_, predicate) => predicate.accepts(cell),
            Resolved::AllOf(list) => list.all_accept_cell(cell),
            Resolved::AnyOf(list) => list.any_accepts_cell(cell),
            Resolved::NoneOf(list) => !list.any_accepts_cell(cell),
            Resolved::Not(inner) => !inner.accepts_cell(cell),
        }
    }

    /// The area the selector reports: the rectangle of a simple node, the
    /// area handed in for a combination, and for a negation that of the
    /// node it negates.
    pub open spec fn narrowed(self, outer: Rect) -> Rect
        decreases self,
    {
        match self {
            Resolved::Within(r) => r,
            Resolved::Outside(r) => r,
            Resolved::Text(r) => r,
            Resolved::Fg(r, _) => r,
            Resolved::Bg(r, _) => r,
            Resolved::EvalCell(r, _) => r,
            Resolved::Not(inner) => inner.narrowed(outer),
            _ => outer,
        }
    }

    /// A cell is selected when both halves accept it.
    pub open spec fn selects(self, pos: Position, cell: Cell) -> bool {
        self.accepts_position(pos) && self.accepts_cell(cell)
    }

    pub fn resolve_area(&self, outer: Rect) -> (area: Rect)
        ensures
            area == self.narrowed(outer),
        decreases self,
    {
        match self {
            Resolved::Within(r) => *r,
            Resolved::Outside(r) => *r,
            Resolved::Text(r) => *r,
            Resolved::Fg(r, _) => *r,
            Resolved::Bg(r, _) => *r,
            Resolved::EvalCell(r, _) => *r,
            Resolved::Not(inner) => inner.resolve_area(outer),
            _ => outer,
        }
    }

    pub fn valid_position(&self, pos: Position) -> (valid: bool)
        ensures
            valid == self.accepts_position(pos),
        decreases self, 1int,
    {
        match self {
            Resolved::Within(r) => r.contains(pos),
            Resolved::Outside(r) => !r.contains(pos),
            Resolved::Text(r) => r.contains(pos),
            Resolved::Fg(r, _) => r.contains(pos),
            Resolved::Bg(r, _) => r.contains(pos),
            Resolved::PositionFn(predicate) => predicate.test(pos),
            Resolved::EvalCell(r, _) => r.contains(pos),
            Resolved::AllOf(list) => list.all_valid_position(pos),
            Resolved::AnyOf(list) => list.any_valid_position(pos),
            Resolved::NoneOf(list) => !list.any_valid_position(pos),
            Resolved::Not(inner) => inner.valid_position(pos),
        }
    }

    pub fn is_valid_cell(&self, cell: &Cell) -> (valid: bool)
        ensures
            valid == self.accepts_cell(*cell),
        decreases self, 1int,
    {
        match self {
            Resolved::Within(_) => true,
            Resolved::Outside(_) => true,
            Resolved::Text(_) => holds_text(cell.symbol.as_str()),
            Resolved::Fg(_, color) => cell.fg == *color,
            Resolved::Bg(_, color) => cell.bg == *color,
            Resolved::PositionFn(_) => true,
            Resolved::EvalCell(_, predicate) => predicate.test(cell),
            Resolved::AllOf(list) => list.all_valid_cell(cell),
            Resolved::AnyOf(list) => list.any_valid_cell(cell),
            Resolved::NoneOf(list) => !list.any_valid_cell(cell),
            Resolved::Not(inner) => !inner.is_valid_cell(cell),
        }
    }
}

impl ResolvedList {
    pub open spec fn all_accept_position(self, pos: Position) -> bool
        decreases self, 0int,
    {
        match self {
            ResolvedList::Nil => true,
            ResolvedList::Cons(head, tail) => head.accepts_position(pos)
                && tail.all_accept_position(pos),
        }
    }

    pub open spec fn any_accepts_position(self, pos: Position) -> bool
        decreases self, 0int,
    {
        match self {
            ResolvedList::Nil => false,
            ResolvedList::Cons(head, tail) => head.accepts_position(pos)
                || tail.any_accepts_position(pos),
        }
    }

    pub open spec fn all_accept_cell(self, cell: Cell) -> bool
        decreases self, 0int,
    {
        match self {
            ResolvedList::Nil => true,
            ResolvedList::Cons(head, tail) => head.accepts_cell(cell) && tail.all_accept_cell(cell),
        }
    }

    pub open spec fn any_accepts_cell(self, cell: Cell) -> bool
        decreases self, 0int,
    {
        match self {
            ResolvedList::Nil => false,
            ResolvedList::Cons(head, tail) => head.accepts_cell(cell) || tail.any_accepts_cell(cell),
        }
    }

    fn all_valid_position(&self, pos: Position) -> (valid: bool)
        ensures
            valid == self.all_accept_position(pos),
        decreases self, 0int,
    {
        match self {
            ResolvedList::Nil => true,
            ResolvedList::Cons(head, tail) => head.valid_position(pos) && tail.all_valid_position(
                pos,
            ),
        }
    }

    fn any_valid_position(&self, pos: Position) -> (valid: bool)
        ensures
            valid == self.any_accepts_position(pos),
        decreases self, 0int,
    {
        match self {
            ResolvedList::Nil => false,
            ResolvedList::Cons(head, tail) => head.valid_position(pos) || tail.any_valid_position(
                pos,
            ),
        }
    }

    fn all_valid_cell(&self, cell: &Cell) -> (valid: bool)
        ensures
            valid == self.all_accept_cell(*cell),
        decreases self, 0int,
    {
        match self {
            ResolvedList::Nil => true,
            ResolvedList::Cons(head, tail) => head.is_valid_cell(cell) && tail.all_valid_cell(cell),
        }
    }

    fn any_valid_cell(&self, cell: &Cell) -> (valid: bool)
        ensures
            valid == self.any_accepts_cell(*cell),
        decreases self, 0int,
    {
        match self {
            ResolvedList::Nil => false,
            ResolvedList::Cons(head, tail) => head.is_valid_cell(cell) || tail.any_valid_cell(cell),
        }
    }
}

/// `char::is_alphabetic`, which goes by the Alphabetic property of the
/// Unicode standard; the verdict is named.
#[verifier::external_body]
fn char_is_alphabetic(c: char) -> (verdict: bool)
    ensures
        verdict == alphabetic(c),
{
    c.is_alphabetic()
}

/// `char::is_numeric`, which goes by the general categories for numbers of
/// the Unicode standard; the verdict is named.
#[verifier::external_body]
fn char_is_numeric(c: char) -> (verdict: bool)
    ensures
        verdict == numeric(c),
{
    c.is_numeric()
}

/// Whether the character counts as text.
pub fn holds_text_char(c: char) -> (text: bool)
    ensures
        text == is_text_char(c),
{
    char_is_alphabetic(c) || char_is_numeric(c) || c == ' ' || c == '?' || c == '!' || c == '.'
        || c == ',' || c == ':' || c == ';'
}

/// Whether the glyph is a text glyph.
pub fn holds_text(symbol: &str) -> (text: bool)
    ensures
        text == is_text_glyph(symbol@),
{
    if symbol.unicode_len() != 1 {
        return false;
    }
    holds_text_char(symbol.get_char(0))
}

impl CellFilter {
    /// Whether a layout occurs anywhere in the filter.
    pub open spec fn has_layout(self) -> bool
        decreases self,
    {
        match self {
            CellFilter::AllOf(filters) => any_has_layout(filters@),
            CellFilter::AnyOf(filters) => any_has_layout(filters@),
            CellFilter::NoneOf(filters) => any_has_layout(filters@),
            CellFilter::Not(inner) => inner.has_layout(),
            CellFilter::Layout(_, _) => true,
            _ => false,
        }
    }

    /// The area the filter narrows `area` to. Margins narrow it; every other
    /// filter without a layout keeps it, and a negation takes the area of the
    /// filter it negates.
    pub open spec fn resolved_area(self, area: Rect) -> Rect
        decreases self,
    {
        match self {
            CellFilter::Inner(margin) => area.inset(margin),
            CellFilter::Outer(margin) => area.inset(margin),
            CellFilter::Not(inner) => inner.resolved_area(area),
            _ => area,
        }
    }

    /// The decision procedure of a filter without layouts for `area`.
    ///
    /// The filters of a combination are each resolved against the area of the
    /// combination; a negation is resolved as the filter it negates.
    pub open spec fn resolved(self, area: Rect) -> Resolved
        decreases self,
    {
        match self {
            CellFilter::All => Resolved::Within(area),
            CellFilter::FgColor(color) => Resolved::Fg(area, color),
            CellFilter::BgColor(color) => Resolved::Bg(area, color),
            CellFilter::Inner(margin) => Resolved::Within(area.inset(margin)),
            CellFilter::Outer(margin) => Resolved::Outside(area.inset(margin)),
            CellFilter::Text => Resolved::Text(area),
            CellFilter::AllOf(filters) => Resolved::AllOf(all_resolved(filters@, area)),
            CellFilter::AnyOf(filters) => Resolved::AnyOf(all_resolved(filters@, area)),
            CellFilter::NoneOf(filters) => Resolved::NoneOf(all_resolved(filters@, area)),
            CellFilter::Not(inner) => Resolved::Not(Box::new(inner.resolved(area))),
            CellFilter::Layout(_, _) => Resolved::Within(area),
            CellFilter::PositionFn(predicate) => Resolved::PositionFn(predicate),
            CellFilter::EvalCell(predicate) => Resolved::EvalCell(area, predicate),
        }
    }

    /// Whether `node` is a decision procedure of the filter for `area`: the
    /// one that `resolved` gives, except that a layout may stand for any
    /// rectangle, since the regions are the layout engine's to choose.
    pub open spec fn resolves_to(self, area: Rect, node: Resolved) -> bool
        decreases self,
    {
        match self {
            CellFilter::AllOf(filters) => node matches Resolved::AllOf(list) && all_resolve_to(
                filters@,
                area,
                list,
            ),
            CellFilter::AnyOf(filters) => node matches Resolved::AnyOf(list) && all_resolve_to(
                filters@,
                area,
                list,
            ),
            CellFilter::NoneOf(filters) => node matches Resolved::NoneOf(list) && all_resolve_to(
                filters@,
                area,
                list,
            ),
            CellFilter::Not(inner) => node matches Resolved::Not(negated) && inner.resolves_to(
                area,
                *negated,
            ),
            CellFilter::Layout(_, _) => node is Within,
            _ => node == self.resolved(area),
        }
    }
}

/// `ratatui::layout::Layout::split`, each region copied out field by field.
/// Nothing is claimed of the regions: how many there are and where they lie is
/// for the layout engine to decide.
#[verifier::external_body]
fn layout_regions(layout: &Layout, area: Rect) -> (regions: Vec<Rect>) {
    let outer = ratatui::layout::Rect { x: area.x, y: area.y, width: area.width, height: area.height };
    layout.split(outer).iter().map(|r| Rect { x: r.x, y: r.y, width: r.width, height: r.height }).collect()
}

impl CellFilter {
    /// Resolves the filter against `area`. A filter without layouts always
    /// resolves; one with a layout resolves unless an index names a region
    /// that the layout engine did not produce.
    pub fn selector(&self, area: Rect) -> (selector: Option<CellSelector>)
        ensures
            selector matches Some(s) ==> {
                &&& self.resolves_to(area, s.strategy)
                &&& s.inner_area == s.strategy.narrowed(area)
                &&& !self.has_layout() ==> s.strategy == self.resolved(area) && s.inner_area
                    == self.resolved_area(area)
            },
            selector.is_none() ==> self.has_layout(),
    {
        match self.resolve(area) {
            Some(strategy) => {
                let inner_area = strategy.resolve_area(area);
                proof {
                    if !self.has_layout() {
                        lemma_narrowed_is_resolved_area(*self, area);
                    }
                }
                Some(CellSelector { inner_area, strategy })
            },
            None => None,
        }
    }

    fn resolve(&self, area: Rect) -> (node: Option<Resolved>)
        ensures
            node matches Some(n) ==> self.resolves_to(area, n) && (!self.has_layout() ==> n
                == self.resolved(area)),
            node.is_none() ==> self.has_layout(),
        decreases self,
    {
        match self {
            CellFilter::All => Some(Resolved::Within(area)),
            CellFilter::FgColor(color) => Some(Resolved::Fg(area, *color)),
            CellFilter::BgColor(color) => Some(Resolved::Bg(area, *color)),
            CellFilter::Inner(margin) => Some(Resolved::Within(area.inner(*margin))),
            CellFilter::Outer(margin) => Some(Resolved::Outside(area.inner(*margin))),
            CellFilter::Text => Some(Resolved::Text(area)),
            CellFilter::AllOf(filters) => match resolve_all(filters, area) {
                Some(list) => Some(Resolved::AllOf(list)),
                None => None,
            },
            CellFilter::AnyOf(filters) => match resolve_all(filters, area) {
                Some(list) => Some(Resolved::AnyOf(list)),
                None => None,
            },
            CellFilter::NoneOf(filters) => match resolve_all(filters, area) {
                Some(list) => Some(Resolved::NoneOf(list)),
                None => None,
            },
            CellFilter::Not(inner) => match inner.resolve(area) {
                Some(negated) => Some(Resolved::Not(Box::new(negated))),
                None => None,
            },
            CellFilter::Layout(layout, index) => {
                let regions = layout_regions(layout, area);
                region_at(&regions, *index)
            },
            CellFilter::PositionFn(predicate) => Some(Resolved::PositionFn(share(predicate))),
            CellFilter::EvalCell(predicate) => Some(Resolved::EvalCell(area, share(predicate))),
        }
    }
}

/// What a layout filter resolves to, given the regions its layout was split
/// into: the cells within the region at `index`, or nothing where the layout
/// has no region at that index.
pub fn region_at(regions: &Vec<Rect>, index: u16) -> (node: Option<Resolved>)
    ensures
        index < regions@.len() ==> node == Some(Resolved::Within(regions@[index as int])),
        index >= regions@.len() ==> node.is_none(),
{
    let index = index as usize;
    if index < regions.len() {
        Some(Resolved::Within(regions[index]))
    } else {
        None
    }
}

fn resolve_all(filters: &Vec<CellFilter>, area: Rect) -> (list: Option<ResolvedList>)
    ensures
        list matches Some(l) ==> all_resolve_to(filters@, area, l) && (!any_has_layout(filters@)
            ==> l == all_resolved(filters@, area)),
        list.is_none() ==> any_has_layout(filters@),
    decreases filters,
{
    let mut list = ResolvedList::Nil;
    let mut i = filters.len();
    proof {
        assert(filters@.subrange(i as int, filters@.len() as int) =~= Seq::empty());
    }
    while i > 0
        invariant
            i <= filters@.len(),
            all_resolve_to(filters@.subrange(i as int, filters@.len() as int), area, list),
            !any_has_layout(filters@.subrange(i as int, filters@.len() as int)) ==> list
                == all_resolved(filters@.subrange(i as int, filters@.len() as int), area),
            any_has_layout(filters@.subrange(i as int, filters@.len() as int)) ==> any_has_layout(
                filters@,
            ),
        decreases i,
    {
        i -= 1;
        let ghost rest = filters@.subrange(i as int + 1, filters@.len() as int);
        let ghost here = filters@.subrange(i as int, filters@.len() as int);
        proof {
            assert(here.drop_first() =~= rest);
            assert(here[0] == filters@[i as int]);
            lemma_layout_in_part(filters@, i as int);
        }
        match filters[i].resolve(area) {
            Some(node) => {
                list = ResolvedList::Cons(Box::new(node), Box::new(list));
            },
            None => {
                return None;
            },
        }
    }
    proof {
        assert(filters@.subrange(0, filters@.len() as int) =~= filters@);
    }
    Some(list)
}

/// A layout in the filters from `from` on is a layout in the filters.
proof fn lemma_layout_in_part(filters: Seq<CellFilter>, from: int)
    requires
        0 <= from <= filters.len(),
    ensures
        any_has_layout(filters.subrange(from, filters.len() as int)) ==> any_has_layout(filters),
    decreases from,
{
    if from > 0 {
        let part = filters.subrange(from - 1, filters.len() as int);
        assert(part.drop_first() =~= filters.subrange(from, filters.len() as int));
        lemma_layout_in_part(filters, from - 1);
    } else {
        assert(filters.subrange(0, filters.len() as int) =~= filters);
    }
}

/// Without layouts, the area a selector reports is the area the filter narrows to.
proof fn lemma_narrowed_is_resolved_area(filter: CellFilter, area: Rect)
    requires
        !filter.has_layout(),
    ensures
        filter.resolved(area).narrowed(area) == filter.resolved_area(area),
    decreases filter,
{
    match filter {
        CellFilter::Not(inner) => {
            lemma_narrowed_is_resolved_area(*inner, area);
        },
        _ => {},
    }
}

pub open spec fn any_has_layout(filters: Seq<CellFilter>) -> bool
    decreases filters,
{
    if filters.len() == 0 {
        false
    } else {
        filters[0].has_layout() || any_has_layout(filters.drop_first())
    }
}

pub open spec fn all_resolved(filters: Seq<CellFilter>, area: Rect) -> ResolvedList
    decreases filters,
{
    if filters.len() == 0 {
        ResolvedList::Nil
    } else {
        ResolvedList::Cons(
            Box::new(filters[0].resolved(area)),
            Box::new(all_resolved(filters.drop_first(), area)),
        )
    }
}

pub open spec fn all_resolve_to(filters: Seq<CellFilter>, area: Rect, list: ResolvedList) -> bool
    decreases filters,
{
    if filters.len() == 0 {
        list is Nil
    } else {
        list matches ResolvedList::Cons(head, tail) && filters[0].resolves_to(area, *head)
            && all_resolve_to(filters.drop_first(), area, *tail)
    }
}

/// The sixteen digits of a byte written in base sixteen.
pub open spec fn hex_digits() -> Seq<char> {
    "0123456789abcdef"@
}

/// A byte as two digits in base sixteen.
pub open spec fn hex_byte(byte: u8) -> Seq<char> {
    seq![hex_digits()[byte as int / 16], hex_digits()[byte as int % 16]]
}

/// A number in base ten, without leading zeros.
pub open spec fn decimal(n: nat) -> Seq<char>
    decreases n,
{
    if n < 10 {
        seq![hex_digits()[n as int]]
    } else {
        decimal(n / 10) + seq![hex_digits()[(n % 10) as int]]
    }
}

/// A colour as `#rrggbb`.
pub open spec fn hex_color(color: Color) -> Seq<char> {
    let (r, g, b) = rgb_of(color);
    "#"@ + hex_byte(r) + hex_byte(g) + hex_byte(b)
}

/// The descriptions of the filters, separated by a comma and a space.
pub open spec fn joined(filters: Seq<CellFilter>) -> Seq<char>
    decreases filters,
{
    if filters.len() == 0 {
        Seq::empty()
    } else if filters.len() == 1 {
        filters[0].description()
    } else {
        joined(filters.drop_last()) + ", "@ + filters.last().description()
    }
}

impl CellFilter {
    /// How the filter reads in diagnostics.
    pub open spec fn description(self) -> Seq<char>
        decreases self,
    {
        match self {
            CellFilter::All => "all"@,
            CellFilter::FgColor(color) => "fg("@ + hex_color(color) + ")"@,
            CellFilter::BgColor(color) => "bg("@ + hex_color(color) + ")"@,
            CellFilter::Inner(m) => "inner("@ + decimal(m.horizontal as nat) + ":"@ + decimal(
                m.vertical as nat,
            ) + ")"@,
            CellFilter::Outer(m) => "outer("@ + decimal(m.horizontal as nat) + ":"@ + decimal(
                m.vertical as nat,
            ) + ")"@,
            CellFilter::Text => "text"@,
            CellFilter::AllOf(filters) => "all_of("@ + joined(filters@) + ")"@,
            CellFilter::AnyOf(filters) => "any_of("@ + joined(filters@) + ")"@,
            CellFilter::NoneOf(filters) => "none_of("@ + joined(filters@) + ")"@,
            CellFilter::Not(inner) => "!"@ + inner.description(),
            CellFilter::Layout(_, index) => "layout("@ + decimal(index as nat) + ")"@,
            CellFilter::PositionFn(_) => "position_fn"@,
            CellFilter::EvalCell(_) => "cell_fn"@,
        }
    }

    pub fn to_string(&self) -> (text: String)
        ensures
            text@ == self.description(),
        decreases self,
    {
        match self {
            CellFilter::All => String::from_str("all"),
            CellFilter::FgColor(color) => wrapped("fg(", to_hex(color)),
            CellFilter::BgColor(color) => wrapped("bg(", to_hex(color)),
            CellFilter::Inner(m) => wrapped("inner(", format_margin(m)),
            CellFilter::Outer(m) => wrapped("outer(", format_margin(m)),
            CellFilter::Text => String::from_str("text"),
            CellFilter::AllOf(filters) => wrapped("all_of(", join_all(filters)),
            CellFilter::AnyOf(filters) => wrapped("any_of(", join_all(filters)),
            CellFilter::NoneOf(filters) => wrapped("none_of(", join_all(filters)),
            CellFilter::Not(inner) => {
                let mut text = String::from_str("!");
                let rest = inner.to_string();
                text.append(rest.as_str());
                text
            },
            CellFilter::Layout(_, index) => wrapped("layout(", decimal_string(*index)),
            CellFilter::PositionFn(_) => String::from_str("position_fn"),
            CellFilter::EvalCell(_) => String::from_str("cell_fn"),
        }
    }
}

impl CellFilter {
    /// A filter that selects the positions `predicate` accepts, wherever they lie.
    pub fn apply_position_fn(predicate: Box<dyn PositionPredicate>) -> (filter: Self)
        ensures
            filter == CellFilter::PositionFn(Rc::new(predicate)),
    {
        CellFilter::PositionFn(Rc::new(predicate))
    }

    /// A filter that selects the cells of the area that `predicate` accepts.
    pub fn eval_fn(predicate: Box<dyn CellPredicate>) -> (filter: Self)
        ensures
            filter == CellFilter::EvalCell(Rc::new(predicate)),
    {
        CellFilter::EvalCell(Rc::new(predicate))
    }

    /// A copy of the filter.
    pub fn clone_filter(&self) -> (copy: Self)
        ensures
            copy.description() == self.description(),
            copy.has_layout() == self.has_layout(),
            forall|area: Rect, node: Resolved|
                self.resolves_to(area, node) == #[trigger] copy.resolves_to(area, node),
            forall|area: Rect| self.resolved(area) == #[trigger] copy.resolved(area),
        decreases self,
    {
        let copy = match self {
            CellFilter::All => CellFilter::All,
            CellFilter::FgColor(color) => CellFilter::FgColor(*color),
            CellFilter::BgColor(color) => CellFilter::BgColor(*color),
            CellFilter::Inner(margin) => CellFilter::Inner(*margin),
            CellFilter::Outer(margin) => CellFilter::Outer(*margin),
            CellFilter::Text => CellFilter::Text,
            CellFilter::AllOf(filters) => CellFilter::AllOf(clone_all(filters)),
            CellFilter::AnyOf(filters) => CellFilter::AnyOf(clone_all(filters)),
            CellFilter::NoneOf(filters) => CellFilter::NoneOf(clone_all(filters)),
            CellFilter::Not(inner) => CellFilter::Not(Box::new(inner.clone_filter())),
            CellFilter::Layout(layout, index) => CellFilter::Layout(clone_layout(layout), *index),
            CellFilter::PositionFn(predicate) => CellFilter::PositionFn(share(predicate)),
            CellFilter::EvalCell(predicate) => CellFilter::EvalCell(share(predicate)),
        };
        proof {
            assert forall|area: Rect| self.resolved(area) == #[trigger] copy.resolved(area) by {
                match (*self, copy) {
                    (CellFilter::AllOf(a), CellFilter::AllOf(b)) => {
                        assert(all_resolved(a@, area) == all_resolved(b@, area));
                    },
                    (CellFilter::AnyOf(a), CellFilter::AnyOf(b)) => {
                        assert(all_resolved(a@, area) == all_resolved(b@, area));
                    },
                    (CellFilter::NoneOf(a), CellFilter::NoneOf(b)) => {
                        assert(all_resolved(a@, area) == all_resolved(b@, area));
                    },
                    (CellFilter::Not(a), CellFilter::Not(b)) => {
                        assert(a.resolved(area) == b.resolved(area));
                    },
                    _ => {},
                }
            }
            assert forall|area: Rect, node: Resolved|
                self.resolves_to(area, node) == #[trigger] copy.resolves_to(area, node) by {
                match (*self, copy, node) {
                    (CellFilter::AllOf(a), CellFilter::AllOf(b), Resolved::AllOf(list)) => {
                        assert(all_resolve_to(a@, area, list) == all_resolve_to(b@, area, list));
                    },
                    (CellFilter::AnyOf(a), CellFilter::AnyOf(b), Resolved::AnyOf(list)) => {
                        assert(all_resolve_to(a@, area, list) == all_resolve_to(b@, area, list));
                    },
                    (CellFilter::NoneOf(a), CellFilter::NoneOf(b), Resolved::NoneOf(list)) => {
                        assert(all_resolve_to(a@, area, list) == all_resolve_to(b@, area, list));
                    },
                    (CellFilter::Not(a), CellFilter::Not(b), Resolved::Not(negated)) => {
                        assert(a.resolves_to(area, *negated) == b.resolves_to(area, *negated));
                    },
                    _ => {
                        assert(self.resolved(area) == copy.resolved(area));
                    },
                }
            }
        }
        copy
    }
}

impl Clone for CellFilter {
    /// A copy that reads, resolves and selects as the filter does.
    fn clone(&self) -> (copy: Self)
        ensures
            copy.description() == self.description(),
            copy.has_layout() == self.has_layout(),
            forall|area: Rect, node: Resolved|
                self.resolves_to(area, node) == #[trigger] copy.resolves_to(area, node),
            forall|area: Rect| self.resolved(area) == #[trigger] copy.resolved(area),
    {
        self.clone_filter()
    }
}

/// `<ratatui::layout::Layout as Clone>::clone`: an equal layout.
#[verifier::external_body]
fn clone_layout(layout: &Layout) -> (copy: Layout)
    ensures
        copy == *layout,
{
    layout.clone()
}

fn clone_all(filters: &Vec<CellFilter>) -> (copies: Vec<CellFilter>)
    ensures
        copies@.len() == filters@.len(),
        joined(copies@) == joined(filters@),
        any_has_layout(copies@) == any_has_layout(filters@),
        forall|area: Rect, list: ResolvedList|
            all_resolve_to(filters@, area, list) == #[trigger] all_resolve_to(copies@, area, list),
        forall|area: Rect| all_resolved(filters@, area) == #[trigger] all_resolved(copies@, area),
    decreases filters,
{
    let mut copies: Vec<CellFilter> = Vec::new();
    let mut i: usize = 0;
    while i < filters.len()
        invariant
            i <= filters@.len(),
            copies@.len() == i,
            forall|k: int|
                0 <= k < i ==> (#[trigger] copies@[k]).description() == filters@[k].description(),
            forall|k: int| 0 <= k < i ==> (#[trigger] copies@[k]).has_layout() == filters@[k].has_layout(),
            forall|k: int, area: Rect, node: Resolved|
                0 <= k < i ==> filters@[k].resolves_to(area, node) == #[trigger] copies@[k].resolves_to(
                    area,
                    node,
                ),
            forall|k: int, area: Rect|
                0 <= k < i ==> filters@[k].resolved(area) == #[trigger] copies@[k].resolved(area),
        decreases filters@.len() - i,
    {
        copies.push(filters[i].clone_filter());
        i += 1;
    }
    proof {
        lemma_alike_filters(filters@, copies@);
    }
    copies
}

/// Filters that agree one by one agree as a list.
proof fn lemma_alike_filters(a: Seq<CellFilter>, b: Seq<CellFilter>)
    requires
        a.len() == b.len(),
        forall|k: int| 0 <= k < a.len() ==> (#[trigger] b[k]).description() == a[k].description(),
        forall|k: int| 0 <= k < a.len() ==> (#[trigger] b[k]).has_layout() == a[k].has_layout(),
        forall|k: int, area: Rect, node: Resolved|
            0 <= k < a.len() ==> a[k].resolves_to(area, node) == #[trigger] b[k].resolves_to(
                area,
                node,
            ),
        forall|k: int, area: Rect|
            0 <= k < a.len() ==> a[k].resolved(area) == #[trigger] b[k].resolved(area),
    ensures
        joined(b) == joined(a),
        any_has_layout(b) == any_has_layout(a),
        forall|area: Rect, list: ResolvedList|
            all_resolve_to(a, area, list) == #[trigger] all_resolve_to(b, area, list),
        forall|area: Rect| all_resolved(a, area) == #[trigger] all_resolved(b, area),
    decreases a.len(),
{
    if a.len() > 0 {
        lemma_alike_filters(a.drop_first(), b.drop_first());
        lemma_alike_filters(a.drop_last(), b.drop_last());
        assert forall|area: Rect, list: ResolvedList|
            all_resolve_to(a, area, list) == #[trigger] all_resolve_to(b, area, list) by {
            match list {
                ResolvedList::Cons(head, tail) => {
                    assert(a[0].resolves_to(area, *head) == b[0].resolves_to(area, *head));
                    assert(all_resolve_to(a.drop_first(), area, *tail) == all_resolve_to(
                        b.drop_first(),
                        area,
                        *tail,
                    ));
                },
                ResolvedList::Nil => {},
            }
        }
        assert forall|area: Rect| all_resolved(a, area) == #[trigger] all_resolved(b, area) by {
            assert(a[0].resolved(area) == b[0].resolved(area));
            assert(all_resolved(a.drop_first(), area) == all_resolved(b.drop_first(), area));
        }
    }
}

impl Default for CellFilter {
    fn default() -> (filter: Self)
        ensures
            filter is All,
    {
        CellFilter::All
    }
}

/// `prefix`, then `body`, then a closing bracket.
fn wrapped(prefix: &str, body: String) -> (text: String)
    ensures
        text@ == prefix@ + body@ + ")"@,
{
    let mut text = String::from_str(prefix);
    text.append(body.as_str());
    text.append(")");
    text
}

fn digit_str(digit: u8) -> (text: &'static str)
    requires
        digit < 16,
    ensures
        text@ == seq![hex_digits()[digit as int]],
{
    proof {
        reveal_strlit("0123456789abcdef");
        reveal_strlit("0");
        reveal_strlit("1");
        reveal_strlit("2");
        reveal_strlit("3");
        reveal_strlit("4");
        reveal_strlit("5");
        reveal_strlit("6");
        reveal_strlit("7");
        reveal_strlit("8");
        reveal_strlit("9");
        reveal_strlit("a");
        reveal_strlit("b");
        reveal_strlit("c");
        reveal_strlit("d");
        reveal_strlit("e");
        reveal_strlit("f");
    }
    let text = match digit {
        0 => "0",
        1 => "1",
        2 => "2",
        3 => "3",
        4 => "4",
        5 => "5",
        6 => "6",
        7 => "7",
        8 => "8",
        9 => "9",
        10 => "a",
        11 => "b",
        12 => "c",
        13 => "d",
        14 => "e",
        _ => "f",
    };
    proof {
        assert(text@ =~= seq![hex_digits()[digit as int]]);
    }
    text
}

fn decimal_string(n: u16) -> (text: String)
    ensures
        text@ == decimal(n as nat),
    decreases n,
{
    if n < 10 {
        String::from_str(digit_str(n as u8))
    } else {
        let mut text = decimal_string(n / 10);
        text.append(digit_str((n % 10) as u8));
        text
    }
}

fn to_hex(color: &Color) -> (text: String)
    ensures
        text@ == hex_color(*color),
{
    let (r, g, b) = color.to_rgb();
    let mut text = String::from_str("#");
    text.append(digit_str(r / 16));
    text.append(digit_str(r % 16));
    text.append(digit_str(g / 16));
    text.append(digit_str(g % 16));
    text.append(digit_str(b / 16));
    text.append(digit_str(b % 16));
    proof {
        assert(text@ =~= hex_color(*color));
    }
    text
}

fn format_margin(m: &Margin) -> (text: String)
    ensures
        text@ == decimal(m.horizontal as nat) + ":"@ + decimal(m.vertical as nat),
{
    let mut text = decimal_string(m.horizontal);
    text.append(":");
    let vertical = decimal_string(m.vertical);
    text.append(vertical.as_str());
    text
}

fn join_all(filters: &Vec<CellFilter>) -> (text: String)
    ensures
        text@ == joined(filters@),
    decreases filters,
{
    let mut text = String::new();
    let mut i: usize = 0;
    proof {
        assert(filters@.subrange(0, 0) =~= Seq::<CellFilter>::empty());
    }
    while i < filters.len()
        invariant
            i <= filters@.len(),
            text@ == joined(filters@.subrange(0, i as int)),
        decreases filters@.len() - i,
    {
        let ghost before = filters@.subrange(0, i as int);
        let ghost with_next = filters@.subrange(0, i as int + 1);
        proof {
            assert(with_next.drop_last() =~= before);
            assert(with_next.last() == filters@[i as int]);
        }
        if i > 0 {
            text.append(", ");
        }
        let item = filters[i].to_string();
        text.append(item.as_str());
        proof {
            if i == 0 {
                assert(text@ =~= filters@[0].description());
            }
        }
        i += 1;
    }
    proof {
        assert(filters@.subrange(0, filters@.len() as int) =~= filters@);
    }
    text
}

/// A negated filter selects, among the cells whose position the filter
/// accepts, exactly those that the filter itself does not select.
pub proof fn lemma_not_selects_complement(filter: CellFilter, area: Rect, pos: Position, cell: Cell)
    ensures
        CellFilter::Not(Box::new(filter)).resolved(area).selects(pos, cell) == (filter.resolved(
            area,
        ).accepts_position(pos) && !filter.resolved(area).selects(pos, cell)),
{
}

/// Inside the area, the negated text filter selects a cell exactly when the
/// text filter does not; outside the area neither selects anything.
pub proof fn lemma_not_text_is_complement(area: Rect, pos: Position, cell: Cell)
    ensures
        area.holds(pos) ==> CellFilter::Not(Box::new(CellFilter::Text)).resolved(area).selects(
            pos,
            cell,
        ) == !CellFilter::Text.resolved(area).selects(pos, cell),
        CellFilter::Text.resolved(area).selects(pos, cell) == (area.holds(pos) && is_text_glyph(
            cell.symbol@,
        )),
        CellFilter::Not(Box::new(CellFilter::Text)).resolved(area).selects(pos, cell) == (
        area.holds(pos) && !is_text_glyph(cell.symbol@)),
{
    lemma_not_selects_complement(CellFilter::Text, area, pos, cell);
}

impl CellSelector {
    /// Whether the cell at `pos` is selected: its position and its content
    /// must both pass.
    pub fn is_valid(&self, pos: Position, cell: &Cell) -> (valid: bool)
        ensures
            valid == self.strategy.selects(pos, *cell),
    {
        self.strategy.valid_position(pos) && self.strategy.is_valid_cell(cell)
    }
}

} // verus!
