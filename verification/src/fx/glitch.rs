//! The bookkeeping behind the glitch effect: a population of cells that wait,
//! glitch for a while and expire.

use crate::geometry::{Position, Rect};
use crate::simple_rng::{lcg_next, RangeSampler, SimpleRng};
use core::ops::Range;
use vstd::prelude::*;

verus! {

/// What a glitch does to the glyph of its cell.
#[derive(Clone, Copy, Debug, PartialEq, Eq, Structural)]
pub enum GlitchType {
    /// Swaps upper and lower case.
    ChangeCase,
    /// Moves the glyph's code by the given amount.
    ChangeCharByValue(i8),
}

/// One glitch: the cell it sits on and its two countdowns.
#[derive(Clone, Copy, Debug, PartialEq, Eq, Structural)]
pub struct GlitchCell {
    /// The index of the cell, row by row within the area.
    pub cell_idx: usize,
    /// How long the glitch still shows once it has begun.
    pub glitch_remaining_ms: u32,
    /// How long the glitch still waits before it begins.
    pub presleep_remaining_ms: u32,
    pub glitch: GlitchType,
}

/// A population of glitches and the ranges new ones are drawn from.
pub struct Glitch {
    pub action_start_delay_ms: Range<u32>,
    pub action_ms: Range<u32>,
    pub rng: SimpleRng,
    pub glitch_cells: Vec<GlitchCell>,
}

/// The kind of glitch drawn next, and the generator afterwards: an even draw
/// changes the case, an odd one moves the glyph by -10 to 9.
pub open spec fn drawn_type(rng: SimpleRng) -> (GlitchType, SimpleRng) {
    let first = SimpleRng { state: lcg_next(rng.state) };
    if first.state % 2 == 0 {
        (GlitchType::ChangeCase, first)
    } else {
        let second = SimpleRng { state: lcg_next(first.state) };
        (GlitchType::ChangeCharByValue((second.state % 20 - 10) as i8), second)
    }
}

/// The glitch drawn next for an area of `cells` cells, and the generator
/// afterwards. The cell comes first, then the kind, the time shown and the wait.
pub open spec fn drawn_cell(
    rng: SimpleRng,
    cells: usize,
    action_ms: Range<u32>,
    delay_ms: Range<u32>,
) -> (GlitchCell, SimpleRng) {
    let (cell_idx, after_cell) = rng.sampled(0usize..cells);
    let (glitch, after_type) = drawn_type(after_cell);
    let (glitch_remaining_ms, after_action) = after_type.sampled(action_ms);
    let (presleep_remaining_ms, after_delay) = after_action.sampled(delay_ms);
    (GlitchCell { cell_idx, glitch_remaining_ms, presleep_remaining_ms, glitch }, after_delay)
}

/// The population after `missing` more glitches have been drawn.
pub open spec fn populated(
    population: Seq<GlitchCell>,
    rng: SimpleRng,
    missing: nat,
    cells: usize,
    action_ms: Range<u32>,
    delay_ms: Range<u32>,
) -> (Seq<GlitchCell>, SimpleRng)
    decreases missing,
{
    if missing == 0 {
        (population, rng)
    } else {
        let (cell, next) = drawn_cell(rng, cells, action_ms, delay_ms);
        populated(population.push(cell), next, (missing - 1) as nat, cells, action_ms, delay_ms)
    }
}

/// A glitch after `elapsed_ms`: the wait runs down first, and what the wait
/// did not use runs down the time shown.
pub open spec fn aged(cell: GlitchCell, elapsed_ms: u32) -> GlitchCell {
    let beyond: int = if elapsed_ms > cell.presleep_remaining_ms {
        elapsed_ms - cell.presleep_remaining_ms
    } else {
        0
    };
    GlitchCell {
        presleep_remaining_ms: if cell.presleep_remaining_ms > elapsed_ms {
            (cell.presleep_remaining_ms - elapsed_ms) as u32
        } else {
            0
        },
        glitch_remaining_ms: if cell.glitch_remaining_ms > beyond {
            (cell.glitch_remaining_ms - beyond) as u32
        } else {
            0
        },
        ..cell
    }
}

/// The code a glyph is moved to: `code` plus `by`, kept between 32 and 255.
pub open spec fn moved_code(code: u8, by: i8) -> u8 {
    let raw: int = if by > 0 {
        if code + by > 255 {
            255
        } else {
            code + by
        }
    } else {
        if code + by < 0 {
            0
        } else {
            code + by
        }
    };
    if raw < 32 {
        32
    } else {
        raw as u8
    }
}

/// The glyph with upper and lower case swapped; other glyphs stay.
pub open spec fn case_swapped(c: char) -> char {
    let code = c as u32;
    if 0x41 <= code <= 0x5a {
        (code + 32) as char
    } else if 0x61 <= code <= 0x7a {
        (code - 32) as char
    } else {
        c
    }
}

/// The glyph a glitch puts in place of `symbol`, or none where the glitch
/// leaves the cell alone.
///
/// A change of case applies to symbols made of basic Latin characters only and
/// acts on the first of them. A move applies to symbols of exactly one such
/// character other than the space.
pub open spec fn glitched(symbol: Seq<char>, glitch: GlitchType) -> Option<char> {
    match glitch {
        GlitchType::ChangeCase => {
            if symbol.len() > 0 && vstd::utf8::is_ascii_chars(symbol) {
                Some(case_swapped(symbol[0]))
            } else {
                None
            }
        },
        GlitchType::ChangeCharByValue(by) => {
            if symbol.len() == 1 && (symbol[0] as u32) < 128 && symbol[0] != ' ' {
                Some(moved_code(symbol[0] as u8, by) as char)
            } else {
                None
            }
        },
    }
}

impl Glitch {
    /// Whether new glitches can be drawn for an area of `cells` cells: the
    /// area and both ranges must not be empty.
    pub open spec fn can_draw(self, cells: usize) -> bool {
        &&& cells > 0
        &&& self.action_ms.start < self.action_ms.end
        &&& self.action_start_delay_ms.start < self.action_start_delay_ms.end
    }

    /// How many glitches are missing from a population of `total_cells`.
    pub open spec fn missing(self, total_cells: u32) -> nat {
        if self.glitch_cells@.len() < total_cells {
            (total_cells - self.glitch_cells@.len()) as nat
        } else {
            0
        }
    }

    pub fn new(action_start_delay_ms: Range<u32>, action_ms: Range<u32>, rng: SimpleRng) -> (glitch:
        Self)
        ensures
            glitch.action_start_delay_ms == action_start_delay_ms,
            glitch.action_ms == action_ms,
            glitch.rng == rng,
            glitch.glitch_cells@.len() == 0,
    {
        Self { action_start_delay_ms, action_ms, rng, glitch_cells: Vec::new() }
    }

    /// Draws the kind of the next glitch.
    pub fn glitch_type(&mut self) -> (glitch: GlitchType)
        ensures
            glitch == drawn_type(old(self).rng).0,
            final(self).rng == drawn_type(old(self).rng).1,
            final(self).glitch_cells == old(self).glitch_cells,
            final(self).action_ms == old(self).action_ms,
            final(self).action_start_delay_ms == old(self).action_start_delay_ms,
    {
        let idx: u32 = self.rng.gen();
        if idx % 2 == 0 {
            GlitchType::ChangeCase
        } else {
            let drawn: i32 = self.rng.gen_range(0i32..20i32);
            GlitchType::ChangeCharByValue((drawn - 10) as i8)
        }
    }

    /// Tops the population up to `total_cells` glitches for an area of
    /// `cells` cells.
    pub fn ensure_population(&mut self, total_cells: u32, cells: usize)
        requires
            old(self).missing(total_cells) > 0 ==> old(self).can_draw(cells),
        ensures
            final(self).glitch_cells@ == populated(
                old(self).glitch_cells@,
                old(self).rng,
                old(self).missing(total_cells),
                cells,
                old(self).action_ms,
                old(self).action_start_delay_ms,
            ).0,
            final(self).rng == populated(
                old(self).glitch_cells@,
                old(self).rng,
                old(self).missing(total_cells),
                cells,
                old(self).action_ms,
                old(self).action_start_delay_ms,
            ).1,
            final(self).glitch_cells@.len() == old(self).glitch_cells@.len() + old(self).missing(
                total_cells,
            ),
            final(self).action_ms == old(self).action_ms,
            final(self).action_start_delay_ms == old(self).action_start_delay_ms,
    {
        let ghost goal = populated(
            self.glitch_cells@,
            self.rng,
            self.missing(total_cells),
            cells,
            self.action_ms,
            self.action_start_delay_ms,
        );
        while self.glitch_cells.len() < total_cells as usize
            invariant
                self.missing(total_cells) > 0 ==> self.can_draw(cells),
                self.action_ms == old(self).action_ms,
                self.action_start_delay_ms == old(self).action_start_delay_ms,
                self.glitch_cells@.len() + self.missing(total_cells) == old(self).glitch_cells@.len()
                    + old(self).missing(total_cells),
                populated(
                    self.glitch_cells@,
                    self.rng,
                    self.missing(total_cells),
                    cells,
                    self.action_ms,
                    self.action_start_delay_ms,
                ) == goal,
            decreases self.missing(total_cells),
        {
            let cell_idx: usize = self.rng.gen_range(0usize..cells);
            let glitch = self.glitch_type();
            let glitch_remaining_ms: u32 = self.rng.gen_range(
                self.action_ms.start..self.action_ms.end,
            );
            let presleep_remaining_ms: u32 = self.rng.gen_range(
                self.action_start_delay_ms.start..self.action_start_delay_ms.end,
            );
            self.glitch_cells.push(
                GlitchCell { cell_idx, glitch_remaining_ms, presleep_remaining_ms, glitch },
            );
        }
    }

    /// Runs the countdowns of one glitch down by `last_frame_ms`.
    pub fn update_cell(cell: &mut GlitchCell, last_frame_ms: u32)
        ensures
            *final(cell) == aged(*old(cell), last_frame_ms),
    {
        let updated = cell.presleep_remaining_ms.saturating_sub(last_frame_ms);
        let remaining = last_frame_ms.saturating_sub(cell.presleep_remaining_ms);
        cell.presleep_remaining_ms = updated;
        cell.glitch_remaining_ms = cell.glitch_remaining_ms.saturating_sub(remaining);
    }

    /// Whether the glitch still has time to show.
    pub fn is_running(cell: &GlitchCell) -> (running: bool)
        ensures
            running == (cell.glitch_remaining_ms > 0),
    {
        cell.glitch_remaining_ms > 0
    }

    /// Runs every countdown down by `last_frame_ms`.
    pub fn update_cells(&mut self, last_frame_ms: u32)
        ensures
            final(self).glitch_cells@ == old(self).glitch_cells@.map_values(
                |cell: GlitchCell| aged(cell, last_frame_ms),
            ),
            final(self).rng == old(self).rng,
            final(self).action_ms == old(self).action_ms,
            final(self).action_start_delay_ms == old(self).action_start_delay_ms,
    {
        let mut i: usize = 0;
        while i < self.glitch_cells.len()
            invariant
                i <= self.glitch_cells@.len(),
                self.glitch_cells@.len() == old(self).glitch_cells@.len(),
                self.rng == old(self).rng,
                self.action_ms == old(self).action_ms,
                self.action_start_delay_ms == old(self).action_start_delay_ms,
                forall|k: int|
                    0 <= k < i ==> self.glitch_cells@[k] == aged(
                        old(self).glitch_cells@[k],
                        last_frame_ms,
                    ),
                forall|k: int|
                    i <= k < self.glitch_cells@.len() ==> self.glitch_cells@[k] == old(
                        self,
                    ).glitch_cells@[k],
            decreases self.glitch_cells@.len() - i,
        {
            let mut cell = self.glitch_cells[i];
            Self::update_cell(&mut cell, last_frame_ms);
            self.glitch_cells.set(i, cell);
            i += 1;
        }
        proof {
            assert(self.glitch_cells@ =~= old(self).glitch_cells@.map_values(
                |cell: GlitchCell| aged(cell, last_frame_ms),
            ));
        }
    }

    /// Drops the glitches whose cell lies past the end of a grid of
    /// `buffer_len` cells, as happens when the grid has shrunk.
    pub fn drop_out_of_bounds(&mut self, buffer_len: usize)
        ensures
            final(self).glitch_cells@ == old(self).glitch_cells@.filter(
                |cell: GlitchCell| cell.cell_idx < buffer_len,
            ),
            final(self).rng == old(self).rng,
            final(self).action_ms == old(self).action_ms,
            final(self).action_start_delay_ms == old(self).action_start_delay_ms,
    {
        let ghost pred = |cell: GlitchCell| cell.cell_idx < buffer_len;
        let ghost all = self.glitch_cells@;
        let mut kept: Vec<GlitchCell> = Vec::new();
        let mut i: usize = 0;
        proof {
            assert(all.subrange(0, 0) =~= Seq::<GlitchCell>::empty());
        }
        while i < self.glitch_cells.len()
            invariant
                self.glitch_cells@ == all,
                i <= all.len(),
                kept@ == all.subrange(0, i as int).filter(pred),
                pred == (|cell: GlitchCell| cell.cell_idx < buffer_len),
            decreases all.len() - i,
        {
            let cell = self.glitch_cells[i];
            proof {
                let next = all.subrange(0, i as int + 1);
                assert(next.drop_last() =~= all.subrange(0, i as int));
                assert(next.last() == cell);
                reveal(Seq::filter);
            }
            if cell.cell_idx < buffer_len {
                kept.push(cell);
            }
            i += 1;
        }
        proof {
            assert(all.subrange(0, all.len() as int) =~= all);
        }
        self.glitch_cells = kept;
    }

    /// Drops the glitches that have shown for their whole time.
    pub fn remove_expired(&mut self)
        ensures
            final(self).glitch_cells@ == old(self).glitch_cells@.filter(
                |cell: GlitchCell| cell.glitch_remaining_ms > 0,
            ),
            final(self).rng == old(self).rng,
            final(self).action_ms == old(self).action_ms,
            final(self).action_start_delay_ms == old(self).action_start_delay_ms,
    {
        let ghost pred = |cell: GlitchCell| cell.glitch_remaining_ms > 0;
        let ghost all = self.glitch_cells@;
        let mut kept: Vec<GlitchCell> = Vec::new();
        let mut i: usize = 0;
        proof {
            assert(all.subrange(0, 0) =~= Seq::<GlitchCell>::empty());
        }
        while i < self.glitch_cells.len()
            invariant
                self.glitch_cells@ == all,
                i <= all.len(),
                kept@ == all.subrange(0, i as int).filter(pred),
                pred == (|cell: GlitchCell| cell.glitch_remaining_ms > 0),
            decreases all.len() - i,
        {
            let cell = self.glitch_cells[i];
            proof {
                let next = all.subrange(0, i as int + 1);
                assert(next.drop_last() =~= all.subrange(0, i as int));
                assert(next.last() == cell);
                reveal(Seq::filter);
            }
            if Self::is_running(&cell) {
                kept.push(cell);
            }
            i += 1;
        }
        proof {
            assert(all.subrange(0, all.len() as int) =~= all);
        }
        self.glitch_cells = kept;
    }

    /// The glitches whose wait is over, in the order of the population.
    pub fn active_cells(&self) -> (active: Vec<GlitchCell>)
        ensures
            active@ == self.glitch_cells@.filter(
                |cell: GlitchCell| cell.presleep_remaining_ms == 0,
            ),
    {
        let ghost pred = |cell: GlitchCell| cell.presleep_remaining_ms == 0;
        let ghost all = self.glitch_cells@;
        let mut active: Vec<GlitchCell> = Vec::new();
        let mut i: usize = 0;
        proof {
            assert(all.subrange(0, 0) =~= Seq::<GlitchCell>::empty());
        }
        while i < self.glitch_cells.len()
            invariant
                self.glitch_cells@ == all,
                i <= all.len(),
                active@ == all.subrange(0, i as int).filter(pred),
                pred == (|cell: GlitchCell| cell.presleep_remaining_ms == 0),
            decreases all.len() - i,
        {
            let cell = self.glitch_cells[i];
            proof {
                let next = all.subrange(0, i as int + 1);
                assert(next.drop_last() =~= all.subrange(0, i as int));
                assert(next.last() == cell);
                reveal(Seq::filter);
            }
            if cell.presleep_remaining_ms == 0 {
                active.push(cell);
            }
            i += 1;
        }
        proof {
            assert(all.subrange(0, all.len() as int) =~= all);
        }
        active
    }

    /// The glitches in play during a tick: the population topped up to
    /// `total_cells`, aged by `last_frame_ms`, without those whose cell lies
    /// past the end of the grid.
    pub open spec fn in_play(
        self,
        last_frame_ms: u32,
        total_cells: u32,
        cells: usize,
        buffer_len: usize,
    ) -> Seq<GlitchCell> {
        populated(
            self.glitch_cells@,
            self.rng,
            self.missing(total_cells),
            cells,
            self.action_ms,
            self.action_start_delay_ms,
        ).0.map_values(|cell: GlitchCell| aged(cell, last_frame_ms)).filter(
            |cell: GlitchCell| cell.cell_idx < buffer_len,
        )
    }

    /// One tick of the population, for an area of `cells` cells on a grid of
    /// `buffer_len` cells: tops the population up to `total_cells`, runs the
    /// countdowns down by `last_frame_ms`, drops what lies off the grid, and
    /// drops what has expired. Returns the glitches whose wait is over, which
    /// are the ones to draw this tick, expired ones included.
    pub fn tick(&mut self, last_frame_ms: u32, total_cells: u32, cells: usize, buffer_len: usize) -> (active:
        Vec<GlitchCell>)
        requires
            old(self).missing(total_cells) > 0 ==> old(self).can_draw(cells),
        ensures
            active@ == old(self).in_play(last_frame_ms, total_cells, cells, buffer_len).filter(
                |cell: GlitchCell| cell.presleep_remaining_ms == 0,
            ),
            final(self).glitch_cells@ == old(self).in_play(
                last_frame_ms,
                total_cells,
                cells,
                buffer_len,
            ).filter(|cell: GlitchCell| cell.glitch_remaining_ms > 0),
            final(self).rng == populated(
                old(self).glitch_cells@,
                old(self).rng,
                old(self).missing(total_cells),
                cells,
                old(self).action_ms,
                old(self).action_start_delay_ms,
            ).1,
            final(self).action_ms == old(self).action_ms,
            final(self).action_start_delay_ms == old(self).action_start_delay_ms,
    {
        self.ensure_population(total_cells, cells);
        self.update_cells(last_frame_ms);
        self.drop_out_of_bounds(buffer_len);
        let active = self.active_cells();
        self.remove_expired();
        active
    }

    /// Forgets every glitch.
    pub fn reset(&mut self)
        ensures
            final(self).glitch_cells@.len() == 0,
            final(self).rng == old(self).rng,
            final(self).action_ms == old(self).action_ms,
            final(self).action_start_delay_ms == old(self).action_start_delay_ms,
    {
        self.glitch_cells.clear();
    }
}

/// Topping a population up leaves the glitches it had as they were and adds
/// the missing ones, each on a cell of the area and with a wait and a time
/// to show from the two ranges.
pub proof fn lemma_populated_adds_missing(
    population: Seq<GlitchCell>,
    rng: SimpleRng,
    missing: nat,
    cells: usize,
    action_ms: Range<u32>,
    delay_ms: Range<u32>,
)
    requires
        cells > 0,
        action_ms.start < action_ms.end,
        delay_ms.start < delay_ms.end,
    ensures
        ({
            let grown = populated(population, rng, missing, cells, action_ms, delay_ms).0;
            &&& grown.len() == population.len() + missing
            &&& forall|i: int| 0 <= i < population.len() ==> grown[i] == population[i]
            &&& forall|i: int|
                population.len() <= i < grown.len() ==> {
                    &&& (#[trigger] grown[i]).cell_idx < cells
                    &&& delay_ms.start <= grown[i].presleep_remaining_ms < delay_ms.end
                    &&& action_ms.start <= grown[i].glitch_remaining_ms < action_ms.end
                }
        }),
    decreases missing,
{
    if missing > 0 {
        let (cell, next) = drawn_cell(rng, cells, action_ms, delay_ms);
        assert(cell.cell_idx < cells) by {
            assert(0 <= rng.wide() % cells < cells);
        }
        let with_cell = population.push(cell);
        lemma_populated_adds_missing(
            with_cell,
            next,
            (missing - 1) as nat,
            cells,
            action_ms,
            delay_ms,
        );
        let grown = populated(population, rng, missing, cells, action_ms, delay_ms).0;
        assert(grown == populated(
            with_cell,
            next,
            (missing - 1) as nat,
            cells,
            action_ms,
            delay_ms,
        ).0);
        assert forall|i: int| 0 <= i < population.len() implies grown[i] == population[i] by {
            assert(with_cell[i] == population[i]);
        }
        assert forall|i: int| population.len() <= i < grown.len() implies {
            &&& (#[trigger] grown[i]).cell_idx < cells
            &&& delay_ms.start <= grown[i].presleep_remaining_ms < delay_ms.end
            &&& action_ms.start <= grown[i].glitch_remaining_ms < action_ms.end
        } by {
            if i == population.len() {
                assert(grown[i] == with_cell[i]);
            }
        }
    }
}

/// A filter that every item passes keeps the sequence as it is.
pub proof fn lemma_filter_keeps_all<T>(items: Seq<T>, pred: spec_fn(T) -> bool)
    requires
        forall|i: int| 0 <= i < items.len() ==> pred(#[trigger] items[i]),
    ensures
        items.filter(pred) == items,
    decreases items.len(),
{
    reveal(Seq::filter);
    if items.len() > 0 {
        lemma_filter_keeps_all(items.drop_last(), pred);
        assert(items.drop_last().push(items.last()) =~= items);
    }
}

/// The population is kept at its size: when it holds no more than
/// `total_cells` glitches, all on the grid, and the area lies on the grid,
/// then exactly `total_cells` glitches are in play during the tick. Once a
/// tick is at least as long as every wait, all of them are active at the same
/// time.
pub proof fn lemma_glitch_steady_state(
    glitch: Glitch,
    last_frame_ms: u32,
    total_cells: u32,
    cells: usize,
    buffer_len: usize,
)
    requires
        glitch.can_draw(cells),
        cells <= buffer_len,
        glitch.glitch_cells@.len() <= total_cells,
        forall|i: int|
            0 <= i < glitch.glitch_cells@.len() ==> (#[trigger] glitch.glitch_cells@[i]).cell_idx
                < buffer_len,
    ensures
        glitch.in_play(last_frame_ms, total_cells, cells, buffer_len).len() == total_cells,
        (last_frame_ms >= glitch.action_start_delay_ms.end && forall|i: int|
            0 <= i < glitch.glitch_cells@.len() ==> (
            #[trigger] glitch.glitch_cells@[i]).presleep_remaining_ms <= last_frame_ms)
            ==> glitch.in_play(last_frame_ms, total_cells, cells, buffer_len).filter(
            |cell: GlitchCell| cell.presleep_remaining_ms == 0,
        ).len() == total_cells,
{
    let grown = populated(
        glitch.glitch_cells@,
        glitch.rng,
        glitch.missing(total_cells),
        cells,
        glitch.action_ms,
        glitch.action_start_delay_ms,
    ).0;
    lemma_populated_adds_missing(
        glitch.glitch_cells@,
        glitch.rng,
        glitch.missing(total_cells),
        cells,
        glitch.action_ms,
        glitch.action_start_delay_ms,
    );
    let older = grown.map_values(|cell: GlitchCell| aged(cell, last_frame_ms));
    let on_grid = |cell: GlitchCell| cell.cell_idx < buffer_len;
    assert forall|i: int| 0 <= i < older.len() implies on_grid(#[trigger] older[i]) by {
        assert(older[i] == aged(grown[i], last_frame_ms));
        if i < glitch.glitch_cells@.len() {
            assert(grown[i] == glitch.glitch_cells@[i]);
        }
    }
    lemma_filter_keeps_all(older, on_grid);
    let in_play = glitch.in_play(last_frame_ms, total_cells, cells, buffer_len);
    assert(in_play == older);
    if last_frame_ms >= glitch.action_start_delay_ms.end && forall|i: int|
        0 <= i < glitch.glitch_cells@.len() ==> (
        #[trigger] glitch.glitch_cells@[i]).presleep_remaining_ms <= last_frame_ms {
        let awake = |cell: GlitchCell| cell.presleep_remaining_ms == 0;
        assert forall|i: int| 0 <= i < older.len() implies awake(#[trigger] older[i]) by {
            assert(older[i] == aged(grown[i], last_frame_ms));
            if i < glitch.glitch_cells@.len() {
                assert(grown[i] == glitch.glitch_cells@[i]);
            }
        }
        lemma_filter_keeps_all(older, awake);
    }
}

/// The position of the glitch's cell in `area`, rows first.
pub open spec fn cell_place(cell_idx: usize, area: Rect) -> Position {
    Position {
        x: (area.x + cell_idx % (area.width as usize)) as u16,
        y: (area.y + cell_idx / (area.width as usize)) as u16,
    }
}

/// Where in `area` the cell with the given index lies.
pub fn cell_position(cell_idx: usize, area: Rect) -> (pos: Position)
    requires
        area.width > 0,
        area.x + area.width <= u16::MAX,
        area.y + cell_idx / (area.width as usize) <= u16::MAX,
    ensures
        pos == cell_place(cell_idx, area),
{
    let width = area.width as usize;
    let x = cell_idx % width;
    let y = cell_idx / width;
    Position { x: area.x + x as u16, y: area.y + y as u16 }
}

/// Applies a glitch to the glyph of a cell; see [`glitched`].
pub fn glitch_symbol(symbol: &str, glitch: GlitchType) -> (changed: Option<char>)
    ensures
        changed == glitched(symbol@, glitch),
{
    match glitch {
        GlitchType::ChangeCase => {
            if symbol.unicode_len() > 0 && symbol.is_ascii() {
                let ch = symbol.get_char(0);
                let code: u32 = ch as u32;
                proof {
                    vstd::utf8::is_ascii_chars_nat_bound(symbol@);
                }
                if 0x41 <= code && code <= 0x5a {
                    Some(((code + 32) as u8) as char)
                } else if 0x61 <= code && code <= 0x7a {
                    Some(((code - 32) as u8) as char)
                } else {
                    Some(ch)
                }
            } else {
                None
            }
        },
        GlitchType::ChangeCharByValue(by) => {
            if symbol.unicode_len() == 1 {
                let ch = symbol.get_char(0);
                let code: u32 = ch as u32;
                if code < 128 && code != 0x20 {
                    let byte: u8 = code as u8;
                    let raw: u8 = if by > 0 {
                        byte.saturating_add(by as u8)
                    } else {
                        let back: u8 = (-(by as i16)) as u8;
                        byte.saturating_sub(back)
                    };
                    Some((if raw < 32 { 32u8 } else { raw }) as char)
                } else {
                    None
                }
            } else {
                None
            }
        },
    }
}

} // verus!
