use std::cell::RefCell;
use std::rc::Rc;

use ratatui::buffer::Buffer;
use ratatui::layout::Position as TermPosition;
use ratatui::layout::Rect as TermRect;
use ratatui::style::Color as TermColor;
use tachyonfx::fx;
use tachyonfx::fx::consume_tick::ConsumeTick;
use tachyonfx::fx::containers::{ParallelEffect, SequentialEffect};
use tachyonfx::fx::never_complete::NeverComplete;
use tachyonfx::fx::ping_pong::PingPong;
use tachyonfx::fx::prolong::{Prolong, ProlongPosition};
use tachyonfx::fx::repeat::Repeat;
use tachyonfx::fx::sleep::Sleep;
use tachyonfx::fx::temporary::TemporaryEffect;
use tachyonfx::{
    Cell, CellFilter, Color, Duration, Effect, EffectRenderer, EffectTimer, Interpolation,
    IntoEffect, IntoTemporaryEffect, Position, Rect, RepeatMode, Shader,
};

/// What a fade painted on one call: its label, the time it had left, and the colour.
type Log = Rc<RefCell<Vec<(&'static str, u32, TermColor)>>>;

/// A leaf that fades the foreground of the cells it selects towards a colour.
struct Fade {
    label: &'static str,
    target: (u8, u8, u8),
    timer: EffectTimer,
    area: Option<Rect>,
    filter: Option<Rc<CellFilter>>,
    log: Log,
}

fn components(color: TermColor) -> (u8, u8, u8) {
    match color {
        TermColor::Rgb(r, g, b) => (r, g, b),
        _ => (0, 0, 0),
    }
}

fn mix(from: u8, to: u8, alpha: f32) -> u8 {
    (from as f32 + (to as f32 - from as f32) * alpha).round() as u8
}

fn lerp(from: TermColor, to: (u8, u8, u8), alpha: f32) -> TermColor {
    if alpha == 0.0 {
        return from;
    } else if alpha == 1.0 {
        return TermColor::Rgb(to.0, to.1, to.2);
    }
    let (r, g, b) = components(from);
    TermColor::Rgb(mix(r, to.0, alpha), mix(g, to.1, alpha), mix(b, to.2, alpha))
}

fn alpha(timer: &EffectTimer) -> f32 {
    match timer.progress() {
        None => 1.0,
        Some((n, d)) => n as f32 / d as f32,
    }
}

fn library_color(color: TermColor) -> Color {
    match color {
        TermColor::Rgb(r, g, b) => Color::Rgb(r, g, b),
        _ => Color::Reset,
    }
}

impl Shader for Fade {
    fn name(&self) -> &'static str {
        self.label
    }

    fn process(&mut self, duration: Duration, buf: &mut Buffer, area: Rect) -> Option<Duration> {
        let overflow = self.timer.process(duration);
        let a = alpha(&self.timer);
        let selector = match &self.filter {
            Some(filter) => filter.selector(area),
            None => CellFilter::All.selector(area),
        };
        let selector = selector.expect("the filter holds no layout");
        let mut painted = None;
        for y in area.y..area.y + area.height {
            for x in area.x..area.x + area.width {
                if let Some(cell) = buf.cell_mut(TermPosition::new(x, y)) {
                    let view = Cell {
                        symbol: cell.symbol().to_string(),
                        fg: library_color(cell.fg),
                        bg: library_color(cell.bg),
                    };
                    if selector.is_valid(Position::new(x, y), &view) {
                        let color = lerp(cell.fg, self.target, a);
                        cell.set_fg(color);
                        painted = Some(color);
                    }
                }
            }
        }
        if let Some(color) = painted {
            self.log.borrow_mut().push((self.label, self.timer.remaining().as_millis(), color));
        }
        overflow
    }

    fn done(&self) -> bool {
        self.timer.done()
    }

    fn clone_box(&self) -> Box<Self> {
        Box::new(Fade {
            label: self.label,
            target: self.target,
            timer: self.timer,
            area: self.area,
            filter: self.filter.clone(),
            log: self.log.clone(),
        })
    }

    fn area(&self) -> Option<Rect> {
        self.area
    }

    fn set_area(&mut self, area: Rect) {
        self.area = Some(area);
    }

    fn set_cell_selection(&mut self, filter: Rc<CellFilter>) {
        self.filter = Some(filter);
    }

    fn cell_selection(&self) -> Option<Rc<CellFilter>> {
        self.filter.clone()
    }

    fn reverse(&mut self) {
        self.timer = self.timer.reversed();
    }

    fn reset(&mut self) {
        self.timer.reset();
    }

    fn timer(&self) -> Option<EffectTimer> {
        Some(self.timer)
    }
}

const WHITE: TermColor = TermColor::Rgb(255, 255, 255);
const RED: (u8, u8, u8) = (255, 0, 0);
const BLUE: (u8, u8, u8) = (0, 0, 255);

fn fade_to(label: &'static str, target: (u8, u8, u8), ms: u32, log: &Log) -> Effect<Fade> {
    Effect::new(Fade {
        label,
        target,
        timer: EffectTimer::from_ms(ms, Interpolation::Linear),
        area: None,
        filter: None,
        log: log.clone(),
    })
}

fn new_log() -> Log {
    Rc::new(RefCell::new(Vec::new()))
}

fn screen() -> (Buffer, Rect) {
    let mut buf = Buffer::empty(TermRect::new(0, 0, 4, 2));
    repaint(&mut buf);
    (buf, Rect::new(0, 0, 4, 2))
}

/// What the host does before each frame: draw the content afresh.
fn repaint(buf: &mut Buffer) {
    for y in 0..2 {
        for x in 0..4 {
            let cell = buf.cell_mut(TermPosition::new(x, y)).unwrap();
            cell.set_char('x');
            cell.set_fg(WHITE);
        }
    }
}

fn fg_at(buf: &Buffer, x: u16, y: u16) -> TermColor {
    buf.cell(TermPosition::new(x, y)).unwrap().fg
}

fn ms(n: u32) -> Duration {
    Duration::from_millis(n)
}

fn sleep_ms(n: u32) -> Effect<Fade> {
    fx::sleep(n)
}

#[test]
fn sequence_fed_the_sum_of_its_durations_finishes_without_overflow() {
    let (mut buf, area) = screen();
    let mut effect = fx::sequence(&[sleep_ms(300), sleep_ms(200)]);
    assert_eq!(effect.process(ms(500), &mut buf, area), None);
    assert!(effect.done());
}

#[test]
fn sequence_fed_more_than_its_durations_returns_the_excess() {
    let (mut buf, area) = screen();
    let mut effect = fx::sequence(&[sleep_ms(300), sleep_ms(200)]);
    assert_eq!(effect.process(ms(575), &mut buf, area), Some(ms(75)));
    assert!(effect.done());
    // a finished sequence hands everything back
    assert_eq!(effect.process(ms(10), &mut buf, area), Some(ms(10)));
}

#[test]
fn sequence_children_are_both_done_after_the_exact_budget() {
    let (mut buf, area) = screen();
    let log = new_log();
    let mut sequence =
        SequentialEffect::new(vec![fade_to("a", RED, 300, &log), fade_to("b", BLUE, 200, &log)]);
    assert_eq!(sequence.process(ms(500), &mut buf, area), None);
    assert!(sequence.done());
    assert_eq!(sequence.current, 2);
    assert_eq!(*log.borrow(), vec![("a", 0, TermColor::Rgb(255, 0, 0)), ("b", 0, TermColor::Rgb(0, 0, 255))]);
}

#[test]
fn sequence_passes_overflow_on_within_one_call() {
    let (mut buf, area) = screen();
    let log = new_log();
    let mut effect = fx::sequence(&[fade_to("a", RED, 100, &log), fade_to("b", BLUE, 400, &log)]);
    assert_eq!(effect.process(ms(200), &mut buf, area), None);
    // the second fade received the 100 ms that the first one left
    assert_eq!(log.borrow()[1], ("b", 300, TermColor::Rgb(191, 0, 64)));
    assert!(!effect.done());
}

#[test]
fn empty_sequence_is_done_and_returns_the_budget() {
    let (mut buf, area) = screen();
    let mut effect: Effect<Fade> = fx::sequence(&[]);
    assert!(effect.done());
    assert_eq!(effect.process(ms(30), &mut buf, area), Some(ms(30)));
}

#[test]
fn two_sequential_fades_fed_five_ticks() {
    let (mut buf, area) = screen();
    let log = new_log();
    let mut effect = fx::sequence(&[fade_to("red", RED, 500, &log), fade_to("blue", BLUE, 500, &log)]);

    let mut overflow = None;
    for tick in 1..=5 {
        repaint(&mut buf);
        overflow = effect.process(ms(200), &mut buf, area);
        if tick == 3 {
            // the first fade ended within this tick, at 500 ms, on pure red
            let log = log.borrow();
            assert_eq!(log[2], ("red", 0, TermColor::Rgb(255, 0, 0)));
            // and the second one took the remaining 100 ms
            assert_eq!(log[3].0, "blue");
            assert_eq!(log[3].1, 400);
        }
    }

    assert_eq!(overflow, None);
    assert!(effect.done());
    assert_eq!(fg_at(&buf, 0, 0), TermColor::Rgb(0, 0, 255));
    assert_eq!(fg_at(&buf, 3, 1), TermColor::Rgb(0, 0, 255));
    assert_eq!(log.borrow().last().copied(), Some(("blue", 0, TermColor::Rgb(0, 0, 255))));
}

#[test]
fn sequence_reset_rewinds_cursor_and_children() {
    let (mut buf, area) = screen();
    let mut sequence: SequentialEffect<Fade> = SequentialEffect::new(vec![sleep_ms(100), sleep_ms(100)]);
    sequence.process(ms(150), &mut buf, area);
    assert_eq!(sequence.current, 1);
    sequence.reset();
    assert_eq!(sequence.current, 0);
    assert_eq!(sequence.process(ms(200), &mut buf, area), None);
    assert!(sequence.done());
}

#[test]
fn parallel_shorter_child_finishes_first_and_freezes() {
    let (mut buf, area) = screen();
    let log = new_log();
    let mut group =
        ParallelEffect::new(vec![fade_to("short", RED, 200, &log), fade_to("long", BLUE, 500, &log)]);
    assert_eq!(group.process(ms(200), &mut buf, area), None);
    assert!(!group.done());
    assert_eq!(log.borrow().len(), 2);

    // the short child is no longer advanced
    assert_eq!(group.process(ms(100), &mut buf, area), None);
    assert_eq!(log.borrow().len(), 3);
    assert_eq!(log.borrow()[2].0, "long");
    assert!(!group.done());

    // done only once the long child has had its whole duration
    assert_eq!(group.process(ms(199), &mut buf, area), None);
    assert!(!group.done());
    assert_eq!(group.process(ms(1), &mut buf, area), None);
    assert!(group.done());
}

#[test]
fn parallel_reports_the_smallest_overflow_once_all_report_one() {
    let (mut buf, area) = screen();
    let mut effect = fx::parallel(&[sleep_ms(200), sleep_ms(500)]);
    assert_eq!(effect.process(ms(600), &mut buf, area), Some(ms(100)));
    assert!(effect.done());
    // with nobody left running the whole budget comes back
    assert_eq!(effect.process(ms(40), &mut buf, area), Some(ms(40)));
}

#[test]
fn parallel_reports_nothing_while_one_child_still_runs() {
    let (mut buf, area) = screen();
    let mut effect = fx::parallel(&[sleep_ms(200), sleep_ms(500)]);
    assert_eq!(effect.process(ms(300), &mut buf, area), None);
    assert!(!effect.done());
}

#[test]
fn ping_pong_runs_forth_and_back_in_twice_the_duration() {
    let (mut buf, area) = screen();
    let log = new_log();
    let mut bounce = PingPong::new(fade_to("fade", RED, 300, &log));

    // forth: at its end the fade shows its target colour
    assert_eq!(bounce.process(ms(300), &mut buf, area), None);
    assert!(!bounce.done());
    assert!(bounce.is_reversing);
    assert_eq!(fg_at(&buf, 0, 0), TermColor::Rgb(255, 0, 0));
    assert_eq!(bounce.back.timer().unwrap().remaining(), ms(300));
    assert!(bounce.back.timer().unwrap().is_reversed());

    // back: after the fade's duration once more it is at its start again
    repaint(&mut buf);
    assert_eq!(bounce.process(ms(100), &mut buf, area), None);
    assert!(!bounce.done());
    repaint(&mut buf);
    assert_eq!(bounce.process(ms(200), &mut buf, area), None);
    assert!(bounce.done());
    assert_eq!(fg_at(&buf, 0, 0), WHITE);
    assert_eq!(bounce.process(ms(50), &mut buf, area), Some(ms(50)));
}

#[test]
fn ping_pong_turns_within_a_tick() {
    let (mut buf, area) = screen();
    let log = new_log();
    let mut bounce = PingPong::new(fade_to("fade", RED, 300, &log));
    assert_eq!(bounce.process(ms(200), &mut buf, area), None);
    assert!(!bounce.is_reversing);
    // the way forth ends 100 ms into this tick; the way back gets the other 100 ms
    assert_eq!(bounce.process(ms(200), &mut buf, area), None);
    assert!(bounce.is_reversing);
    assert_eq!(bounce.fx.timer().unwrap().remaining(), ms(0));
    assert_eq!(bounce.back.timer().unwrap().remaining(), ms(200));
    assert!(!bounce.done());
    assert_eq!(bounce.process(ms(200), &mut buf, area), None);
    assert!(bounce.done());

    let mut whole: Effect<Fade> = fx::ping_pong(sleep_ms(300));
    assert_eq!(whole.process(ms(600), &mut buf, area), None);
    assert!(whole.done());
    let mut more: Effect<Fade> = fx::ping_pong(sleep_ms(300));
    assert_eq!(more.process(ms(650), &mut buf, area), Some(ms(50)));
    assert!(more.done());
}

#[test]
fn ping_pong_is_done_exactly_after_twice_the_duration() {
    let (mut buf, area) = screen();
    for ticks in [vec![500u32, 500], vec![1000], vec![200; 5], vec![1, 998, 1], vec![499, 2, 499], vec![0, 500, 0, 500]] {
        let mut effect: Effect<Fade> = fx::ping_pong(sleep_ms(500));
        let last = ticks.len() - 1;
        for (i, tick) in ticks.iter().enumerate() {
            assert!(!effect.done());
            assert_eq!(effect.process(ms(*tick), &mut buf, area), None);
            assert_eq!(effect.done(), i == last, "{ticks:?} at {i}");
        }
    }
}

#[test]
fn ping_pong_reset_rewinds_both_ways() {
    let (mut buf, area) = screen();
    let mut bounce: PingPong<Fade> = PingPong::new(sleep_ms(100));
    bounce.process(ms(150), &mut buf, area);
    assert!(bounce.is_reversing);
    assert_eq!(bounce.back.timer().unwrap().remaining(), ms(50));
    bounce.reset();
    assert!(!bounce.is_reversing);
    assert!(!bounce.fx.timer().unwrap().is_reversed());
    assert_eq!(bounce.fx.timer().unwrap().remaining(), ms(100));
    assert!(bounce.back.timer().unwrap().is_reversed());
    assert_eq!(bounce.back.timer().unwrap().remaining(), ms(100));
}

#[test]
fn repeat_times_reports_overflow_only_after_the_last_run() {
    let (mut buf, area) = screen();
    let mut effect = fx::repeat(sleep_ms(100), RepeatMode::Times(2));
    assert_eq!(effect.process(ms(130), &mut buf, area), None);
    assert!(!effect.done());
    assert_eq!(effect.process(ms(100), &mut buf, area), None);
    assert_eq!(effect.process(ms(25), &mut buf, area), Some(ms(25)));
    assert!(effect.done());
}

#[test]
fn repeat_forever_never_reports_overflow() {
    let (mut buf, area) = screen();
    let mut effect = fx::repeating(sleep_ms(100));
    for _ in 0..10 {
        assert_eq!(effect.process(ms(70), &mut buf, area), None);
        assert!(!effect.done());
    }
}

#[test]
fn repeat_duration_caps_the_processed_time() {
    let (mut buf, area) = screen();
    let log = new_log();
    let mut repeat = Repeat::new(fade_to("fade", RED, 100, &log), RepeatMode::Duration(ms(250)));
    assert_eq!(repeat.process(ms(100), &mut buf, area), None);
    assert_eq!(repeat.process(ms(100), &mut buf, area), None);
    assert!(!repeat.done());
    // the tick that straddles the cap is split: 50 ms are processed, 50 ms come back
    assert_eq!(repeat.process(ms(100), &mut buf, area), Some(ms(50)));
    assert!(repeat.done());
    // the third run is half way through
    assert_eq!(repeat.fx.timer().unwrap().remaining(), ms(50));
    assert_eq!(log.borrow().last().map(|entry| (entry.0, entry.1)), Some(("fade", 50)));
    repeat.reset();
    assert!(!repeat.done());
    // exactly the cap: nothing comes back, whatever the fade completed meanwhile
    assert_eq!(repeat.process(ms(250), &mut buf, area), None);
    assert!(repeat.done());
    assert_eq!(repeat.fx.timer().unwrap().remaining(), ms(50));
}

#[test]
fn repeat_duration_reports_only_what_lies_beyond_the_cap() {
    let (mut buf, area) = screen();
    let mut repeat: Repeat<Fade> = Repeat::new(sleep_ms(100), RepeatMode::Duration(ms(250)));
    assert_eq!(repeat.process(ms(300), &mut buf, area), Some(ms(50)));
    assert!(repeat.done());
    // the effect ran 100, 100 and 50 ms
    assert_eq!(repeat.fx.timer().unwrap().remaining(), ms(50));

    let mut idle: Repeat<Fade> = Repeat::new(sleep_ms(0), RepeatMode::Duration(ms(20)));
    assert_eq!(idle.process(ms(5), &mut buf, area), None);
    assert!(!idle.done());
    assert_eq!(idle.process(ms(15), &mut buf, area), None);
    assert!(idle.done());
}

#[test]
fn prolong_start_holds_the_effect_back() {
    let (mut buf, area) = screen();
    let log = new_log();
    let mut effect = fx::prolong_start(200u32, fade_to("fade", RED, 100, &log));
    assert_eq!(effect.process(ms(150), &mut buf, area), None);
    // nothing of the budget has reached the fade yet
    assert_eq!(log.borrow()[0], ("fade", 100, WHITE));
    assert_eq!(effect.process(ms(100), &mut buf, area), None);
    assert_eq!(log.borrow()[1].1, 50);
    assert!(!effect.done());
    assert_eq!(effect.process(ms(80), &mut buf, area), Some(ms(30)));
    assert!(effect.done());
    assert_eq!(effect.timer().unwrap().duration(), ms(300));
    assert_eq!(effect.name(), "prolong_start");
}

#[test]
fn prolong_end_keeps_the_effect_going() {
    let (mut buf, area) = screen();
    let log = new_log();
    let mut prolonged = Prolong::new(
        ProlongPosition::End,
        EffectTimer::from_ms(200, Interpolation::Linear),
        fade_to("fade", RED, 100, &log),
    );
    assert_eq!(prolonged.process(ms(150), &mut buf, area), None);
    assert!(prolonged.inner.done());
    assert!(!prolonged.done());
    assert_eq!(prolonged.timer.remaining(), ms(150));
    assert_eq!(prolonged.process(ms(160), &mut buf, area), Some(ms(10)));
    assert!(prolonged.done());
    assert_eq!(prolonged.name(), "prolong_end");
}

#[test]
fn never_complete_swallows_overflow_and_keeps_drawing() {
    let (mut buf, area) = screen();
    let log = new_log();
    let mut held = NeverComplete::new(fade_to("fade", RED, 100, &log));
    for _ in 0..3 {
        repaint(&mut buf);
        assert_eq!(held.process(ms(80), &mut buf, area), None);
        assert!(!held.done());
    }
    assert_eq!(log.borrow().len(), 3);
    assert_eq!(fg_at(&buf, 1, 1), TermColor::Rgb(255, 0, 0));
}

#[test]
fn temporary_effect_ends_with_its_cap() {
    let (mut buf, area) = screen();
    let mut effect = fx::timed_never_complete(ms(300), sleep_ms(100));
    assert_eq!(effect.process(ms(200), &mut buf, area), None);
    assert!(!effect.done());
    assert_eq!(effect.process(ms(150), &mut buf, area), Some(ms(50)));
    assert!(effect.done());
}

#[test]
fn temporary_effect_ends_with_its_effect() {
    let (mut buf, area) = screen();
    let mut capped = TemporaryEffect::new(sleep_ms(100), ms(300));
    assert_eq!(capped.process(ms(100), &mut buf, area), None);
    assert!(capped.done());
    let mut other: Effect<Fade> = sleep_ms(100).with_duration(ms(50));
    assert_eq!(other.process(ms(60), &mut buf, area), Some(ms(10)));
    assert!(other.done());
    assert_eq!(fx::with_duration(ms(50), sleep_ms(100)).name(), "with_duration");
}

#[test]
fn consume_tick_takes_one_whole_tick() {
    let (mut buf, area) = screen();
    let mut effect = fx::sequence(&[fx::consume_tick(), sleep_ms(100)]);
    assert_eq!(effect.process(ms(500), &mut buf, area), None);
    assert!(!effect.done());
    assert_eq!(effect.process(ms(100), &mut buf, area), None);
    assert!(effect.done());
    let mut tick = ConsumeTick::default();
    assert!(!tick.done());
    assert_eq!(tick.process(ms(9), &mut buf, area), None);
    assert!(tick.done());
    tick.reset();
    assert!(!tick.done());
}

#[test]
fn delay_sleeps_before_the_effect() {
    let (mut buf, area) = screen();
    let log = new_log();
    let mut effect = fx::delay(100u32, fade_to("fade", RED, 100, &log));
    assert_eq!(effect.process(ms(60), &mut buf, area), None);
    assert!(log.borrow().is_empty());
    assert_eq!(effect.process(ms(90), &mut buf, area), None);
    assert_eq!(log.borrow()[0], ("fade", 50, TermColor::Rgb(255, 128, 128)));
}

#[test]
fn sleep_draws_nothing() {
    let (mut buf, area) = screen();
    let before = buf.clone();
    let mut sleep = Sleep::new((250u32, Interpolation::QuadIn));
    assert_eq!(sleep.process(ms(100), &mut buf, area), None);
    assert_eq!(sleep.process(ms(200), &mut buf, area), Some(ms(50)));
    assert!(sleep.done());
    assert_eq!(buf, before);
    assert_eq!(sleep.timer().unwrap().interpolation(), Interpolation::QuadIn);
}

#[test]
fn effect_uses_its_own_area_when_it_has_one() {
    let (mut buf, area) = screen();
    let log = new_log();
    let mut effect = fade_to("fade", RED, 100, &log).with_area(Rect::new(1, 0, 2, 1));
    assert_eq!(effect.area(), Some(Rect::new(1, 0, 2, 1)));
    effect.process(ms(100), &mut buf, area);
    assert_eq!(fg_at(&buf, 0, 0), WHITE);
    assert_eq!(fg_at(&buf, 1, 0), TermColor::Rgb(255, 0, 0));
    assert_eq!(fg_at(&buf, 2, 0), TermColor::Rgb(255, 0, 0));
    assert_eq!(fg_at(&buf, 3, 0), WHITE);
    assert_eq!(fg_at(&buf, 1, 1), WHITE);
}

#[test]
fn with_area_and_reversed_leave_the_original_alone() {
    let log = new_log();
    let original = fade_to("fade", RED, 100, &log);
    let placed = original.with_area(Rect::new(0, 0, 1, 1));
    let turned = original.reversed();
    assert_eq!(original.area(), None);
    assert_eq!(placed.area(), Some(Rect::new(0, 0, 1, 1)));
    assert!(!original.timer().unwrap().is_reversed());
    assert!(turned.timer().unwrap().is_reversed());
    let cloned = original.clone();
    assert_eq!(cloned.timer(), original.timer());
}

#[test]
fn containers_pass_area_and_selection_to_every_child() {
    let (mut buf, area) = screen();
    let log = new_log();
    let effect = fx::parallel(&[fade_to("a", RED, 100, &log), fade_to("b", BLUE, 100, &log)]);
    let mut effect = effect.with_cell_selection(CellFilter::Inner(tachyonfx::Margin::new(1, 0)));
    assert!(effect.cell_selection().is_none());
    effect.set_area(Rect::new(0, 0, 4, 1));
    effect.process(ms(100), &mut buf, area);
    // both fades painted columns 1 and 2 of the first row only
    assert_eq!(fg_at(&buf, 0, 0), WHITE);
    assert_eq!(fg_at(&buf, 1, 0), TermColor::Rgb(0, 0, 255));
    assert_eq!(fg_at(&buf, 2, 0), TermColor::Rgb(0, 0, 255));
    assert_eq!(fg_at(&buf, 3, 0), WHITE);
    assert_eq!(fg_at(&buf, 1, 1), WHITE);
    assert_eq!(log.borrow().len(), 2);
}

#[test]
fn ping_pong_keeps_the_selection_to_itself() {
    let log = new_log();
    let mut effect = fx::ping_pong(fade_to("fade", RED, 100, &log));
    assert!(matches!(effect.cell_selection().as_deref(), Some(CellFilter::All)));
    effect.set_cell_selection(Rc::new(CellFilter::Text));
    assert!(matches!(effect.cell_selection().as_deref(), Some(CellFilter::Text)));
}

#[test]
fn names_of_the_built_in_shaders() {
    let log = new_log();
    assert_eq!(sleep_ms(1).name(), "sleep");
    assert_eq!(fx::consume_tick::<Fade>().name(), "consume_tick");
    assert_eq!(fx::sequence::<Fade>(&[]).name(), "sequential");
    assert_eq!(fx::parallel::<Fade>(&[]).name(), "parallel");
    assert_eq!(fx::repeating(sleep_ms(1)).name(), "repeat");
    assert_eq!(fx::ping_pong(sleep_ms(1)).name(), "ping_pong");
    assert_eq!(fx::never_complete(sleep_ms(1)).name(), "never_complete");
    assert_eq!(fx::prolong_end(5u32, sleep_ms(1)).name(), "prolong_end");
    assert_eq!(fade_to("fade_to", RED, 1, &log).name(), "fade_to");
}

#[test]
fn advisory_timers_of_the_combinators() {
    assert_eq!(
        fx::sequence(&[sleep_ms(100), sleep_ms(250)]).timer().map(|t| t.duration()),
        Some(ms(350))
    );
    assert_eq!(fx::sequence::<Fade>(&[]).timer(), None);
    assert_eq!(
        fx::parallel(&[sleep_ms(100), sleep_ms(250), sleep_ms(30)]).timer().map(|t| t.duration()),
        Some(ms(250))
    );
    assert_eq!(fx::parallel::<Fade>(&[]).timer(), None);
    assert_eq!(fx::ping_pong(sleep_ms(100)).timer().map(|t| t.duration()), Some(ms(200)));
    assert_eq!(
        fx::repeat(sleep_ms(100), RepeatMode::Times(3)).timer().map(|t| t.duration()),
        Some(ms(300))
    );
    assert_eq!(
        fx::repeat(sleep_ms(100), RepeatMode::Duration(ms(70))).timer().map(|t| t.duration()),
        Some(ms(70))
    );
    assert_eq!(fx::never_complete(sleep_ms(100)).timer(), None);
    assert_eq!(fx::consume_tick::<Fade>().timer(), None);
}

#[test]
fn into_effect_wraps_the_built_in_shaders() {
    let (mut buf, area) = screen();
    let mut effect: Effect<Fade> = Sleep::new(100u32).into_effect();
    assert_eq!(effect.process(ms(130), &mut buf, area), Some(ms(30)));
    let mut nested: Effect<Fade> =
        SequentialEffect::new(vec![ParallelEffect::new(vec![sleep_ms(50)]).into_effect()]).into_effect();
    assert_eq!(nested.process(ms(50), &mut buf, area), None);
    assert!(nested.done());
    assert!(!nested.running());
}

#[test]
fn render_effect_processes_one_frame() {
    let (mut buf, area) = screen();
    let log = new_log();
    let mut effect = fade_to("fade", BLUE, 100, &log);
    buf.render_effect(&mut effect, area, ms(100));
    assert!(effect.done());
    assert_eq!(fg_at(&buf, 2, 1), TermColor::Rgb(0, 0, 255));
}

fn built_in_tree() -> Effect<Sleep> {
    fx::sequence(&[
        fx::parallel(&[fx::sleep(120u32), fx::ping_pong(fx::sleep(50u32))]),
        fx::repeat(fx::prolong_start(30u32, fx::sleep(40u32)), RepeatMode::Times(2)),
        fx::prolong_end(25u32, fx::sleep(10u32)),
        fx::consume_tick(),
        fx::with_duration(ms(60), fx::never_complete(fx::sleep(20u32))),
    ])
}

/// Feeds the ticks and returns what each call reported and whether the effect was done after it.
fn run(effect: &mut Effect<Sleep>, ticks: &[u32]) -> Vec<(Option<Duration>, bool)> {
    let (mut buf, area) = screen();
    ticks
        .iter()
        .map(|tick| {
            let overflow = effect.process(ms(*tick), &mut buf, area);
            (overflow, effect.done())
        })
        .collect()
}

#[test]
fn effects_can_be_built_over_sleep_alone() {
    let (mut buf, area) = screen();
    let before = buf.clone();
    let mut effect: Effect<Sleep> = Effect::new(Sleep::new(100u32));
    assert_eq!(effect.name(), "sleep");
    assert_eq!(effect.process(ms(130), &mut buf, area), Some(ms(30)));
    assert!(effect.done());
    let mut tree = built_in_tree();
    assert!(!tree.done());
    tree.process(ms(5000), &mut buf, area);
    assert_eq!(buf, before);
}

#[test]
fn reset_rewinds_to_the_start_however_far_the_effect_got() {
    let ticks = [10, 45, 70, 5, 200, 33, 90, 400, 1, 60];
    let expected = run(&mut built_in_tree(), &ticks);
    for progress in [0u32, 7, 119, 120, 121, 300, 1000, 5000] {
        let mut effect = built_in_tree();
        run(&mut effect, &[progress, 3]);
        effect.reset();
        assert_eq!(run(&mut effect, &ticks), expected, "after {progress} ms");
    }
}

#[test]
fn reversing_twice_and_resetting_in_either_order_agree() {
    let ticks = [10, 45, 70, 5, 200, 33, 90, 400, 1, 60];
    let expected = run(&mut built_in_tree(), &ticks);
    let mut twice = built_in_tree();
    twice.reverse();
    twice.reverse();
    assert_eq!(run(&mut twice, &ticks), expected);

    let mut a = built_in_tree();
    let mut b = built_in_tree();
    run(&mut a, &[130]);
    run(&mut b, &[130]);
    a.reset();
    a.reverse();
    b.reverse();
    b.reset();
    assert_eq!(run(&mut a, &ticks), run(&mut b, &ticks));
}

#[test]
fn overflow_never_exceeds_the_budget() {
    let mut rng = tachyonfx::SimpleRng::new(99);
    for _ in 0..200 {
        let mut effect = built_in_tree();
        let (mut buf, area) = screen();
        for _ in 0..12 {
            let tick = rng.gen() % 150;
            if let Some(left) = effect.process(ms(tick), &mut buf, area) {
                assert!(left <= ms(tick));
            }
        }
    }
}

#[test]
fn sequence_fed_in_two_ticks_ends_where_one_tick_would() {
    for (first, second) in [(300u32, 200u32), (0, 40), (40, 0), (1, 1)] {
        let total = first + second;
        for tick in 0..total {
            for excess in [0u32, 1, 17] {
                let mut effect = fx::sequence(&[sleep_ms(first), sleep_ms(second)]);
                let reported = run_fade(&mut effect, &[tick, total - tick + excess]);
                assert_eq!(reported[0], None);
                let expected = if excess > 0 { Some(ms(excess)) } else { None };
                assert_eq!(reported[1], expected, "{first}+{second} fed {tick} first");
            }
        }
    }
}

fn run_fade(effect: &mut Effect<Fade>, ticks: &[u32]) -> Vec<Option<Duration>> {
    let (mut buf, area) = screen();
    ticks.iter().map(|tick| effect.process(ms(*tick), &mut buf, area)).collect()
}

#[test]
fn a_long_sequence_accounts_for_every_millisecond() {
    let durations = [30u32, 0, 45, 5, 0, 120, 1, 0];
    let total: u32 = durations.iter().sum();
    for excess in [0u32, 1, 999] {
        let children: Vec<Effect<Sleep>> = durations.iter().map(|d| fx::sleep(*d)).collect();
        let mut effect = fx::sequence(&children);
        let reported = run(&mut effect, &[total + excess]);
        let expected = if excess > 0 { Some(ms(excess)) } else { None };
        assert_eq!(reported[0].0, expected);
    }
}

#[test]
fn parallel_is_done_exactly_when_the_longer_child_has_had_its_time() {
    let (mut buf, area) = screen();
    for ticks in [vec![200u32, 300], vec![500], vec![100; 5], vec![499, 1], vec![0, 250, 0, 250]] {
        let mut group = ParallelEffect::new(vec![sleep_ms(200), sleep_ms(500)]);
        let mut elapsed = 0;
        for tick in ticks {
            group.process(ms(tick), &mut buf, area);
            elapsed += tick;
            assert_eq!(group.done(), elapsed >= 500);
            let first = match &group.effects {
                tachyonfx::fx::containers::EffectList::Cons(first, _) => first,
                _ => unreachable!(),
            };
            assert_eq!(first.done(), elapsed >= 200);
        }
    }
}

#[test]
fn repeat_under_a_cap_is_done_exactly_when_the_cap_is_reached() {
    let (mut buf, area) = screen();
    for ticks in [vec![250u32], vec![100, 100, 50], vec![249, 1], vec![30; 9], vec![0, 125, 125]] {
        let mut repeat: Repeat<Fade> = Repeat::new(sleep_ms(70), RepeatMode::Duration(ms(250)));
        let mut elapsed = 0;
        for tick in ticks {
            let overflow = repeat.process(ms(tick), &mut buf, area);
            elapsed += tick;
            assert_eq!(repeat.done(), elapsed >= 250);
            let expected = if elapsed > 250 { Some(ms(elapsed - 250)) } else { None };
            assert_eq!(overflow, expected);
        }
    }
}
