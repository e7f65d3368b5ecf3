use tachyonfx::{Duration, EffectTimer, Interpolation};

#[test]
fn verify_size_of_duration() {
    assert_eq!(std::mem::size_of::<Duration>(), 4);
}

#[test]
fn duration_constructors_and_queries() {
    assert_eq!(Duration::from_secs(3), Duration::from_millis(3000));
    assert_eq!(Duration::from_millis(250).as_millis(), 250);
    assert!(Duration::zero().is_zero());
    assert!(!Duration::from_millis(1).is_zero());
    assert_eq!(Duration::default(), Duration::from_millis(0));
    assert!(Duration::from_millis(100) < Duration::from_millis(101));
    assert_eq!(Duration::from_millis(7).min(Duration::from_millis(5)), Duration::from_millis(5));
    assert_eq!(Duration::from_millis(7).max(Duration::from_millis(5)), Duration::from_millis(7));
}

#[test]
fn duration_saturating_arithmetic_caps_at_the_maximum() {
    let big = Duration::from_millis(u32::MAX - 1);
    assert_eq!(big.saturating_add(Duration::from_millis(5)), Duration::from_millis(u32::MAX));
    assert_eq!(
        Duration::from_millis(10).saturating_add(Duration::from_millis(5)),
        Duration::from_millis(15)
    );
    assert_eq!(Duration::from_millis(1 << 20).saturating_mul(1 << 20), Duration::from_millis(u32::MAX));
    assert_eq!(Duration::from_millis(300).saturating_mul(3), Duration::from_millis(900));
}

#[test]
fn timer_fed_its_total_ends_at_zero_without_overflow() {
    let mut timer = EffectTimer::from_ms(1000, Interpolation::Linear);
    assert_eq!(timer.process(Duration::from_millis(1000)), None);
    assert_eq!(timer.remaining(), Duration::from_millis(0));
    assert!(timer.done());
}

#[test]
fn timer_fed_more_than_its_total_returns_the_excess() {
    let mut timer = EffectTimer::from_ms(1000, Interpolation::Linear);
    assert_eq!(timer.process(Duration::from_millis(1250)), Some(Duration::from_millis(250)));
    assert_eq!(timer.remaining(), Duration::from_millis(0));
    assert!(timer.done());
    // an exhausted timer hands everything back
    assert_eq!(timer.process(Duration::from_millis(40)), Some(Duration::from_millis(40)));
}

#[test]
fn timer_counts_down_in_steps() {
    let mut timer = EffectTimer::new(Duration::from_millis(500), Interpolation::QuadOut);
    assert!(!timer.started());
    assert_eq!(timer.process(Duration::from_millis(200)), None);
    assert!(timer.started());
    assert_eq!(timer.remaining(), Duration::from_millis(300));
    assert_eq!(timer.duration(), Duration::from_millis(500));
    assert_eq!(timer.interpolation(), Interpolation::QuadOut);
    assert!(!timer.done());
    timer.reset();
    assert_eq!(timer.remaining(), Duration::from_millis(500));
    assert!(!timer.started());
}

#[test]
fn reversing_twice_gives_the_same_timer() {
    let mut timer = EffectTimer::from_ms(800, Interpolation::SineIn);
    timer.process(Duration::from_millis(300));
    let once = timer.reversed();
    assert!(once.is_reversed());
    assert_eq!(once.duration(), timer.duration());
    assert_eq!(once.remaining(), timer.remaining());
    let twice = once.reversed();
    assert_eq!(twice, timer);
    assert_eq!(twice.progress(), timer.progress());
}

#[test]
fn progress_runs_from_zero_to_one() {
    let mut timer = EffectTimer::from_ms(400, Interpolation::Linear);
    assert_eq!(timer.progress(), Some((0, 400)));
    timer.process(Duration::from_millis(100));
    assert_eq!(timer.progress(), Some((100, 400)));
    timer.process(Duration::from_millis(300));
    assert_eq!(timer.progress(), Some((400, 400)));
}

#[test]
fn reversed_progress_runs_from_one_to_zero() {
    let mut timer = EffectTimer::from_ms(400, Interpolation::Linear).reversed();
    assert_eq!(timer.progress(), Some((400, 400)));
    timer.process(Duration::from_millis(100));
    assert_eq!(timer.progress(), Some((300, 400)));
    timer.process(Duration::from_millis(300));
    assert_eq!(timer.progress(), Some((0, 400)));
}

#[test]
fn zero_length_timer_has_no_fraction() {
    let timer = EffectTimer::from_ms(0, Interpolation::Linear);
    assert_eq!(timer.progress(), None);
    assert!(timer.done());
}

#[test]
fn timers_convert_from_numbers_and_pairs() {
    let plain: EffectTimer = 300u32.into();
    assert_eq!(plain, EffectTimer::from_ms(300, Interpolation::Linear));
    let eased: EffectTimer = (300u32, Interpolation::BounceOut).into();
    assert_eq!(eased, EffectTimer::from_ms(300, Interpolation::BounceOut));
    let from_duration: EffectTimer = Duration::from_millis(20).into();
    assert_eq!(from_duration, EffectTimer::from_ms(20, Interpolation::Linear));
    let from_pair: EffectTimer = (Duration::from_millis(20), Interpolation::CircIn).into();
    assert_eq!(from_pair, EffectTimer::from_ms(20, Interpolation::CircIn));
    assert_eq!(EffectTimer::default(), EffectTimer::from_ms(0, Interpolation::Linear));
    assert_eq!(Interpolation::default(), Interpolation::Linear);
}

#[test]
fn scaled_timer_multiplies_the_lifetime() {
    let mut timer = EffectTimer::from_ms(300, Interpolation::Linear);
    timer.process(Duration::from_millis(100));
    let doubled = timer.scaled(2);
    assert_eq!(doubled.duration(), Duration::from_millis(600));
    assert_eq!(doubled.remaining(), Duration::from_millis(600));
}

#[test]
fn duration_operators_with_plain_milliseconds() {
    assert_eq!(Duration::from_millis(100) + 20, Duration::from_millis(120));
    assert_eq!(Duration::from_millis(100) - 20, Duration::from_millis(80));
    assert_eq!(3 * Duration::from_millis(100), Duration::from_millis(300));
    assert_eq!(Duration::from_millis(100) * 0, Duration::from_millis(0));
}
