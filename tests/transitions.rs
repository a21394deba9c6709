use floating_background::{
    ease, Config, FloatingBackgroundPriv, PropertyError, PropertyKey, PropertyValue, Rgba, TickResult,
    TransitionStart, VisualState, CHANNEL_MAX, TRANSITION_STEPS,
};

fn white() -> Rgba {
    Rgba::white()
}

/// Runs the ticker until it stops; returns the number of ticks and the
/// visual state after each.
fn run(w: &mut FloatingBackgroundPriv<u32>) -> Vec<VisualState> {
    let mut seen = Vec::new();
    loop {
        let r = w.tick();
        seen.push(w.visual());
        if r == TickResult::Stop {
            return seen;
        }
        assert!(seen.len() < 100, "ticker never stopped");
    }
}

#[test]
fn ease_ends_and_midpoint() {
    assert_eq!(ease(0, 10, 0, 7000), 0);
    assert_eq!(ease(10, 10, 0, 7000), 7000);
    assert_eq!(ease(5, 10, 0, 7000), 1750);
    assert_eq!(ease(5, 10, 1000, 800), 950);
    assert_eq!(ease(0, 10, 1000, 800), 1000);
    assert_eq!(ease(10, 10, 1000, 800), 800);
    assert_eq!(ease(3, 10, 0, 5000), 450);
}

#[test]
fn ease_is_monotonic() {
    let mut prev_up = ease(0, 10, 0, 360_000);
    let mut prev_down = ease(0, 10, 1000, 0);
    for k in 1..=10u64 {
        let up = ease(k, 10, 0, 360_000);
        let down = ease(k, 10, 1000, 0);
        assert!(up >= prev_up);
        assert!(down <= prev_down);
        prev_up = up;
        prev_down = down;
    }
    assert_eq!(prev_up, 360_000);
    assert_eq!(prev_down, 0);
}

#[test]
fn default_state() {
    let w: FloatingBackgroundPriv<u32> = FloatingBackgroundPriv::default();
    assert_eq!(w.property(PropertyKey::Floating), PropertyValue::Floating(false));
    assert_eq!(w.property(PropertyKey::MaxMargin), PropertyValue::MaxMargin(7000));
    assert_eq!(w.property(PropertyKey::MaxRadius), PropertyValue::MaxRadius(5000));
    assert_eq!(w.property(PropertyKey::FloatingOpacity), PropertyValue::FloatingOpacity(800));
    assert_eq!(w.visual(), VisualState { margin: 0, radius: 0, color: white() });
    assert!(!w.is_transitioning());
    assert!(w.child().is_none());
    assert_eq!(Config::default(), Config { max_margin: 7000, max_radius: 5000, floating_opacity: 800 });
}

#[test]
fn same_request_twice_starts_one_transition() {
    let mut w: FloatingBackgroundPriv<u32> = FloatingBackgroundPriv::default();
    assert_eq!(w.transition(true, white()), TransitionStart::StartTicker);
    let visual = w.visual();
    assert_eq!(w.transition(true, white()), TransitionStart::Unchanged);
    assert_eq!(w.visual(), visual);
    assert!(w.is_transitioning());
    assert_eq!(run(&mut w).len() as u64, TRANSITION_STEPS);
    assert_eq!(w.transition(true, white()), TransitionStart::Unchanged);
    assert!(!w.is_transitioning());
}

#[test]
fn request_for_current_state_is_noop() {
    let mut w: FloatingBackgroundPriv<u32> = FloatingBackgroundPriv::default();
    assert_eq!(w.transition(false, white()), TransitionStart::Unchanged);
    assert!(!w.is_transitioning());
    assert_eq!(w.tick(), TickResult::Stop);
}

#[test]
fn default_config_scenario() {
    let mut w: FloatingBackgroundPriv<u32> = FloatingBackgroundPriv::default();
    assert_eq!(w.transition(true, white()), TransitionStart::StartTicker);
    let seen = run(&mut w);
    assert_eq!(seen.len(), 10);
    assert_eq!(seen[4].margin, 1750);
    let v = w.visual();
    assert_eq!(v.margin, 7000);
    assert_eq!(v.radius, 5000);
    assert_eq!(v.color.alpha, 800);
    assert_eq!(v.color.red, CHANNEL_MAX);

    assert_eq!(w.transition(false, white()), TransitionStart::StartTicker);
    let seen = run(&mut w);
    assert_eq!(seen.len(), 10);
    let v = w.visual();
    assert_eq!(v.margin, 0);
    assert_eq!(v.radius, 0);
    assert_eq!(v.color.alpha, 1000);
}

#[test]
fn zero_margin_and_radius_scenario() {
    let mut w: FloatingBackgroundPriv<u32> = FloatingBackgroundPriv::default();
    assert_eq!(w.set_property(PropertyValue::MaxMargin(0), white()), Ok(TransitionStart::Unchanged));
    assert_eq!(w.set_property(PropertyValue::MaxRadius(0), white()), Ok(TransitionStart::Unchanged));
    assert_eq!(w.set_property(PropertyValue::Floating(true), white()), Ok(TransitionStart::StartTicker));
    let seen = run(&mut w);
    assert_eq!(seen.len(), 10);
    for (i, v) in seen.iter().enumerate() {
        let k = i as u64 + 1;
        assert_eq!(v.margin, 0);
        assert_eq!(v.radius, 0);
        assert_eq!(v.color.alpha, 1000 - 2 * k * k);
    }
    assert_eq!(w.visual().color.alpha, 800);
}

#[test]
fn completion_matches_target() {
    let base = Rgba { red: 100, green: 200, blue: 300, alpha: 600 };
    let mut w: FloatingBackgroundPriv<u32> = FloatingBackgroundPriv::default();
    w.set_property(PropertyValue::MaxMargin(12_500), base).unwrap();
    w.set_property(PropertyValue::MaxRadius(360_000), base).unwrap();
    w.set_property(PropertyValue::FloatingOpacity(0), base).unwrap();
    w.transition(true, base);
    run(&mut w);
    assert_eq!(
        w.visual(),
        VisualState { margin: 12_500, radius: 360_000, color: Rgba { red: 100, green: 200, blue: 300, alpha: 0 } }
    );
    w.transition(false, base);
    run(&mut w);
    assert_eq!(w.visual(), VisualState { margin: 0, radius: 0, color: base });
}

#[test]
fn reverse_symmetry_restores_state() {
    let mut w: FloatingBackgroundPriv<u32> = FloatingBackgroundPriv::default();
    w.transition(true, white());
    run(&mut w);
    let floating = w.visual();
    w.transition(false, white());
    run(&mut w);
    assert_ne!(w.visual(), floating);
    w.transition(true, white());
    run(&mut w);
    assert_eq!(w.visual(), floating);
}

#[test]
fn docking_runs_the_curve_backwards() {
    let mut w: FloatingBackgroundPriv<u32> = FloatingBackgroundPriv::default();
    w.transition(true, white());
    run(&mut w);
    w.transition(false, white());
    let seen = run(&mut w);
    let margins: Vec<u64> = seen.iter().map(|v| v.margin).collect();
    assert_eq!(margins, vec![5670, 4480, 3430, 2520, 1750, 1120, 630, 280, 70, 0]);
}

#[test]
fn new_request_mid_flight_restarts() {
    let mut w: FloatingBackgroundPriv<u32> = FloatingBackgroundPriv::default();
    assert_eq!(w.transition(true, white()), TransitionStart::StartTicker);
    assert_eq!(w.tick(), TickResult::Continue);
    assert_eq!(w.tick(), TickResult::Continue);
    assert_eq!(w.transition(false, white()), TransitionStart::TickerRunning);
    let seen = run(&mut w);
    assert_eq!(seen.len(), 10);
    assert_eq!(seen[0].margin, 5670);
    assert_eq!(w.visual(), VisualState { margin: 0, radius: 0, color: white() });
    assert_eq!(w.property(PropertyKey::Floating), PropertyValue::Floating(false));
}

#[test]
fn configuration_is_captured_at_start() {
    let mut w: FloatingBackgroundPriv<u32> = FloatingBackgroundPriv::default();
    w.transition(true, white());
    w.set_property(PropertyValue::MaxMargin(50_000), white()).unwrap();
    run(&mut w);
    assert_eq!(w.visual().margin, 7000);
    assert_eq!(w.property(PropertyKey::MaxMargin), PropertyValue::MaxMargin(50_000));
}

#[test]
fn transition_takes_base_color() {
    let base = Rgba { red: 10, green: 20, blue: 30, alpha: 900 };
    let mut w: FloatingBackgroundPriv<u32> = FloatingBackgroundPriv::default();
    w.transition(true, base);
    assert_eq!(w.visual().color, base);
    assert_eq!(w.tick(), TickResult::Continue);
    assert_eq!(w.visual().color, Rgba { red: 10, green: 20, blue: 30, alpha: 899 });
}

#[test]
fn out_of_range_properties_are_refused() {
    let mut w: FloatingBackgroundPriv<u32> = FloatingBackgroundPriv::default();
    assert_eq!(w.set_property(PropertyValue::MaxMargin(100_001), white()), Err(PropertyError::OutOfRange));
    assert_eq!(w.set_property(PropertyValue::MaxRadius(360_001), white()), Err(PropertyError::OutOfRange));
    assert_eq!(w.set_property(PropertyValue::FloatingOpacity(1001), white()), Err(PropertyError::OutOfRange));
    assert_eq!(w.property(PropertyKey::MaxMargin), PropertyValue::MaxMargin(7000));
    assert_eq!(w.property(PropertyKey::MaxRadius), PropertyValue::MaxRadius(5000));
    assert_eq!(w.property(PropertyKey::FloatingOpacity), PropertyValue::FloatingOpacity(800));
    assert_eq!(w.set_property(PropertyValue::MaxMargin(100_000), white()), Ok(TransitionStart::Unchanged));
    assert_eq!(w.set_property(PropertyValue::MaxRadius(360_000), white()), Ok(TransitionStart::Unchanged));
    assert_eq!(w.set_property(PropertyValue::FloatingOpacity(1000), white()), Ok(TransitionStart::Unchanged));
    assert_eq!(w.property(PropertyKey::MaxRadius), PropertyValue::MaxRadius(360_000));
}
