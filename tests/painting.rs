use floating_background::{paint, ChildSlot, DrawOp, FloatingBackgroundPriv, Padding, Rgba, VisualState};

fn padding(left: i16, top: i16) -> Padding {
    Padding { left, right: 0, top, bottom: 0 }
}

#[test]
fn single_child_constraint() {
    let mut w: FloatingBackgroundPriv<u32> = FloatingBackgroundPriv::default();
    assert_eq!(w.add(1), None);
    assert_eq!(w.add(2), Some(1));
    assert_eq!(*w.child(), Some(2));
    assert_eq!(w.remove(), Some(2));
    assert_eq!(*w.child(), None);
    assert_eq!(w.remove(), None);
}

#[test]
fn child_slot_holds_one() {
    let mut s: ChildSlot<&str> = ChildSlot::new();
    assert!(!s.has_child());
    assert_eq!(s.add("a"), None);
    assert_eq!(s.add("b"), Some("a"));
    assert!(s.has_child());
    assert_eq!(*s.child(), Some("b"));
    assert_eq!(s.take(), Some("b"));
    assert!(!s.has_child());
}

#[test]
fn paint_with_child() {
    let v = VisualState { margin: 7000, radius: 5000, color: Rgba { red: 1000, green: 1000, blue: 1000, alpha: 800 } };
    let ops = paint(&v, padding(3, 2), 200, 100, true);
    assert_eq!(
        ops,
        vec![
            DrawOp::Save,
            DrawOp::SetSourceRgba(v.color),
            DrawOp::NewSubPath,
            DrawOp::Arc { xc: 12_000, yc: 12_000, radius: 5000, angle1: 180, angle2: 270 },
            DrawOp::Arc { xc: 188_000, yc: 12_000, radius: 5000, angle1: 270, angle2: 0 },
            DrawOp::Arc { xc: 188_000, yc: 88_000, radius: 5000, angle1: 0, angle2: 90 },
            DrawOp::Arc { xc: 12_000, yc: 88_000, radius: 5000, angle1: 90, angle2: 180 },
            DrawOp::ClosePath,
            DrawOp::Fill,
            DrawOp::Restore,
            DrawOp::Save,
            DrawOp::SetChildMargins { top: 9, start: 10, end: 10 },
            DrawOp::DrawChild,
            DrawOp::ResetClip,
            DrawOp::Restore,
        ]
    );
}

#[test]
fn paint_without_child_draws_background_only() {
    let v = VisualState { margin: 0, radius: 0, color: Rgba::white() };
    let ops = paint(&v, padding(4, 4), 30, 20, false);
    assert_eq!(ops.len(), 10);
    assert_eq!(ops[4], DrawOp::Arc { xc: 30_000, yc: 0, radius: 0, angle1: 270, angle2: 0 });
    assert_eq!(ops[5], DrawOp::Arc { xc: 30_000, yc: 20_000, radius: 0, angle1: 0, angle2: 90 });
    assert_eq!(ops[9], DrawOp::Restore);
}

#[test]
fn child_insets_round_margin_down() {
    let v = VisualState { margin: 2999, radius: 0, color: Rgba::white() };
    let ops = paint(&v, padding(1, 5), 10, 10, true);
    assert_eq!(ops[11], DrawOp::SetChildMargins { top: 7, start: 3, end: 3 });
}

#[test]
fn degenerate_size_is_not_clamped() {
    let v = VisualState { margin: 7000, radius: 5000, color: Rgba::white() };
    let ops = paint(&v, padding(0, 0), 0, 0, false);
    assert_eq!(ops[5], DrawOp::Arc { xc: -12_000, yc: -12_000, radius: 5000, angle1: 0, angle2: 90 });
}

#[test]
fn painting_twice_draws_the_same() {
    let mut w: FloatingBackgroundPriv<u32> = FloatingBackgroundPriv::default();
    w.add(7);
    w.transition(true, Rgba::white());
    w.tick();
    w.tick();
    let before = w.visual();
    let a = w.draw(padding(2, 3), 640, 480);
    let b = w.draw(padding(2, 3), 640, 480);
    assert_eq!(a, b);
    assert_eq!(a.len(), 15);
    assert_eq!(w.visual(), before);
}
