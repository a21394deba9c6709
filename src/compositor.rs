use vstd::prelude::*;
use crate::model::{Rgba, VisualState, PIXEL_UNITS};

verus! {

/// The style's padding, in whole pixels, as the host resolves it.
#[derive(Clone, Copy, Debug, PartialEq, Eq, Structural)]
pub struct Padding {
    pub left: i16,
    pub right: i16,
    pub top: i16,
    pub bottom: i16,
}

/// One drawing instruction. Coordinates and radii are in thousandths of a
/// pixel, angles in degrees, child margins in whole pixels.
#[derive(Clone, Copy, Debug, PartialEq, Eq, Structural)]
pub enum DrawOp {
    /// Saves the drawing context's state.
    Save,
    /// Restores the last saved state.
    Restore,
    /// Sets the fill color.
    SetSourceRgba(Rgba),
    /// Starts a new sub-path.
    NewSubPath,
    /// A circular arc around `(xc, yc)`, clockwise from `angle1` to `angle2`.
    Arc { xc: i64, yc: i64, radius: u64, angle1: u64, angle2: u64 },
    /// Closes the current sub-path.
    ClosePath,
    /// Fills the current path with the current color.
    Fill,
    /// Sets the child's top, start and end margins.
    SetChildMargins { top: i32, start: i32, end: i32 },
    /// Paints the child.
    DrawChild,
    /// Resets the clip region.
    ResetClip,
}

/// The instructions that fill the rounded rectangle inset by `margin` on all
/// sides of a `width` by `height` pixel area: one quarter arc of radius
/// `radius` at each corner, top-left, top-right, bottom-right, bottom-left.
pub open spec fn background_ops(v: VisualState, width: int, height: int) -> Seq<DrawOp> {
    let m = v.margin as int;
    let r = v.radius as int;
    let w = width * PIXEL_UNITS;
    let h = height * PIXEL_UNITS;
    seq![
        DrawOp::Save,
        DrawOp::SetSourceRgba(v.color),
        DrawOp::NewSubPath,
        DrawOp::Arc { xc: (m + r) as i64, yc: (m + r) as i64, radius: v.radius, angle1: 180, angle2: 270 },
        DrawOp::Arc { xc: (w - r - m) as i64, yc: (m + r) as i64, radius: v.radius, angle1: 270, angle2: 0 },
        DrawOp::Arc { xc: (w - r - m) as i64, yc: (h - r - m) as i64, radius: v.radius, angle1: 0, angle2: 90 },
        DrawOp::Arc { xc: (m + r) as i64, yc: (h - r - m) as i64, radius: v.radius, angle1: 90, angle2: 180 },
        DrawOp::ClosePath,
        DrawOp::Fill,
        DrawOp::Restore,
    ]
}

/// The child's start (and end) inset: the margin in whole pixels, rounded
/// down, plus the left padding.
pub open spec fn child_inset_start(v: VisualState, padding: Padding) -> int {
    v.margin as int / PIXEL_UNITS as int + padding.left
}

/// The child's top inset: the margin in whole pixels, rounded down, plus the
/// top padding.
pub open spec fn child_inset_top(v: VisualState, padding: Padding) -> int {
    v.margin as int / PIXEL_UNITS as int + padding.top
}

/// The instructions that place the child inside the background and paint it.
/// The horizontal insets are equal; the bottom gets none.
pub open spec fn child_ops(v: VisualState, padding: Padding) -> Seq<DrawOp> {
    seq![
        DrawOp::Save,
        DrawOp::SetChildMargins {
            top: child_inset_top(v, padding) as i32,
            start: child_inset_start(v, padding) as i32,
            end: child_inset_start(v, padding) as i32,
        },
        DrawOp::DrawChild,
        DrawOp::ResetClip,
        DrawOp::Restore,
    ]
}

/// Everything one paint pass draws: the background, then the child if there
/// is one.
pub open spec fn paint_ops(v: VisualState, padding: Padding, width: int, height: int, has_child: bool) -> Seq<DrawOp> {
    if has_child {
        background_ops(v, width, height) + child_ops(v, padding)
    } else {
        background_ops(v, width, height)
    }
}

/// Builds the instructions of one paint pass from the visual state, the
/// style's padding and the size of the area in pixels. Painting only reads
/// the visual state.
pub fn paint(v: &VisualState, padding: Padding, width: i32, height: i32, has_child: bool) -> (r: Vec<DrawOp>)
    requires
        v.wf(),
    ensures
        r@ == paint_ops(*v, padding, width as int, height as int, has_child),
{
    let m = v.margin as i64;
    let r = v.radius as i64;
    let w = width as i64 * PIXEL_UNITS as i64;
    let h = height as i64 * PIXEL_UNITS as i64;
    let mut ops: Vec<DrawOp> = Vec::new();
    ops.push(DrawOp::Save);
    ops.push(DrawOp::SetSourceRgba(v.color));
    ops.push(DrawOp::NewSubPath);
    ops.push(DrawOp::Arc { xc: m + r, yc: m + r, radius: v.radius, angle1: 180, angle2: 270 });
    ops.push(DrawOp::Arc { xc: w - r - m, yc: m + r, radius: v.radius, angle1: 270, angle2: 0 });
    ops.push(DrawOp::Arc { xc: w - r - m, yc: h - r - m, radius: v.radius, angle1: 0, angle2: 90 });
    ops.push(DrawOp::Arc { xc: m + r, yc: h - r - m, radius: v.radius, angle1: 90, angle2: 180 });
    ops.push(DrawOp::ClosePath);
    ops.push(DrawOp::Fill);
    ops.push(DrawOp::Restore);
    assert(ops@ =~= background_ops(*v, width as int, height as int));
    if has_child {
        let whole = (v.margin / PIXEL_UNITS) as i32;
        let start = whole + padding.left as i32;
        let top = whole + padding.top as i32;
        ops.push(DrawOp::Save);
        ops.push(DrawOp::SetChildMargins { top, start, end: start });
        ops.push(DrawOp::DrawChild);
        ops.push(DrawOp::ResetClip);
        ops.push(DrawOp::Restore);
        assert(ops@ =~= background_ops(*v, width as int, height as int) + child_ops(*v, padding));
    }
    ops
}

/// Painting is a function of what it reads: two paint passes over the same
/// visual state, padding, size and child presence draw the same instructions,
/// and a pass with a child draws the background first and the child after.
pub proof fn lemma_paint_pure(
    v1: VisualState,
    v2: VisualState,
    padding: Padding,
    width: int,
    height: int,
    has_child: bool,
)
    requires
        v1 == v2,
    ensures
        paint_ops(v1, padding, width, height, has_child) == paint_ops(v2, padding, width, height, has_child),
        paint_ops(v1, padding, width, height, has_child).len() == if has_child { 15int } else { 10int },
        paint_ops(v1, padding, width, height, true).subrange(0, 10) == background_ops(v1, width, height),
{
    assert(paint_ops(v1, padding, width, height, true).subrange(0, 10) =~= background_ops(v1, width, height));
}

} // verus!
