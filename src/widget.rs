use vstd::prelude::*;
use crate::child_slot::{add_spec, ChildSlot};
use crate::compositor::{paint, paint_ops, DrawOp, Padding};
use crate::controller::{tick_spec, transition_spec, Controller, TickResult, TransitionStart};
use crate::model::{Config, Rgba, VisualState, CHANNEL_MAX, MAX_MARGIN_LIMIT, MAX_RADIUS_LIMIT};

verus! {

/// The configurable properties, by name.
#[derive(Clone, Copy, Debug, PartialEq, Eq, Structural)]
pub enum PropertyKey {
    Floating,
    MaxMargin,
    MaxRadius,
    FloatingOpacity,
}

/// A value for one of the configurable properties. Lengths are in
/// thousandths of a pixel, the opacity in thousandths.
#[derive(Clone, Copy, Debug, PartialEq, Eq, Structural)]
pub enum PropertyValue {
    Floating(bool),
    MaxMargin(u64),
    MaxRadius(u64),
    FloatingOpacity(u64),
}

/// Why a property write was refused.
#[derive(Clone, Copy, Debug, PartialEq, Eq, Structural)]
pub enum PropertyError {
    /// The value lies outside the property's declared bounds.
    OutOfRange,
}

/// Whether `value` lies within its property's declared bounds.
pub open spec fn in_bounds(value: PropertyValue) -> bool {
    match value {
        PropertyValue::Floating(_) => true,
        PropertyValue::MaxMargin(m) => m <= MAX_MARGIN_LIMIT,
        PropertyValue::MaxRadius(r) => r <= MAX_RADIUS_LIMIT,
        PropertyValue::FloatingOpacity(o) => o <= CHANNEL_MAX,
    }
}

/// The controller after writing an in-bounds `value`, and what the host has
/// to do; `base` is the style's resting background color.
pub open spec fn set_property_spec(c: Controller, value: PropertyValue, base: Rgba) -> (Controller, TransitionStart) {
    match value {
        PropertyValue::Floating(f) => transition_spec(c, f, base),
        PropertyValue::MaxMargin(m) => (
            Controller { config: Config { max_margin: m, ..c.config }, ..c },
            TransitionStart::Unchanged,
        ),
        PropertyValue::MaxRadius(r) => (
            Controller { config: Config { max_radius: r, ..c.config }, ..c },
            TransitionStart::Unchanged,
        ),
        PropertyValue::FloatingOpacity(o) => (
            Controller { config: Config { floating_opacity: o, ..c.config }, ..c },
            TransitionStart::Unchanged,
        ),
    }
}

/// A single-child container that paints an animated rounded background
/// behind its child and moves between a floating and a docked look.
pub struct FloatingBackgroundPriv<W> {
    controller: Controller,
    content: ChildSlot<W>,
}

impl<W> FloatingBackgroundPriv<W> {
    /// The transition controller's state.
    pub closed spec fn state(&self) -> Controller {
        self.controller
    }

    /// The child held, if any.
    pub closed spec fn child_spec(&self) -> Option<W> {
        self.content@
    }

    pub open spec fn wf(&self) -> bool {
        self.state().wf()
    }

    /// Requests floating state `value`; `base` is the style's resting
    /// background color. See `Controller::set_floating`.
    pub fn transition(&mut self, value: bool, base: Rgba) -> (r: TransitionStart)
        requires
            old(self).wf(),
            base.wf(),
        ensures
            (final(self).state(), r) == transition_spec(old(self).state(), value, base),
            final(self).child_spec() == old(self).child_spec(),
            final(self).wf(),
    {
        self.controller.set_floating(value, base)
    }

    /// One tick of the ticker. See `Controller::tick`.
    pub fn tick(&mut self) -> (r: TickResult)
        requires
            old(self).wf(),
        ensures
            (final(self).state(), r) == tick_spec(old(self).state()),
            final(self).child_spec() == old(self).child_spec(),
            final(self).wf(),
    {
        self.controller.tick()
    }

    /// Writes one property. A value outside its bounds is refused and changes
    /// nothing. Writing `Floating` starts a transition as `transition` does;
    /// the other properties only shape transitions that start later.
    pub fn set_property(&mut self, value: PropertyValue, base: Rgba) -> (r: Result<TransitionStart, PropertyError>)
        requires
            old(self).wf(),
            base.wf(),
        ensures
            final(self).child_spec() == old(self).child_spec(),
            final(self).wf(),
            in_bounds(value) ==> r is Ok && (final(self).state(), r->Ok_0) == set_property_spec(
                old(self).state(),
                value,
                base,
            ),
            !in_bounds(value) ==> r == Err::<TransitionStart, PropertyError>(PropertyError::OutOfRange)
                && final(self).state() == old(self).state(),
    {
        match value {
            PropertyValue::Floating(f) => Ok(self.controller.set_floating(f, base)),
            PropertyValue::MaxMargin(m) => {
                if m > MAX_MARGIN_LIMIT {
                    return Err(PropertyError::OutOfRange);
                }
                self.controller.config.max_margin = m;
                Ok(TransitionStart::Unchanged)
            },
            PropertyValue::MaxRadius(r) => {
                if r > MAX_RADIUS_LIMIT {
                    return Err(PropertyError::OutOfRange);
                }
                self.controller.config.max_radius = r;
                Ok(TransitionStart::Unchanged)
            },
            PropertyValue::FloatingOpacity(o) => {
                if o > CHANNEL_MAX {
                    return Err(PropertyError::OutOfRange);
                }
                self.controller.config.floating_opacity = o;
                Ok(TransitionStart::Unchanged)
            },
        }
    }

    /// Reads one property.
    pub fn property(&self, key: PropertyKey) -> (r: PropertyValue)
        ensures
            r == match key {
                PropertyKey::Floating => PropertyValue::Floating(self.state().floating),
                PropertyKey::MaxMargin => PropertyValue::MaxMargin(self.state().config.max_margin),
                PropertyKey::MaxRadius => PropertyValue::MaxRadius(self.state().config.max_radius),
                PropertyKey::FloatingOpacity => PropertyValue::FloatingOpacity(
                    self.state().config.floating_opacity,
                ),
            },
    {
        match key {
            PropertyKey::Floating => PropertyValue::Floating(self.controller.floating),
            PropertyKey::MaxMargin => PropertyValue::MaxMargin(self.controller.config.max_margin),
            PropertyKey::MaxRadius => PropertyValue::MaxRadius(self.controller.config.max_radius),
            PropertyKey::FloatingOpacity => PropertyValue::FloatingOpacity(self.controller.config.floating_opacity),
        }
    }

    /// Adds the child. A child already held is taken out and handed back, so
    /// that the caller can remove it and report the misuse; no repaint is
    /// asked for.
    pub fn add(&mut self, widget: W) -> (evicted: Option<W>)
        ensures
            (final(self).child_spec(), evicted) == add_spec(old(self).child_spec(), widget),
            final(self).state() == old(self).state(),
    {
        self.content.add(widget)
    }

    /// Empties the child slot, handing back the child it held.
    pub fn remove(&mut self) -> (r: Option<W>)
        ensures
            r == old(self).child_spec(),
            final(self).child_spec() is None,
            final(self).state() == old(self).state(),
    {
        self.content.take()
    }

    /// The child held, if any.
    pub fn child(&self) -> (r: &Option<W>)
        ensures
            *r == self.child_spec(),
    {
        self.content.child()
    }

    /// The instructions of one paint pass over a `width` by `height` pixel
    /// area, with the style's `padding`. Painting changes nothing.
    pub fn draw(&self, padding: Padding, width: i32, height: i32) -> (r: Vec<DrawOp>)
        requires
            self.wf(),
        ensures
            r@ == paint_ops(self.state().visual, padding, width as int, height as int, self.child_spec() is Some),
    {
        paint(&self.controller.visual, padding, width, height, self.content.has_child())
    }

    /// The current margin, radius and color.
    pub fn visual(&self) -> (r: VisualState)
        ensures
            r == self.state().visual,
    {
        self.controller.visual
    }

    /// Whether a transition is in flight.
    pub fn is_transitioning(&self) -> (r: bool)
        ensures
            r == self.state().running is Some,
    {
        self.controller.running.is_some()
    }
}

impl<W> Default for FloatingBackgroundPriv<W> {
    /// Docked and at rest, opaque white, with no child and the default
    /// configuration.
    fn default() -> (r: FloatingBackgroundPriv<W>)
        ensures
            r.state() == Controller::docked_spec(
                Config::default_spec(),
                Rgba { red: CHANNEL_MAX, green: CHANNEL_MAX, blue: CHANNEL_MAX, alpha: CHANNEL_MAX },
            ),
            r.child_spec() is None,
            r.wf(),
    {
        FloatingBackgroundPriv {
            controller: Controller::docked(Config::default(), Rgba::white()),
            content: ChildSlot::new(),
        }
    }
}

} // verus!
