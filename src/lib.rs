//! A single-child container whose background is a rounded rectangle that
//! animates between a floating look (inset, rounded, translucent) and a docked
//! one (flush, square, opaque).
//!
//! The host toolkit reads and draws; this library decides. A transition is
//! driven by the host's ticker through `tick`, and a paint pass is a list of
//! drawing instructions for the host to carry out.

pub mod easing;
pub mod model;
pub mod controller;
pub mod compositor;
pub mod child_slot;
pub mod widget;

pub use child_slot::ChildSlot;
pub use compositor::{paint, DrawOp, Padding};
pub use controller::{Controller, TickResult, Transition, TransitionStart, TICK_INTERVAL_MS, TRANSITION_STEPS};
pub use easing::ease;
pub use model::{Config, Rgba, VisualState, CHANNEL_MAX, PIXEL_UNITS};
pub use widget::{FloatingBackgroundPriv, PropertyError, PropertyKey, PropertyValue};
