use vstd::prelude::*;

verus! {

/// Lengths are held in thousandths of a pixel.
pub const PIXEL_UNITS: u64 = 1000;

/// A color channel (and the opacity) is held in thousandths: 1000 is full.
pub const CHANNEL_MAX: u64 = 1000;

/// Largest accepted maximum margin: 100 pixels.
pub const MAX_MARGIN_LIMIT: u64 = 100 * PIXEL_UNITS;

/// Largest accepted maximum corner radius: 360 pixels.
pub const MAX_RADIUS_LIMIT: u64 = 360 * PIXEL_UNITS;

/// A color with straight (not premultiplied) alpha, each channel in
/// thousandths.
#[derive(Clone, Copy, Debug, PartialEq, Eq, Structural)]
pub struct Rgba {
    pub red: u64,
    pub green: u64,
    pub blue: u64,
    pub alpha: u64,
}

impl Rgba {
    /// Every channel lies in `[0, CHANNEL_MAX]`.
    pub open spec fn wf(self) -> bool {
        &&& self.red <= CHANNEL_MAX
        &&& self.green <= CHANNEL_MAX
        &&& self.blue <= CHANNEL_MAX
        &&& self.alpha <= CHANNEL_MAX
    }

    /// The same color with another opacity.
    pub open spec fn with_alpha_spec(self, alpha: u64) -> Rgba {
        Rgba { alpha, ..self }
    }

    /// Opaque white.
    pub fn white() -> (r: Rgba)
        ensures
            r == (Rgba { red: CHANNEL_MAX, green: CHANNEL_MAX, blue: CHANNEL_MAX, alpha: CHANNEL_MAX }),
            r.wf(),
    {
        Rgba { red: CHANNEL_MAX, green: CHANNEL_MAX, blue: CHANNEL_MAX, alpha: CHANNEL_MAX }
    }

    /// The same color with another opacity.
    pub fn with_alpha(self, alpha: u64) -> (r: Rgba)
        ensures
            r == self.with_alpha_spec(alpha),
    {
        Rgba { alpha, ..self }
    }
}

/// The configuration that shapes the next transition.
#[derive(Clone, Copy, Debug, PartialEq, Eq, Structural)]
pub struct Config {
    /// Inset of the background when floating, in thousandths of a pixel.
    pub max_margin: u64,
    /// Corner radius when floating, in thousandths of a pixel.
    pub max_radius: u64,
    /// Opacity when floating, in thousandths.
    pub floating_opacity: u64,
}

impl Config {
    /// Each value lies within its declared bounds.
    pub open spec fn wf(self) -> bool {
        &&& self.max_margin <= MAX_MARGIN_LIMIT
        &&& self.max_radius <= MAX_RADIUS_LIMIT
        &&& self.floating_opacity <= CHANNEL_MAX
    }

    /// Margin 7 pixels, radius 5 pixels, opacity 0.8.
    /// (7000 and 5000 thousandths of a pixel, 800 thousandths.)
    pub open spec fn default_spec() -> Config {
        Config { max_margin: 7000, max_radius: 5000, floating_opacity: 800 }
    }
}

impl Default for Config {
    fn default() -> (r: Config)
        ensures
            r == Config::default_spec(),
            r.wf(),
    {
        Config { max_margin: 7 * PIXEL_UNITS, max_radius: 5 * PIXEL_UNITS, floating_opacity: 800 }
    }
}

/// What is painted: the inset of the background, its corner radius and its
/// color.
#[derive(Clone, Copy, Debug, PartialEq, Eq, Structural)]
pub struct VisualState {
    /// In thousandths of a pixel.
    pub margin: u64,
    /// In thousandths of a pixel.
    pub radius: u64,
    pub color: Rgba,
}

impl VisualState {
    /// Margin, radius and color within the configurable bounds.
    pub open spec fn wf(self) -> bool {
        &&& self.margin <= MAX_MARGIN_LIMIT
        &&& self.radius <= MAX_RADIUS_LIMIT
        &&& self.color.wf()
    }
}

} // verus!
