//! Colors by name.
//!
//! A theme is a palette that gives each [`Tone`] a color. Styles are resolved to
//! tones and to the share of a tone's opacity that is kept, so a style holds for
//! every theme: whoever paints looks the tone up in the theme at hand.

use vstd::prelude::*;

verus! {

/// The tones that a theme supplies.
#[derive(Debug, Clone, Copy, PartialEq, Eq, Structural)]
pub enum Tone {
    /// The primary accent.
    PrimaryBase,
    /// The foreground that goes with the primary accent.
    PrimaryBaseText,
    /// The stronger primary accent.
    PrimaryStrong,
    /// The foreground that goes with the stronger primary accent.
    PrimaryStrongText,
    /// The danger accent.
    DangerBase,
    /// The foreground that goes with the danger accent.
    DangerBaseText,
    /// The stronger danger accent.
    DangerStrong,
    /// The foreground that goes with the stronger danger accent.
    DangerStrongText,
    /// The foreground on the plain background.
    BackgroundBaseText,
    /// The background tone nearest to the plain background.
    BackgroundWeakest,
    /// The background tone one step further from the plain background.
    BackgroundWeaker,
    /// The background tone that stands out most.
    BackgroundStrong,
}

/// A color: nothing at all, or a tone of the theme at some share of its own
/// opacity.
#[derive(Debug, Clone, Copy, PartialEq, Eq, Structural)]
pub enum Color {
    /// Fully transparent, in every theme.
    Transparent,
    /// The theme's color for `tone`, its alpha channel scaled to
    /// `alpha_percent` hundredths.
    Themed { tone: Tone, alpha_percent: u8 },
}

impl Color {
    /// The tone that the color takes its hue from, if it has one.
    pub open spec fn tone(self) -> Option<Tone> {
        match self {
            Color::Transparent => None,
            Color::Themed { tone, .. } => Some(tone),
        }
    }

    /// The opacity that is kept, in hundredths of the tone's own.
    pub open spec fn alpha(self) -> nat {
        match self {
            Color::Transparent => 0,
            Color::Themed { alpha_percent, .. } => alpha_percent as nat,
        }
    }

    /// The color with `percent` hundredths of its opacity, rounded down to a
    /// whole hundredth. Scaling what is transparent leaves it transparent.
    pub open spec fn scaled(self, percent: u8) -> Color {
        match self {
            Color::Transparent => Color::Transparent,
            Color::Themed { tone, alpha_percent } => Color::Themed {
                tone,
                alpha_percent: ((alpha_percent as nat * percent as nat) / 100) as u8,
            },
        }
    }

    /// The theme's color for `tone`, as opaque as the theme has it.
    pub fn of(tone: Tone) -> (color: Color)
        ensures
            color == (Color::Themed { tone, alpha_percent: 100 }),
    {
        Color::Themed { tone, alpha_percent: 100 }
    }

    /// Scales the opacity to `percent` hundredths of what it is.
    pub fn scale_alpha(self, percent: u8) -> (color: Color)
        requires
            percent <= 100,
        ensures
            color == self.scaled(percent),
    {
        match self {
            Color::Transparent => Color::Transparent,
            Color::Themed { tone, alpha_percent } => {
                assert(alpha_percent as nat * percent as nat <= 25500) by (nonlinear_arith)
                    requires
                        alpha_percent <= 255,
                        percent <= 100,
                ;
                let wide: u16 = alpha_percent as u16 * percent as u16;
                let kept: u16 = wide / 100;
                Color::Themed { tone, alpha_percent: kept as u8 }
            },
        }
    }

    /// Whether the color is the fully transparent one.
    pub fn is_transparent(self) -> (transparent: bool)
        ensures
            transparent == (self is Transparent),
    {
        match self {
            Color::Transparent => true,
            Color::Themed { .. } => false,
        }
    }
}

} // verus!
