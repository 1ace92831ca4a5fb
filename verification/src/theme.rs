//! Themes: a closed set of named styles, each resolving to a fixed
//! foreground/background color pair, plus a custom variant carrying its own
//! pair.

use vstd::prelude::*;

verus! {

/// A terminal color, as plain data. The front end translates each variant
/// into the device's color selection sequence.
#[derive(Clone, Copy, PartialEq, Eq, Debug, Structural)]
pub enum Color {
    Red,
    Grey,
    Blue,
    White,
    Yellow,
    Black,
    Rgb(u8, u8, u8),
}

/// A named style. `Custom` carries an explicit foreground/background pair.
/// Themes are stateless and compared by variant identity.
#[derive(Clone, Copy, PartialEq, Eq, Debug, Structural)]
pub enum Theme {
    Maroon,
    Skylight,
    Electro,
    Custom(Color, Color),
}

impl Theme {
    /// The foreground/background pair a theme resolves to.
    pub open spec fn colors_spec(self) -> (Color, Color) {
        match self {
            Theme::Maroon => (Color::Red, Color::Grey),
            Theme::Skylight => (Color::Blue, Color::White),
            Theme::Electro => (Color::Yellow, Color::Black),
            Theme::Custom(fg, bg) => (fg, bg),
        }
    }

    /// Resolve the theme to its foreground/background pair: a total, pure
    /// function over the closed variant set, with no failure mode.
    pub fn colors(&self) -> (r: (Color, Color))
        ensures
            r == self.colors_spec(),
    {
        match self {
            Theme::Maroon => (Color::Red, Color::Grey),
            Theme::Skylight => (Color::Blue, Color::White),
            Theme::Electro => (Color::Yellow, Color::Black),
            Theme::Custom(fg, bg) => (*fg, *bg),
        }
    }
}

} // verus!
