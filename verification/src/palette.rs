//! The resolved palette types: a colour pair, the minimal five-colour
//! palette, and the full extended palette of five categories with base, weak
//! and strong pairs, together with the built-in dark fallback palette.

use vstd::prelude::*;

use crate::color::Rgba;

verus! {

/// A body colour together with a text colour that is legible on it.
#[derive(Clone, Copy, Debug, PartialEq, Eq, Structural)]
pub struct Pair {
    pub color: Rgba,
    pub text: Rgba,
}

/// The minimal palette: five named colours.
#[derive(Clone, Copy, Debug, PartialEq, Eq, Structural)]
pub struct Palette {
    pub background: Rgba,
    pub text: Rgba,
    pub primary: Rgba,
    pub success: Rgba,
    pub danger: Rgba,
}

/// One category of the extended palette: base, weak and strong colour pairs.
#[derive(Clone, Copy, Debug, PartialEq, Eq, Structural)]
pub struct Category {
    pub base: Pair,
    pub weak: Pair,
    pub strong: Pair,
}

/// The full extended palette: five categories of three colour pairs each.
#[derive(Clone, Copy, Debug, PartialEq, Eq, Structural)]
pub struct Extended {
    pub background: Category,
    pub primary: Category,
    pub secondary: Category,
    pub success: Category,
    pub danger: Category,
    pub is_dark: bool,
}

/// An opaque 24-bit colour as a fully opaque `Rgba`.
pub open spec fn rgb_spec(r: u8, g: u8, b: u8) -> Rgba {
    Rgba { r, g, b, a: 255u8 }
}

/// The built-in fallback palette, a fixed dark theme.
pub open spec fn tokyo_night_dark_spec() -> Palette {
    Palette {
        background: rgb_spec(0x1a, 0x1b, 0x26),
        text: rgb_spec(0xc0, 0xca, 0xf5),
        primary: rgb_spec(0x1a, 0x1b, 0x26),
        success: rgb_spec(0x9e, 0xce, 0x6a),
        danger: rgb_spec(0xf7, 0x76, 0x8e),
    }
}

/// The built-in fallback palette, a fixed dark theme.
pub fn tokyo_night_dark() -> (p: Palette)
    ensures
        p == tokyo_night_dark_spec(),
{
    Palette {
        background: Rgba { r: 0x1a, g: 0x1b, b: 0x26, a: 255 },
        text: Rgba { r: 0xc0, g: 0xca, b: 0xf5, a: 255 },
        primary: Rgba { r: 0x1a, g: 0x1b, b: 0x26, a: 255 },
        success: Rgba { r: 0x9e, g: 0xce, b: 0x6a, a: 255 },
        danger: Rgba { r: 0xf7, g: 0x76, b: 0x8e, a: 255 },
    }
}

/// The extended palette that the built-in dark theme expands to: the
/// palette's own background and text everywhere, except for a fixed weak
/// background used for dropdowns and two fixed primary shades used for
/// buttons at rest and under the pointer.
pub open spec fn tokyo_generate_spec(palette: Palette) -> Extended {
    let own = Pair { color: palette.background, text: palette.text };
    Extended {
        background: Category {
            base: own,
            weak: Pair { color: rgb_spec(0x22, 0x24, 0x30), text: palette.text },
            strong: own,
        },
        primary: Category {
            base: Pair { color: rgb_spec(0x28, 0x2a, 0x38), text: palette.text },
            weak: own,
            strong: Pair { color: rgb_spec(0x3e, 0x40, 0x52), text: palette.text },
        },
        secondary: Category { base: own, weak: own, strong: own },
        success: Category { base: own, weak: own, strong: own },
        danger: Category { base: own, weak: own, strong: own },
        is_dark: true,
    }
}

/// Expands a minimal palette the way the built-in dark theme does.
pub fn tokyo_generate(palette: Palette) -> (e: Extended)
    ensures
        e == tokyo_generate_spec(palette),
{
    let own = Pair { color: palette.background, text: palette.text };
    Extended {
        background: Category {
            base: own,
            weak: Pair { color: Rgba { r: 0x22, g: 0x24, b: 0x30, a: 255 }, text: palette.text },
            strong: own,
        },
        primary: Category {
            base: Pair { color: Rgba { r: 0x28, g: 0x2a, b: 0x38, a: 255 }, text: palette.text },
            weak: own,
            strong: Pair { color: Rgba { r: 0x3e, g: 0x40, b: 0x52, a: 255 }, text: palette.text },
        },
        secondary: Category { base: own, weak: own, strong: own },
        success: Category { base: own, weak: own, strong: own },
        danger: Category { base: own, weak: own, strong: own },
        is_dark: true,
    }
}

} // verus!
