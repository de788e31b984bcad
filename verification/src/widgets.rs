//! The widget-facing styling tables: which theme colours each widget
//! variant draws with, and the path under which a named icon is looked up.
//! Rendering itself belongs to the host toolkit; what is verified here is
//! the colour selection.

use vstd::prelude::*;

use crate::color::Rgba;
use crate::oxitheme::ComputedOxiTheme;

verus! {

/// The button variants, one per themed button role.
#[derive(Clone, Copy, Debug, PartialEq, Eq, Structural)]
pub enum ButtonVariant {
    Primary,
    Secondary,
    Success,
    Danger,
    PrimaryBg,
    SecondaryBg,
}

/// The icon variants, one per themed icon role.
#[derive(Clone, Copy, Debug, PartialEq, Eq, Structural)]
pub enum SvgStyleVariant {
    Primary,
    Secondary,
}

/// The colours a button draws with: its resting background, text and
/// shadow, and the backgrounds it swaps in when pressed or under the
/// pointer.
#[derive(Clone, Copy, Debug, PartialEq, Eq, Structural)]
pub struct ButtonColors {
    pub background: Rgba,
    pub text: Rgba,
    pub shadow: Rgba,
    pub pressed: Rgba,
    pub hovered: Rgba,
}

/// The colour table of a button variant: accent variants draw on their
/// accent colour with its contrast text, background variants draw on a
/// background shade with the plain text colour, and each takes its pressed
/// and hovered backgrounds from the matching derived variants.
pub open spec fn button_colors_spec(theme: ComputedOxiTheme, variant: ButtonVariant) -> ButtonColors {
    match variant {
        ButtonVariant::Primary => ButtonColors {
            background: theme.primary,
            text: theme.primary_contrast,
            shadow: theme.primary,
            pressed: theme.primary_active,
            hovered: theme.primary_hover,
        },
        ButtonVariant::Secondary => ButtonColors {
            background: theme.secondary,
            text: theme.secondary_contrast,
            shadow: theme.secondary,
            pressed: theme.secondary_active,
            hovered: theme.secondary_hover,
        },
        ButtonVariant::Success => ButtonColors {
            background: theme.good,
            text: theme.good_contrast,
            shadow: theme.good,
            pressed: theme.good_active,
            hovered: theme.good_hover,
        },
        ButtonVariant::Danger => ButtonColors {
            background: theme.bad,
            text: theme.bad_contrast,
            shadow: theme.bad,
            pressed: theme.bad_active,
            hovered: theme.bad_hover,
        },
        ButtonVariant::PrimaryBg => ButtonColors {
            background: theme.primary_bg,
            text: theme.text,
            shadow: theme.primary_bg,
            pressed: theme.primary_bg_active,
            hovered: theme.primary_bg_hover,
        },
        ButtonVariant::SecondaryBg => ButtonColors {
            background: theme.secondary_bg,
            text: theme.text,
            shadow: theme.secondary_bg,
            pressed: theme.secondary_bg_active,
            hovered: theme.secondary_bg_hover,
        },
    }
}

/// Looks the colours of a button variant up in the computed theme.
pub fn button_colors(theme: &ComputedOxiTheme, variant: &ButtonVariant) -> (r: ButtonColors)
    ensures
        r == button_colors_spec(*theme, *variant),
{
    match variant {
        ButtonVariant::Primary => ButtonColors {
            background: theme.primary,
            text: theme.primary_contrast,
            shadow: theme.primary,
            pressed: theme.primary_active,
            hovered: theme.primary_hover,
        },
        ButtonVariant::Secondary => ButtonColors {
            background: theme.secondary,
            text: theme.secondary_contrast,
            shadow: theme.secondary,
            pressed: theme.secondary_active,
            hovered: theme.secondary_hover,
        },
        ButtonVariant::Success => ButtonColors {
            background: theme.good,
            text: theme.good_contrast,
            shadow: theme.good,
            pressed: theme.good_active,
            hovered: theme.good_hover,
        },
        ButtonVariant::Danger => ButtonColors {
            background: theme.bad,
            text: theme.bad_contrast,
            shadow: theme.bad,
            pressed: theme.bad_active,
            hovered: theme.bad_hover,
        },
        ButtonVariant::PrimaryBg => ButtonColors {
            background: theme.primary_bg,
            text: theme.text,
            shadow: theme.primary_bg,
            pressed: theme.primary_bg_active,
            hovered: theme.primary_bg_hover,
        },
        ButtonVariant::SecondaryBg => ButtonColors {
            background: theme.secondary_bg,
            text: theme.text,
            shadow: theme.secondary_bg,
            pressed: theme.secondary_bg_active,
            hovered: theme.secondary_bg_hover,
        },
    }
}

/// The colour an icon variant draws with: the primary or the secondary
/// accent colour.
pub open spec fn svg_color_spec(theme: ComputedOxiTheme, variant: SvgStyleVariant) -> Rgba {
    match variant {
        SvgStyleVariant::Primary => theme.primary,
        SvgStyleVariant::Secondary => theme.secondary,
    }
}

/// Looks the colour of an icon variant up in the computed theme.
pub fn svg_color(theme: &ComputedOxiTheme, variant: &SvgStyleVariant) -> (r: Rgba)
    ensures
        r == svg_color_spec(*theme, *variant),
{
    match variant {
        SvgStyleVariant::Primary => theme.primary,
        SvgStyleVariant::Secondary => theme.secondary,
    }
}

/// The path a named icon is looked up under: the icon name set into the
/// fixed asset path.
pub fn path(icon: &str) -> (r: String)
    ensures
        r@ == "./assets/"@ + icon@ + ".svg"@,
{
    let mut p: String = "./assets/".to_owned();
    p.append(icon);
    p.append(".svg");
    p
}

} // verus!
