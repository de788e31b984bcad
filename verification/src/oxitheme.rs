//! The configurable theme and its computed form.
//!
//! Besides the palette schemas, a configuration document may name any
//! subset of the theme values: colours as hexadecimal strings, tint and
//! shade amounts, and layout sizes. Values the document does not name come
//! from a built-in default theme, and the combined theme is then computed:
//! every colour string is read into a colour and the hover and pressed
//! variants are derived by tinting and shading.

use vstd::prelude::*;

use crate::color::{
    color_of_hex, darken_spec, lighten_spec, mk_color, mk_dark_color, mk_light_color, Rgba,
};
use crate::document::{
    doc_model, parse_document, table_get, table_model, value_as_integer, value_as_str, TomlNode,
};
use crate::palette::Palette;

verus! {

/// An optional string entry: absent, present as a string, or spoiled by an
/// entry of another shape.
pub open spec fn opt_str_entry(m: Map<Seq<char>, TomlNode>, key: Seq<char>) -> Option<
    Option<Seq<char>>,
> {
    if !m.dom().contains(key) {
        Some(None)
    } else if m[key] is Str {
        Some(Some(m[key]->Str_0))
    } else {
        None
    }
}

/// An optional amount entry: absent, present as an integer on the 0..=255
/// channel scale, or spoiled.
pub open spec fn opt_u8_entry(m: Map<Seq<char>, TomlNode>, key: Seq<char>) -> Option<Option<u8>> {
    if !m.dom().contains(key) {
        Some(None)
    } else if m[key] is Int && 0 <= m[key]->Int_0 <= 255 {
        Some(Some(m[key]->Int_0 as u8))
    } else {
        None
    }
}

/// An optional 16-bit entry: absent, present as an integer that fits, or
/// spoiled.
pub open spec fn opt_u16_entry(m: Map<Seq<char>, TomlNode>, key: Seq<char>) -> Option<Option<u16>> {
    if !m.dom().contains(key) {
        Some(None)
    } else if m[key] is Int && 0 <= m[key]->Int_0 <= u16::MAX {
        Some(Some(m[key]->Int_0 as u16))
    } else {
        None
    }
}

/// An optional 32-bit entry: absent, present as an integer that fits, or
/// spoiled.
pub open spec fn opt_u32_entry(m: Map<Seq<char>, TomlNode>, key: Seq<char>) -> Option<Option<u32>> {
    if !m.dom().contains(key) {
        Some(None)
    } else if m[key] is Int && 0 <= m[key]->Int_0 <= u32::MAX {
        Some(Some(m[key]->Int_0 as u32))
    } else {
        None
    }
}

/// Reads an optional string entry, failing on one of the wrong shape.
fn opt_str_field(t: &toml::Table, key: &str) -> (r: Option<Option<String>>)
    ensures
        r is Some <==> opt_str_entry(table_model(*t), key@) is Some,
        r is Some ==> (r->Some_0 is Some <==> opt_str_entry(table_model(*t), key@)->Some_0
            is Some),
        r is Some && r->Some_0 is Some ==> Some(r->Some_0->Some_0@) == opt_str_entry(
            table_model(*t),
            key@,
        )->Some_0,
{
    match table_get(t, key) {
        None => Some(None),
        Some(v) => match value_as_str(&v) {
            Some(s) => Some(Some(s)),
            None => None,
        },
    }
}

/// Reads an optional amount entry, failing on one of the wrong shape or
/// outside the 0..=255 channel scale.
fn opt_u8_field(t: &toml::Table, key: &str) -> (r: Option<Option<u8>>)
    ensures
        r == opt_u8_entry(table_model(*t), key@),
{
    match table_get(t, key) {
        None => Some(None),
        Some(v) => match value_as_integer(&v) {
            Some(n) => {
                if 0 <= n && n <= 255 {
                    Some(Some(n as u8))
                } else {
                    None
                }
            },
            None => None,
        },
    }
}

/// Reads an optional 16-bit entry, failing on one of the wrong shape or
/// out of range.
fn opt_u16_field(t: &toml::Table, key: &str) -> (r: Option<Option<u16>>)
    ensures
        r == opt_u16_entry(table_model(*t), key@),
{
    match table_get(t, key) {
        None => Some(None),
        Some(v) => match value_as_integer(&v) {
            Some(n) => {
                if 0 <= n && n <= u16::MAX as i64 {
                    Some(Some(n as u16))
                } else {
                    None
                }
            },
            None => None,
        },
    }
}

/// Reads an optional 32-bit entry, failing on one of the wrong shape or
/// out of range.
fn opt_u32_field(t: &toml::Table, key: &str) -> (r: Option<Option<u32>>)
    ensures
        r == opt_u32_entry(table_model(*t), key@),
{
    match table_get(t, key) {
        None => Some(None),
        Some(v) => match value_as_integer(&v) {
            Some(n) => {
                if 0 <= n && n <= u32::MAX as i64 {
                    Some(Some(n as u32))
                } else {
                    None
                }
            },
            None => None,
        },
    }
}
/// The configurable theme: twenty-six hexadecimal colour strings and the
/// numeric layout values, before the colours are read and the derived
/// hover and pressed variants are computed.
pub struct OxiTheme {
    pub base: String,
    pub mantle: String,
    pub primary_bg: String,
    pub secondary_bg: String,
    pub tertiary_bg: String,
    pub text: String,
    pub text_muted: String,
    pub primary: String,
    pub secondary: String,
    pub primary_contrast: String,
    pub secondary_contrast: String,
    pub good: String,
    pub good_contrast: String,
    pub bad: String,
    pub bad_contrast: String,
    pub info: String,
    pub info_contrast: String,
    pub warning: String,
    pub warning_contrast: String,
    pub rose: String,
    pub lavender: String,
    pub blue: String,
    pub mauve: String,
    pub flamingo: String,
    pub shade_amount: u8,
    pub tint_amount: u8,
    pub border_radius: u16,
    pub border_color_weak: String,
    pub border_color_strong: String,
    pub padding_xs: u32,
    pub padding_sm: u32,
    pub padding_md: u32,
    pub padding_lg: u32,
    pub padding_xl: u32,
    pub padding_xxl: u32,
    pub font_sm: u32,
    pub font_md: u32,
    pub font_lg: u32,
    pub font_xl: u32,
    pub font_xxl: u32,
}

/// The mathematical value of a configurable theme.
pub struct OxiThemeV {
    pub base: Seq<char>,
    pub mantle: Seq<char>,
    pub primary_bg: Seq<char>,
    pub secondary_bg: Seq<char>,
    pub tertiary_bg: Seq<char>,
    pub text: Seq<char>,
    pub text_muted: Seq<char>,
    pub primary: Seq<char>,
    pub secondary: Seq<char>,
    pub primary_contrast: Seq<char>,
    pub secondary_contrast: Seq<char>,
    pub good: Seq<char>,
    pub good_contrast: Seq<char>,
    pub bad: Seq<char>,
    pub bad_contrast: Seq<char>,
    pub info: Seq<char>,
    pub info_contrast: Seq<char>,
    pub warning: Seq<char>,
    pub warning_contrast: Seq<char>,
    pub rose: Seq<char>,
    pub lavender: Seq<char>,
    pub blue: Seq<char>,
    pub mauve: Seq<char>,
    pub flamingo: Seq<char>,
    pub shade_amount: u8,
    pub tint_amount: u8,
    pub border_radius: u16,
    pub border_color_weak: Seq<char>,
    pub border_color_strong: Seq<char>,
    pub padding_xs: u32,
    pub padding_sm: u32,
    pub padding_md: u32,
    pub padding_lg: u32,
    pub padding_xl: u32,
    pub padding_xxl: u32,
    pub font_sm: u32,
    pub font_md: u32,
    pub font_lg: u32,
    pub font_xl: u32,
    pub font_xxl: u32,
}

impl View for OxiTheme {
    type V = OxiThemeV;

    open spec fn view(&self) -> OxiThemeV {
        OxiThemeV {
            base: self.base@,
            mantle: self.mantle@,
            primary_bg: self.primary_bg@,
            secondary_bg: self.secondary_bg@,
            tertiary_bg: self.tertiary_bg@,
            text: self.text@,
            text_muted: self.text_muted@,
            primary: self.primary@,
            secondary: self.secondary@,
            primary_contrast: self.primary_contrast@,
            secondary_contrast: self.secondary_contrast@,
            good: self.good@,
            good_contrast: self.good_contrast@,
            bad: self.bad@,
            bad_contrast: self.bad_contrast@,
            info: self.info@,
            info_contrast: self.info_contrast@,
            warning: self.warning@,
            warning_contrast: self.warning_contrast@,
            rose: self.rose@,
            lavender: self.lavender@,
            blue: self.blue@,
            mauve: self.mauve@,
            flamingo: self.flamingo@,
            shade_amount: self.shade_amount,
            tint_amount: self.tint_amount,
            border_radius: self.border_radius,
            border_color_weak: self.border_color_weak@,
            border_color_strong: self.border_color_strong@,
            padding_xs: self.padding_xs,
            padding_sm: self.padding_sm,
            padding_md: self.padding_md,
            padding_lg: self.padding_lg,
            padding_xl: self.padding_xl,
            padding_xxl: self.padding_xxl,
            font_sm: self.font_sm,
            font_md: self.font_md,
            font_lg: self.font_lg,
            font_xl: self.font_xl,
            font_xxl: self.font_xxl,
        }
    }
}

/// A partial theme read from a configuration document: every value is
/// optional, and a missing one falls back to the built-in default. The
/// values are grouped as the core colours, the status colours, the
/// layout values and the sizes.
pub struct OptionalOxiTheme {
    pub core: OptCoreColors,
    pub status: OptStatusColors,
    pub layout: OptLayout,
    pub sizes: OptSizes,
}

/// The mathematical value of a partial theme.
pub struct OptOxiV {
    pub core: OptCoreColorsV,
    pub status: OptStatusColorsV,
    pub layout: OptLayoutV,
    pub sizes: OptSizesV,
}

impl View for OptionalOxiTheme {
    type V = OptOxiV;

    open spec fn view(&self) -> OptOxiV {
        OptOxiV {
            core: self.core@,
            status: self.status@,
            layout: self.layout@,
            sizes: self.sizes@,
        }
    }
}

/// One theme value overlaid on its default.
pub open spec fn over_str(o: Option<Seq<char>>, d: Seq<char>) -> Seq<char> {
    match o {
        Option::Some(s) => s,
        Option::None => d,
    }
}

/// A partial theme overlaid on a full one: every value the document
/// names replaces the default, every other default is kept.
pub open spec fn build_spec(o: OptOxiV, d: OxiThemeV) -> OxiThemeV {
    OxiThemeV {
        base: over_str(o.core.base, d.base),
        mantle: over_str(o.core.mantle, d.mantle),
        primary_bg: over_str(o.core.primary_bg, d.primary_bg),
        secondary_bg: over_str(o.core.secondary_bg, d.secondary_bg),
        tertiary_bg: over_str(o.core.tertiary_bg, d.tertiary_bg),
        text: over_str(o.core.text, d.text),
        text_muted: over_str(o.core.text_muted, d.text_muted),
        primary: over_str(o.core.primary, d.primary),
        secondary: over_str(o.core.secondary, d.secondary),
        primary_contrast: over_str(o.core.primary_contrast, d.primary_contrast),
        secondary_contrast: over_str(o.core.secondary_contrast, d.secondary_contrast),
        good: over_str(o.status.good, d.good),
        good_contrast: over_str(o.status.good_contrast, d.good_contrast),
        bad: over_str(o.status.bad, d.bad),
        bad_contrast: over_str(o.status.bad_contrast, d.bad_contrast),
        info: over_str(o.status.info, d.info),
        info_contrast: over_str(o.status.info_contrast, d.info_contrast),
        warning: over_str(o.status.warning, d.warning),
        warning_contrast: over_str(o.status.warning_contrast, d.warning_contrast),
        rose: over_str(o.status.rose, d.rose),
        lavender: over_str(o.status.lavender, d.lavender),
        blue: over_str(o.status.blue, d.blue),
        mauve: over_str(o.status.mauve, d.mauve),
        flamingo: over_str(o.status.flamingo, d.flamingo),
        shade_amount: match o.layout.shade_amount {
            Option::Some(v) => v,
            Option::None => d.shade_amount,
        },
        tint_amount: match o.layout.tint_amount {
            Option::Some(v) => v,
            Option::None => d.tint_amount,
        },
        border_radius: match o.layout.border_radius {
            Option::Some(v) => v,
            Option::None => d.border_radius,
        },
        border_color_weak: over_str(o.layout.border_color_weak, d.border_color_weak),
        border_color_strong: over_str(o.layout.border_color_strong, d.border_color_strong),
        padding_xs: match o.sizes.padding_xs {
            Option::Some(v) => v,
            Option::None => d.padding_xs,
        },
        padding_sm: match o.sizes.padding_sm {
            Option::Some(v) => v,
            Option::None => d.padding_sm,
        },
        padding_md: match o.sizes.padding_md {
            Option::Some(v) => v,
            Option::None => d.padding_md,
        },
        padding_lg: match o.sizes.padding_lg {
            Option::Some(v) => v,
            Option::None => d.padding_lg,
        },
        padding_xl: match o.sizes.padding_xl {
            Option::Some(v) => v,
            Option::None => d.padding_xl,
        },
        padding_xxl: match o.sizes.padding_xxl {
            Option::Some(v) => v,
            Option::None => d.padding_xxl,
        },
        font_sm: match o.sizes.font_sm {
            Option::Some(v) => v,
            Option::None => d.font_sm,
        },
        font_md: match o.sizes.font_md {
            Option::Some(v) => v,
            Option::None => d.font_md,
        },
        font_lg: match o.sizes.font_lg {
            Option::Some(v) => v,
            Option::None => d.font_lg,
        },
        font_xl: match o.sizes.font_xl {
            Option::Some(v) => v,
            Option::None => d.font_xl,
        },
        font_xxl: match o.sizes.font_xxl {
            Option::Some(v) => v,
            Option::None => d.font_xxl,
        },
    }
}

impl OptionalOxiTheme {
    /// Overlays this partial theme on the given defaults.
    #[verifier::rlimit(50)]
    pub fn build(self, defaults: OxiTheme) -> (r: OxiTheme)
        ensures
            r@ == build_spec(self@, defaults@),
    {
        OxiTheme {
            base: match self.core.base {
                Option::Some(v) => v,
                Option::None => defaults.base,
            },
            mantle: match self.core.mantle {
                Option::Some(v) => v,
                Option::None => defaults.mantle,
            },
            primary_bg: match self.core.primary_bg {
                Option::Some(v) => v,
                Option::None => defaults.primary_bg,
            },
            secondary_bg: match self.core.secondary_bg {
                Option::Some(v) => v,
                Option::None => defaults.secondary_bg,
            },
            tertiary_bg: match self.core.tertiary_bg {
                Option::Some(v) => v,
                Option::None => defaults.tertiary_bg,
            },
            text: match self.core.text {
                Option::Some(v) => v,
                Option::None => defaults.text,
            },
            text_muted: match self.core.text_muted {
                Option::Some(v) => v,
                Option::None => defaults.text_muted,
            },
            primary: match self.core.primary {
                Option::Some(v) => v,
                Option::None => defaults.primary,
            },
            secondary: match self.core.secondary {
                Option::Some(v) => v,
                Option::None => defaults.secondary,
            },
            primary_contrast: match self.core.primary_contrast {
                Option::Some(v) => v,
                Option::None => defaults.primary_contrast,
            },
            secondary_contrast: match self.core.secondary_contrast {
                Option::Some(v) => v,
                Option::None => defaults.secondary_contrast,
            },
            good: match self.status.good {
                Option::Some(v) => v,
                Option::None => defaults.good,
            },
            good_contrast: match self.status.good_contrast {
                Option::Some(v) => v,
                Option::None => defaults.good_contrast,
            },
            bad: match self.status.bad {
                Option::Some(v) => v,
                Option::None => defaults.bad,
            },
            bad_contrast: match self.status.bad_contrast {
                Option::Some(v) => v,
                Option::None => defaults.bad_contrast,
            },
            info: match self.status.info {
                Option::Some(v) => v,
                Option::None => defaults.info,
            },
            info_contrast: match self.status.info_contrast {
                Option::Some(v) => v,
                Option::None => defaults.info_contrast,
            },
            warning: match self.status.warning {
                Option::Some(v) => v,
                Option::None => defaults.warning,
            },
            warning_contrast: match self.status.warning_contrast {
                Option::Some(v) => v,
                Option::None => defaults.warning_contrast,
            },
            rose: match self.status.rose {
                Option::Some(v) => v,
                Option::None => defaults.rose,
            },
            lavender: match self.status.lavender {
                Option::Some(v) => v,
                Option::None => defaults.lavender,
            },
            blue: match self.status.blue {
                Option::Some(v) => v,
                Option::None => defaults.blue,
            },
            mauve: match self.status.mauve {
                Option::Some(v) => v,
                Option::None => defaults.mauve,
            },
            flamingo: match self.status.flamingo {
                Option::Some(v) => v,
                Option::None => defaults.flamingo,
            },
            shade_amount: match self.layout.shade_amount {
                Option::Some(v) => v,
                Option::None => defaults.shade_amount,
            },
            tint_amount: match self.layout.tint_amount {
                Option::Some(v) => v,
                Option::None => defaults.tint_amount,
            },
            border_radius: match self.layout.border_radius {
                Option::Some(v) => v,
                Option::None => defaults.border_radius,
            },
            border_color_weak: match self.layout.border_color_weak {
                Option::Some(v) => v,
                Option::None => defaults.border_color_weak,
            },
            border_color_strong: match self.layout.border_color_strong {
                Option::Some(v) => v,
                Option::None => defaults.border_color_strong,
            },
            padding_xs: match self.sizes.padding_xs {
                Option::Some(v) => v,
                Option::None => defaults.padding_xs,
            },
            padding_sm: match self.sizes.padding_sm {
                Option::Some(v) => v,
                Option::None => defaults.padding_sm,
            },
            padding_md: match self.sizes.padding_md {
                Option::Some(v) => v,
                Option::None => defaults.padding_md,
            },
            padding_lg: match self.sizes.padding_lg {
                Option::Some(v) => v,
                Option::None => defaults.padding_lg,
            },
            padding_xl: match self.sizes.padding_xl {
                Option::Some(v) => v,
                Option::None => defaults.padding_xl,
            },
            padding_xxl: match self.sizes.padding_xxl {
                Option::Some(v) => v,
                Option::None => defaults.padding_xxl,
            },
            font_sm: match self.sizes.font_sm {
                Option::Some(v) => v,
                Option::None => defaults.font_sm,
            },
            font_md: match self.sizes.font_md {
                Option::Some(v) => v,
                Option::None => defaults.font_md,
            },
            font_lg: match self.sizes.font_lg {
                Option::Some(v) => v,
                Option::None => defaults.font_lg,
            },
            font_xl: match self.sizes.font_xl {
                Option::Some(v) => v,
                Option::None => defaults.font_xl,
            },
            font_xxl: match self.sizes.font_xxl {
                Option::Some(v) => v,
                Option::None => defaults.font_xxl,
            },
        }
    }
}

/// The built-in default theme, a fixed dark scheme.
pub open spec fn default_oxitheme_spec() -> OxiThemeV {
    OxiThemeV {
        base: "1e1e2e"@,
        mantle: "181825"@,
        primary_bg: "313244"@,
        secondary_bg: "45475a"@,
        tertiary_bg: "585b70"@,
        text: "cdd6f4"@,
        text_muted: "585b70"@,
        primary: "89b4fa"@,
        secondary: "b4befe"@,
        primary_contrast: "ffffff"@,
        secondary_contrast: "ffffff"@,
        good: "a6e3a1"@,
        good_contrast: "000000"@,
        bad: "f38ba8"@,
        bad_contrast: "ffffff"@,
        info: "94e2d5"@,
        info_contrast: "ffffff"@,
        warning: "f9e2af"@,
        warning_contrast: "ffffff"@,
        rose: "f5e0dc"@,
        lavender: "b4befe"@,
        blue: "89b4fa"@,
        mauve: "cba6f7"@,
        flamingo: "f2cdcd"@,
        shade_amount: 20u8,
        tint_amount: 10u8,
        border_radius: 10u16,
        border_color_weak: "cdd6f4"@,
        border_color_strong: "89b4fa"@,
        padding_xs: 4u32,
        padding_sm: 8u32,
        padding_md: 12u32,
        padding_lg: 16u32,
        padding_xl: 24u32,
        padding_xxl: 32u32,
        font_sm: 10u32,
        font_md: 14u32,
        font_lg: 18u32,
        font_xl: 24u32,
        font_xxl: 32u32,
    }
}

/// The built-in default theme, a fixed dark scheme.
pub fn default_theme() -> (r: OxiTheme)
    ensures
        r@ == default_oxitheme_spec(),
{
    OxiTheme {
        base: "1e1e2e".to_owned(),
        mantle: "181825".to_owned(),
        primary_bg: "313244".to_owned(),
        secondary_bg: "45475a".to_owned(),
        tertiary_bg: "585b70".to_owned(),
        text: "cdd6f4".to_owned(),
        text_muted: "585b70".to_owned(),
        primary: "89b4fa".to_owned(),
        secondary: "b4befe".to_owned(),
        primary_contrast: "ffffff".to_owned(),
        secondary_contrast: "ffffff".to_owned(),
        good: "a6e3a1".to_owned(),
        good_contrast: "000000".to_owned(),
        bad: "f38ba8".to_owned(),
        bad_contrast: "ffffff".to_owned(),
        info: "94e2d5".to_owned(),
        info_contrast: "ffffff".to_owned(),
        warning: "f9e2af".to_owned(),
        warning_contrast: "ffffff".to_owned(),
        rose: "f5e0dc".to_owned(),
        lavender: "b4befe".to_owned(),
        blue: "89b4fa".to_owned(),
        mauve: "cba6f7".to_owned(),
        flamingo: "f2cdcd".to_owned(),
        shade_amount: 20,
        tint_amount: 10,
        border_radius: 10,
        border_color_weak: "cdd6f4".to_owned(),
        border_color_strong: "89b4fa".to_owned(),
        padding_xs: 4,
        padding_sm: 8,
        padding_md: 12,
        padding_lg: 16,
        padding_xl: 24,
        padding_xxl: 32,
        font_sm: 10,
        font_md: 14,
        font_lg: 18,
        font_xl: 24,
        font_xxl: 32,
    }
}


/// The computed theme: every colour read from its string, with hover and
/// pressed variants derived by tinting backgrounds lighter and accent
/// colours darker, and the numeric layout values passed through.
#[derive(Clone, Copy, Debug, PartialEq, Eq, Structural)]
pub struct ComputedOxiTheme {
    pub base: Rgba,
    pub mantle: Rgba,
    pub mantle_hover: Rgba,
    pub mantle_active: Rgba,
    pub primary_bg: Rgba,
    pub primary_bg_hover: Rgba,
    pub primary_bg_active: Rgba,
    pub secondary_bg: Rgba,
    pub secondary_bg_hover: Rgba,
    pub secondary_bg_active: Rgba,
    pub tertiary_bg: Rgba,
    pub tertiary_bg_hover: Rgba,
    pub tertiary_bg_active: Rgba,
    pub text: Rgba,
    pub text_muted: Rgba,
    pub primary: Rgba,
    pub primary_hover: Rgba,
    pub primary_active: Rgba,
    pub secondary: Rgba,
    pub secondary_hover: Rgba,
    pub secondary_active: Rgba,
    pub primary_contrast: Rgba,
    pub secondary_contrast: Rgba,
    pub good: Rgba,
    pub good_hover: Rgba,
    pub good_active: Rgba,
    pub good_contrast: Rgba,
    pub bad: Rgba,
    pub bad_hover: Rgba,
    pub bad_active: Rgba,
    pub bad_contrast: Rgba,
    pub info: Rgba,
    pub info_hover: Rgba,
    pub info_active: Rgba,
    pub info_contrast: Rgba,
    pub warning: Rgba,
    pub warning_hover: Rgba,
    pub warning_active: Rgba,
    pub warning_contrast: Rgba,
    pub rose: Rgba,
    pub lavender: Rgba,
    pub blue: Rgba,
    pub mauve: Rgba,
    pub flamingo: Rgba,
    pub shade_amount: u8,
    pub tint_amount: u8,
    pub border_radius: u16,
    pub border_color_weak: Rgba,
    pub border_color_strong: Rgba,
    pub padding_xs: u32,
    pub padding_sm: u32,
    pub padding_md: u32,
    pub padding_lg: u32,
    pub padding_xl: u32,
    pub padding_xxl: u32,
    pub font_sm: u32,
    pub font_md: u32,
    pub font_lg: u32,
    pub font_xl: u32,
    pub font_xxl: u32,
}

/// What a theme computes to: background shades are lightened on hover and
/// press, accent and status colours are darkened, and the status pressed
/// variants use the tint amount, like their hover variants.
pub open spec fn computed_spec(t: OxiThemeV) -> ComputedOxiTheme {
    ComputedOxiTheme {
        base: color_of_hex(t.base),
        mantle: color_of_hex(t.mantle),
        mantle_hover: lighten_spec(color_of_hex(t.mantle), t.tint_amount),
        mantle_active: lighten_spec(color_of_hex(t.mantle), t.shade_amount),
        primary_bg: color_of_hex(t.primary_bg),
        primary_bg_hover: lighten_spec(color_of_hex(t.primary_bg), t.tint_amount),
        primary_bg_active: lighten_spec(color_of_hex(t.primary_bg), t.shade_amount),
        secondary_bg: color_of_hex(t.secondary_bg),
        secondary_bg_hover: lighten_spec(color_of_hex(t.secondary_bg), t.tint_amount),
        secondary_bg_active: lighten_spec(color_of_hex(t.secondary_bg), t.shade_amount),
        tertiary_bg: color_of_hex(t.tertiary_bg),
        tertiary_bg_hover: lighten_spec(color_of_hex(t.tertiary_bg), t.tint_amount),
        tertiary_bg_active: lighten_spec(color_of_hex(t.tertiary_bg), t.shade_amount),
        text: color_of_hex(t.text),
        text_muted: color_of_hex(t.text_muted),
        primary: color_of_hex(t.primary),
        primary_hover: darken_spec(color_of_hex(t.primary), t.tint_amount),
        primary_active: darken_spec(color_of_hex(t.primary), t.shade_amount),
        secondary: color_of_hex(t.secondary),
        secondary_hover: darken_spec(color_of_hex(t.secondary), t.tint_amount),
        secondary_active: darken_spec(color_of_hex(t.secondary), t.shade_amount),
        primary_contrast: color_of_hex(t.primary_contrast),
        secondary_contrast: color_of_hex(t.secondary_contrast),
        good: color_of_hex(t.good),
        good_hover: darken_spec(color_of_hex(t.good), t.tint_amount),
        good_active: darken_spec(color_of_hex(t.good), t.tint_amount),
        good_contrast: color_of_hex(t.good_contrast),
        bad: color_of_hex(t.bad),
        bad_hover: darken_spec(color_of_hex(t.bad), t.tint_amount),
        bad_active: darken_spec(color_of_hex(t.bad), t.tint_amount),
        bad_contrast: color_of_hex(t.bad_contrast),
        info: color_of_hex(t.info),
        info_hover: darken_spec(color_of_hex(t.info), t.tint_amount),
        info_active: darken_spec(color_of_hex(t.info), t.tint_amount),
        info_contrast: color_of_hex(t.info_contrast),
        warning: color_of_hex(t.warning),
        warning_hover: darken_spec(color_of_hex(t.warning), t.tint_amount),
        warning_active: darken_spec(color_of_hex(t.warning), t.tint_amount),
        warning_contrast: color_of_hex(t.warning_contrast),
        rose: color_of_hex(t.rose),
        lavender: color_of_hex(t.lavender),
        blue: color_of_hex(t.blue),
        mauve: color_of_hex(t.mauve),
        flamingo: color_of_hex(t.flamingo),
        shade_amount: t.shade_amount,
        tint_amount: t.tint_amount,
        border_radius: t.border_radius,
        border_color_weak: color_of_hex(t.border_color_weak),
        border_color_strong: color_of_hex(t.border_color_strong),
        padding_xs: t.padding_xs,
        padding_sm: t.padding_sm,
        padding_md: t.padding_md,
        padding_lg: t.padding_lg,
        padding_xl: t.padding_xl,
        padding_xxl: t.padding_xxl,
        font_sm: t.font_sm,
        font_md: t.font_md,
        font_lg: t.font_lg,
        font_xl: t.font_xl,
        font_xxl: t.font_xxl,
    }
}

impl From<OxiTheme> for ComputedOxiTheme {
    fn from(value: OxiTheme) -> (r: ComputedOxiTheme) {
        ComputedOxiTheme {
            base: mk_color(value.base.as_str()),
            mantle: mk_color(value.mantle.as_str()),
            mantle_hover: mk_light_color(value.mantle.as_str(), value.tint_amount),
            mantle_active: mk_light_color(value.mantle.as_str(), value.shade_amount),
            primary_bg: mk_color(value.primary_bg.as_str()),
            primary_bg_hover: mk_light_color(value.primary_bg.as_str(), value.tint_amount),
            primary_bg_active: mk_light_color(value.primary_bg.as_str(), value.shade_amount),
            secondary_bg: mk_color(value.secondary_bg.as_str()),
            secondary_bg_hover: mk_light_color(value.secondary_bg.as_str(), value.tint_amount),
            secondary_bg_active: mk_light_color(value.secondary_bg.as_str(), value.shade_amount),
            tertiary_bg: mk_color(value.tertiary_bg.as_str()),
            tertiary_bg_hover: mk_light_color(value.tertiary_bg.as_str(), value.tint_amount),
            tertiary_bg_active: mk_light_color(value.tertiary_bg.as_str(), value.shade_amount),
            text: mk_color(value.text.as_str()),
            text_muted: mk_color(value.text_muted.as_str()),
            primary: mk_color(value.primary.as_str()),
            primary_hover: mk_dark_color(value.primary.as_str(), value.tint_amount),
            primary_active: mk_dark_color(value.primary.as_str(), value.shade_amount),
            secondary: mk_color(value.secondary.as_str()),
            secondary_hover: mk_dark_color(value.secondary.as_str(), value.tint_amount),
            secondary_active: mk_dark_color(value.secondary.as_str(), value.shade_amount),
            primary_contrast: mk_color(value.primary_contrast.as_str()),
            secondary_contrast: mk_color(value.secondary_contrast.as_str()),
            good: mk_color(value.good.as_str()),
            good_hover: mk_dark_color(value.good.as_str(), value.tint_amount),
            good_active: mk_dark_color(value.good.as_str(), value.tint_amount),
            good_contrast: mk_color(value.good_contrast.as_str()),
            bad: mk_color(value.bad.as_str()),
            bad_hover: mk_dark_color(value.bad.as_str(), value.tint_amount),
            bad_active: mk_dark_color(value.bad.as_str(), value.tint_amount),
            bad_contrast: mk_color(value.bad_contrast.as_str()),
            info: mk_color(value.info.as_str()),
            info_hover: mk_dark_color(value.info.as_str(), value.tint_amount),
            info_active: mk_dark_color(value.info.as_str(), value.tint_amount),
            info_contrast: mk_color(value.info_contrast.as_str()),
            warning: mk_color(value.warning.as_str()),
            warning_hover: mk_dark_color(value.warning.as_str(), value.tint_amount),
            warning_active: mk_dark_color(value.warning.as_str(), value.tint_amount),
            warning_contrast: mk_color(value.warning_contrast.as_str()),
            rose: mk_color(value.rose.as_str()),
            lavender: mk_color(value.lavender.as_str()),
            blue: mk_color(value.blue.as_str()),
            mauve: mk_color(value.mauve.as_str()),
            flamingo: mk_color(value.flamingo.as_str()),
            shade_amount: value.shade_amount,
            tint_amount: value.tint_amount,
            border_radius: value.border_radius,
            border_color_weak: mk_color(value.border_color_weak.as_str()),
            border_color_strong: mk_color(value.border_color_strong.as_str()),
            padding_xs: value.padding_xs,
            padding_sm: value.padding_sm,
            padding_md: value.padding_md,
            padding_lg: value.padding_lg,
            padding_xl: value.padding_xl,
            padding_xxl: value.padding_xxl,
            font_sm: value.font_sm,
            font_md: value.font_md,
            font_lg: value.font_lg,
            font_xl: value.font_xl,
            font_xxl: value.font_xxl,
        }
    }
}

impl vstd::std_specs::convert::FromSpecImpl<OxiTheme> for ComputedOxiTheme {
    open spec fn obeys_from_spec() -> bool {
        true
    }

    open spec fn from_spec(value: OxiTheme) -> ComputedOxiTheme {
        computed_spec(value@)
    }
}


/// The optional core colour entries of a theme document.
pub struct OptCoreColors {
    pub base: Option<String>,
    pub mantle: Option<String>,
    pub primary_bg: Option<String>,
    pub secondary_bg: Option<String>,
    pub tertiary_bg: Option<String>,
    pub text: Option<String>,
    pub text_muted: Option<String>,
    pub primary: Option<String>,
    pub secondary: Option<String>,
    pub primary_contrast: Option<String>,
    pub secondary_contrast: Option<String>,
}

/// The mathematical value of the optional core colour entries.
pub struct OptCoreColorsV {
    pub base: Option<Seq<char>>,
    pub mantle: Option<Seq<char>>,
    pub primary_bg: Option<Seq<char>>,
    pub secondary_bg: Option<Seq<char>>,
    pub tertiary_bg: Option<Seq<char>>,
    pub text: Option<Seq<char>>,
    pub text_muted: Option<Seq<char>>,
    pub primary: Option<Seq<char>>,
    pub secondary: Option<Seq<char>>,
    pub primary_contrast: Option<Seq<char>>,
    pub secondary_contrast: Option<Seq<char>>,
}

impl View for OptCoreColors {
    type V = OptCoreColorsV;

    open spec fn view(&self) -> OptCoreColorsV {
        OptCoreColorsV {
            base: match &self.base {
                Option::Some(s) => Option::Some(s@),
                Option::None => Option::None,
            },
            mantle: match &self.mantle {
                Option::Some(s) => Option::Some(s@),
                Option::None => Option::None,
            },
            primary_bg: match &self.primary_bg {
                Option::Some(s) => Option::Some(s@),
                Option::None => Option::None,
            },
            secondary_bg: match &self.secondary_bg {
                Option::Some(s) => Option::Some(s@),
                Option::None => Option::None,
            },
            tertiary_bg: match &self.tertiary_bg {
                Option::Some(s) => Option::Some(s@),
                Option::None => Option::None,
            },
            text: match &self.text {
                Option::Some(s) => Option::Some(s@),
                Option::None => Option::None,
            },
            text_muted: match &self.text_muted {
                Option::Some(s) => Option::Some(s@),
                Option::None => Option::None,
            },
            primary: match &self.primary {
                Option::Some(s) => Option::Some(s@),
                Option::None => Option::None,
            },
            secondary: match &self.secondary {
                Option::Some(s) => Option::Some(s@),
                Option::None => Option::None,
            },
            primary_contrast: match &self.primary_contrast {
                Option::Some(s) => Option::Some(s@),
                Option::None => Option::None,
            },
            secondary_contrast: match &self.secondary_contrast {
                Option::Some(s) => Option::Some(s@),
                Option::None => Option::None,
            },
        }
    }
}

/// The optional core colour entries a document table holds, where every one
/// that is present has the right shape.
#[verifier::opaque]
pub open spec fn optcorecolors_model(m: Map<Seq<char>, TomlNode>) -> Option<OptCoreColorsV> {
    if opt_str_entry(m, "base"@) is Some && opt_str_entry(m, "mantle"@) is Some && opt_str_entry(m, "primary_bg"@) is Some && opt_str_entry(m, "secondary_bg"@) is Some && opt_str_entry(m, "tertiary_bg"@) is Some && opt_str_entry(m, "text"@) is Some && opt_str_entry(m, "text_muted"@) is Some && opt_str_entry(m, "primary"@) is Some && opt_str_entry(m, "secondary"@) is Some && opt_str_entry(m, "primary_contrast"@) is Some && opt_str_entry(m, "secondary_contrast"@) is Some {
        Some(
            OptCoreColorsV {
                base: opt_str_entry(m, "base"@)->Some_0,
                mantle: opt_str_entry(m, "mantle"@)->Some_0,
                primary_bg: opt_str_entry(m, "primary_bg"@)->Some_0,
                secondary_bg: opt_str_entry(m, "secondary_bg"@)->Some_0,
                tertiary_bg: opt_str_entry(m, "tertiary_bg"@)->Some_0,
                text: opt_str_entry(m, "text"@)->Some_0,
                text_muted: opt_str_entry(m, "text_muted"@)->Some_0,
                primary: opt_str_entry(m, "primary"@)->Some_0,
                secondary: opt_str_entry(m, "secondary"@)->Some_0,
                primary_contrast: opt_str_entry(m, "primary_contrast"@)->Some_0,
                secondary_contrast: opt_str_entry(m, "secondary_contrast"@)->Some_0,
            },
        )
    } else {
        None
    }
}

/// Reads the optional core colour entries out of a document table.
fn parse_optcorecolors(t: &toml::Table) -> (r: Option<OptCoreColors>)
    ensures
        r is Some <==> optcorecolors_model(table_model(*t)) is Some,
        r is Some ==> Some(r->Some_0@) == optcorecolors_model(table_model(*t)),
{
    proof {
        reveal(optcorecolors_model);
    }
    let base = match opt_str_field(t, "base") {
        Some(x) => x,
        None => return None,
    };
    let mantle = match opt_str_field(t, "mantle") {
        Some(x) => x,
        None => return None,
    };
    let primary_bg = match opt_str_field(t, "primary_bg") {
        Some(x) => x,
        None => return None,
    };
    let secondary_bg = match opt_str_field(t, "secondary_bg") {
        Some(x) => x,
        None => return None,
    };
    let tertiary_bg = match opt_str_field(t, "tertiary_bg") {
        Some(x) => x,
        None => return None,
    };
    let text = match opt_str_field(t, "text") {
        Some(x) => x,
        None => return None,
    };
    let text_muted = match opt_str_field(t, "text_muted") {
        Some(x) => x,
        None => return None,
    };
    let primary = match opt_str_field(t, "primary") {
        Some(x) => x,
        None => return None,
    };
    let secondary = match opt_str_field(t, "secondary") {
        Some(x) => x,
        None => return None,
    };
    let primary_contrast = match opt_str_field(t, "primary_contrast") {
        Some(x) => x,
        None => return None,
    };
    let secondary_contrast = match opt_str_field(t, "secondary_contrast") {
        Some(x) => x,
        None => return None,
    };
    Some(
        OptCoreColors {
            base,
            mantle,
            primary_bg,
            secondary_bg,
            tertiary_bg,
            text,
            text_muted,
            primary,
            secondary,
            primary_contrast,
            secondary_contrast,
        },
    )
}

/// The optional status colour entries of a theme document.
pub struct OptStatusColors {
    pub good: Option<String>,
    pub good_contrast: Option<String>,
    pub bad: Option<String>,
    pub bad_contrast: Option<String>,
    pub info: Option<String>,
    pub info_contrast: Option<String>,
    pub warning: Option<String>,
    pub warning_contrast: Option<String>,
    pub rose: Option<String>,
    pub lavender: Option<String>,
    pub blue: Option<String>,
    pub mauve: Option<String>,
    pub flamingo: Option<String>,
}

/// The mathematical value of the optional status colour entries.
pub struct OptStatusColorsV {
    pub good: Option<Seq<char>>,
    pub good_contrast: Option<Seq<char>>,
    pub bad: Option<Seq<char>>,
    pub bad_contrast: Option<Seq<char>>,
    pub info: Option<Seq<char>>,
    pub info_contrast: Option<Seq<char>>,
    pub warning: Option<Seq<char>>,
    pub warning_contrast: Option<Seq<char>>,
    pub rose: Option<Seq<char>>,
    pub lavender: Option<Seq<char>>,
    pub blue: Option<Seq<char>>,
    pub mauve: Option<Seq<char>>,
    pub flamingo: Option<Seq<char>>,
}

impl View for OptStatusColors {
    type V = OptStatusColorsV;

    open spec fn view(&self) -> OptStatusColorsV {
        OptStatusColorsV {
            good: match &self.good {
                Option::Some(s) => Option::Some(s@),
                Option::None => Option::None,
            },
            good_contrast: match &self.good_contrast {
                Option::Some(s) => Option::Some(s@),
                Option::None => Option::None,
            },
            bad: match &self.bad {
                Option::Some(s) => Option::Some(s@),
                Option::None => Option::None,
            },
            bad_contrast: match &self.bad_contrast {
                Option::Some(s) => Option::Some(s@),
                Option::None => Option::None,
            },
            info: match &self.info {
                Option::Some(s) => Option::Some(s@),
                Option::None => Option::None,
            },
            info_contrast: match &self.info_contrast {
                Option::Some(s) => Option::Some(s@),
                Option::None => Option::None,
            },
            warning: match &self.warning {
                Option::Some(s) => Option::Some(s@),
                Option::None => Option::None,
            },
            warning_contrast: match &self.warning_contrast {
                Option::Some(s) => Option::Some(s@),
                Option::None => Option::None,
            },
            rose: match &self.rose {
                Option::Some(s) => Option::Some(s@),
                Option::None => Option::None,
            },
            lavender: match &self.lavender {
                Option::Some(s) => Option::Some(s@),
                Option::None => Option::None,
            },
            blue: match &self.blue {
                Option::Some(s) => Option::Some(s@),
                Option::None => Option::None,
            },
            mauve: match &self.mauve {
                Option::Some(s) => Option::Some(s@),
                Option::None => Option::None,
            },
            flamingo: match &self.flamingo {
                Option::Some(s) => Option::Some(s@),
                Option::None => Option::None,
            },
        }
    }
}

/// The optional status colour entries a document table holds, where every one
/// that is present has the right shape.
#[verifier::opaque]
pub open spec fn optstatuscolors_model(m: Map<Seq<char>, TomlNode>) -> Option<OptStatusColorsV> {
    if opt_str_entry(m, "good"@) is Some && opt_str_entry(m, "good_contrast"@) is Some && opt_str_entry(m, "bad"@) is Some && opt_str_entry(m, "bad_contrast"@) is Some && opt_str_entry(m, "info"@) is Some && opt_str_entry(m, "info_contrast"@) is Some && opt_str_entry(m, "warning"@) is Some && opt_str_entry(m, "warning_contrast"@) is Some && opt_str_entry(m, "rose"@) is Some && opt_str_entry(m, "lavender"@) is Some && opt_str_entry(m, "blue"@) is Some && opt_str_entry(m, "mauve"@) is Some && opt_str_entry(m, "flamingo"@) is Some {
        Some(
            OptStatusColorsV {
                good: opt_str_entry(m, "good"@)->Some_0,
                good_contrast: opt_str_entry(m, "good_contrast"@)->Some_0,
                bad: opt_str_entry(m, "bad"@)->Some_0,
                bad_contrast: opt_str_entry(m, "bad_contrast"@)->Some_0,
                info: opt_str_entry(m, "info"@)->Some_0,
                info_contrast: opt_str_entry(m, "info_contrast"@)->Some_0,
                warning: opt_str_entry(m, "warning"@)->Some_0,
                warning_contrast: opt_str_entry(m, "warning_contrast"@)->Some_0,
                rose: opt_str_entry(m, "rose"@)->Some_0,
                lavender: opt_str_entry(m, "lavender"@)->Some_0,
                blue: opt_str_entry(m, "blue"@)->Some_0,
                mauve: opt_str_entry(m, "mauve"@)->Some_0,
                flamingo: opt_str_entry(m, "flamingo"@)->Some_0,
            },
        )
    } else {
        None
    }
}

/// Reads the optional status colour entries out of a document table.
fn parse_optstatuscolors(t: &toml::Table) -> (r: Option<OptStatusColors>)
    ensures
        r is Some <==> optstatuscolors_model(table_model(*t)) is Some,
        r is Some ==> Some(r->Some_0@) == optstatuscolors_model(table_model(*t)),
{
    proof {
        reveal(optstatuscolors_model);
    }
    let good = match opt_str_field(t, "good") {
        Some(x) => x,
        None => return None,
    };
    let good_contrast = match opt_str_field(t, "good_contrast") {
        Some(x) => x,
        None => return None,
    };
    let bad = match opt_str_field(t, "bad") {
        Some(x) => x,
        None => return None,
    };
    let bad_contrast = match opt_str_field(t, "bad_contrast") {
        Some(x) => x,
        None => return None,
    };
    let info = match opt_str_field(t, "info") {
        Some(x) => x,
        None => return None,
    };
    let info_contrast = match opt_str_field(t, "info_contrast") {
        Some(x) => x,
        None => return None,
    };
    let warning = match opt_str_field(t, "warning") {
        Some(x) => x,
        None => return None,
    };
    let warning_contrast = match opt_str_field(t, "warning_contrast") {
        Some(x) => x,
        None => return None,
    };
    let rose = match opt_str_field(t, "rose") {
        Some(x) => x,
        None => return None,
    };
    let lavender = match opt_str_field(t, "lavender") {
        Some(x) => x,
        None => return None,
    };
    let blue = match opt_str_field(t, "blue") {
        Some(x) => x,
        None => return None,
    };
    let mauve = match opt_str_field(t, "mauve") {
        Some(x) => x,
        None => return None,
    };
    let flamingo = match opt_str_field(t, "flamingo") {
        Some(x) => x,
        None => return None,
    };
    Some(
        OptStatusColors {
            good,
            good_contrast,
            bad,
            bad_contrast,
            info,
            info_contrast,
            warning,
            warning_contrast,
            rose,
            lavender,
            blue,
            mauve,
            flamingo,
        },
    )
}

/// The optional layout entries of a theme document.
pub struct OptLayout {
    pub shade_amount: Option<u8>,
    pub tint_amount: Option<u8>,
    pub border_radius: Option<u16>,
    pub border_color_weak: Option<String>,
    pub border_color_strong: Option<String>,
}

/// The mathematical value of the optional layout entries.
pub struct OptLayoutV {
    pub shade_amount: Option<u8>,
    pub tint_amount: Option<u8>,
    pub border_radius: Option<u16>,
    pub border_color_weak: Option<Seq<char>>,
    pub border_color_strong: Option<Seq<char>>,
}

impl View for OptLayout {
    type V = OptLayoutV;

    open spec fn view(&self) -> OptLayoutV {
        OptLayoutV {
            shade_amount: self.shade_amount,
            tint_amount: self.tint_amount,
            border_radius: self.border_radius,
            border_color_weak: match &self.border_color_weak {
                Option::Some(s) => Option::Some(s@),
                Option::None => Option::None,
            },
            border_color_strong: match &self.border_color_strong {
                Option::Some(s) => Option::Some(s@),
                Option::None => Option::None,
            },
        }
    }
}

/// The optional layout entries a document table holds, where every one
/// that is present has the right shape.
#[verifier::opaque]
pub open spec fn optlayout_model(m: Map<Seq<char>, TomlNode>) -> Option<OptLayoutV> {
    if opt_u8_entry(m, "shade_amount"@) is Some && opt_u8_entry(m, "tint_amount"@) is Some && opt_u16_entry(m, "border_radius"@) is Some && opt_str_entry(m, "border_color_weak"@) is Some && opt_str_entry(m, "border_color_strong"@) is Some {
        Some(
            OptLayoutV {
                shade_amount: opt_u8_entry(m, "shade_amount"@)->Some_0,
                tint_amount: opt_u8_entry(m, "tint_amount"@)->Some_0,
                border_radius: opt_u16_entry(m, "border_radius"@)->Some_0,
                border_color_weak: opt_str_entry(m, "border_color_weak"@)->Some_0,
                border_color_strong: opt_str_entry(m, "border_color_strong"@)->Some_0,
            },
        )
    } else {
        None
    }
}

/// Reads the optional layout entries out of a document table.
fn parse_optlayout(t: &toml::Table) -> (r: Option<OptLayout>)
    ensures
        r is Some <==> optlayout_model(table_model(*t)) is Some,
        r is Some ==> Some(r->Some_0@) == optlayout_model(table_model(*t)),
{
    proof {
        reveal(optlayout_model);
    }
    let shade_amount = match opt_u8_field(t, "shade_amount") {
        Some(x) => x,
        None => return None,
    };
    let tint_amount = match opt_u8_field(t, "tint_amount") {
        Some(x) => x,
        None => return None,
    };
    let border_radius = match opt_u16_field(t, "border_radius") {
        Some(x) => x,
        None => return None,
    };
    let border_color_weak = match opt_str_field(t, "border_color_weak") {
        Some(x) => x,
        None => return None,
    };
    let border_color_strong = match opt_str_field(t, "border_color_strong") {
        Some(x) => x,
        None => return None,
    };
    Some(
        OptLayout {
            shade_amount,
            tint_amount,
            border_radius,
            border_color_weak,
            border_color_strong,
        },
    )
}

/// The optional size entries of a theme document.
pub struct OptSizes {
    pub padding_xs: Option<u32>,
    pub padding_sm: Option<u32>,
    pub padding_md: Option<u32>,
    pub padding_lg: Option<u32>,
    pub padding_xl: Option<u32>,
    pub padding_xxl: Option<u32>,
    pub font_sm: Option<u32>,
    pub font_md: Option<u32>,
    pub font_lg: Option<u32>,
    pub font_xl: Option<u32>,
    pub font_xxl: Option<u32>,
}

/// The mathematical value of the optional size entries.
pub struct OptSizesV {
    pub padding_xs: Option<u32>,
    pub padding_sm: Option<u32>,
    pub padding_md: Option<u32>,
    pub padding_lg: Option<u32>,
    pub padding_xl: Option<u32>,
    pub padding_xxl: Option<u32>,
    pub font_sm: Option<u32>,
    pub font_md: Option<u32>,
    pub font_lg: Option<u32>,
    pub font_xl: Option<u32>,
    pub font_xxl: Option<u32>,
}

impl View for OptSizes {
    type V = OptSizesV;

    open spec fn view(&self) -> OptSizesV {
        OptSizesV {
            padding_xs: self.padding_xs,
            padding_sm: self.padding_sm,
            padding_md: self.padding_md,
            padding_lg: self.padding_lg,
            padding_xl: self.padding_xl,
            padding_xxl: self.padding_xxl,
            font_sm: self.font_sm,
            font_md: self.font_md,
            font_lg: self.font_lg,
            font_xl: self.font_xl,
            font_xxl: self.font_xxl,
        }
    }
}

/// The optional size entries a document table holds, where every one
/// that is present has the right shape.
#[verifier::opaque]
pub open spec fn optsizes_model(m: Map<Seq<char>, TomlNode>) -> Option<OptSizesV> {
    if opt_u32_entry(m, "padding_xs"@) is Some && opt_u32_entry(m, "padding_sm"@) is Some && opt_u32_entry(m, "padding_md"@) is Some && opt_u32_entry(m, "padding_lg"@) is Some && opt_u32_entry(m, "padding_xl"@) is Some && opt_u32_entry(m, "padding_xxl"@) is Some && opt_u32_entry(m, "font_sm"@) is Some && opt_u32_entry(m, "font_md"@) is Some && opt_u32_entry(m, "font_lg"@) is Some && opt_u32_entry(m, "font_xl"@) is Some && opt_u32_entry(m, "font_xxl"@) is Some {
        Some(
            OptSizesV {
                padding_xs: opt_u32_entry(m, "padding_xs"@)->Some_0,
                padding_sm: opt_u32_entry(m, "padding_sm"@)->Some_0,
                padding_md: opt_u32_entry(m, "padding_md"@)->Some_0,
                padding_lg: opt_u32_entry(m, "padding_lg"@)->Some_0,
                padding_xl: opt_u32_entry(m, "padding_xl"@)->Some_0,
                padding_xxl: opt_u32_entry(m, "padding_xxl"@)->Some_0,
                font_sm: opt_u32_entry(m, "font_sm"@)->Some_0,
                font_md: opt_u32_entry(m, "font_md"@)->Some_0,
                font_lg: opt_u32_entry(m, "font_lg"@)->Some_0,
                font_xl: opt_u32_entry(m, "font_xl"@)->Some_0,
                font_xxl: opt_u32_entry(m, "font_xxl"@)->Some_0,
            },
        )
    } else {
        None
    }
}

/// Reads the optional size entries out of a document table.
fn parse_optsizes(t: &toml::Table) -> (r: Option<OptSizes>)
    ensures
        r is Some <==> optsizes_model(table_model(*t)) is Some,
        r is Some ==> Some(r->Some_0@) == optsizes_model(table_model(*t)),
{
    proof {
        reveal(optsizes_model);
    }
    let padding_xs = match opt_u32_field(t, "padding_xs") {
        Some(x) => x,
        None => return None,
    };
    let padding_sm = match opt_u32_field(t, "padding_sm") {
        Some(x) => x,
        None => return None,
    };
    let padding_md = match opt_u32_field(t, "padding_md") {
        Some(x) => x,
        None => return None,
    };
    let padding_lg = match opt_u32_field(t, "padding_lg") {
        Some(x) => x,
        None => return None,
    };
    let padding_xl = match opt_u32_field(t, "padding_xl") {
        Some(x) => x,
        None => return None,
    };
    let padding_xxl = match opt_u32_field(t, "padding_xxl") {
        Some(x) => x,
        None => return None,
    };
    let font_sm = match opt_u32_field(t, "font_sm") {
        Some(x) => x,
        None => return None,
    };
    let font_md = match opt_u32_field(t, "font_md") {
        Some(x) => x,
        None => return None,
    };
    let font_lg = match opt_u32_field(t, "font_lg") {
        Some(x) => x,
        None => return None,
    };
    let font_xl = match opt_u32_field(t, "font_xl") {
        Some(x) => x,
        None => return None,
    };
    let font_xxl = match opt_u32_field(t, "font_xxl") {
        Some(x) => x,
        None => return None,
    };
    Some(
        OptSizes {
            padding_xs,
            padding_sm,
            padding_md,
            padding_lg,
            padding_xl,
            padding_xxl,
            font_sm,
            font_md,
            font_lg,
            font_xl,
            font_xxl,
        },
    )
}

/// The partial theme a document table holds, where every entry that is
/// present has the right shape; one entry of the wrong shape spoils the
/// whole document.
pub open spec fn optional_model(m: Map<Seq<char>, TomlNode>) -> Option<OptOxiV> {
    if optcorecolors_model(m) is Some && optstatuscolors_model(m) is Some && optlayout_model(m)
        is Some && optsizes_model(m) is Some {
        Some(
            OptOxiV {
                core: optcorecolors_model(m)->Some_0,
                status: optstatuscolors_model(m)->Some_0,
                layout: optlayout_model(m)->Some_0,
                sizes: optsizes_model(m)->Some_0,
            },
        )
    } else {
        None
    }
}

/// Reads a partial theme out of a document table, where every entry that
/// is present has the right shape.
pub fn parse_optional_oxitheme(t: &toml::Table) -> (r: Option<OptionalOxiTheme>)
    ensures
        r is Some <==> optional_model(table_model(*t)) is Some,
        r is Some ==> Some(r->Some_0@) == optional_model(table_model(*t)),
{
    let core = match parse_optcorecolors(t) {
        Some(x) => x,
        None => return None,
    };
    let status = match parse_optstatuscolors(t) {
        Some(x) => x,
        None => return None,
    };
    let layout = match parse_optlayout(t) {
        Some(x) => x,
        None => return None,
    };
    let sizes = match parse_optsizes(t) {
        Some(x) => x,
        None => return None,
    };
    Some(OptionalOxiTheme { core, status, layout, sizes })
}

/// What a theme source computes to: an absent or unparseable document, or
/// one with a spoiled entry, computes the built-in default theme; any
/// other document overlays the values it names on the default before the
/// theme is computed.
pub open spec fn resolve_oxitheme_spec(doc: Option<Seq<char>>) -> ComputedOxiTheme {
    match doc {
        Option::None => computed_spec(default_oxitheme_spec()),
        Option::Some(s) => match doc_model(s) {
            Option::None => computed_spec(default_oxitheme_spec()),
            Option::Some(m) => match optional_model(m) {
                Option::None => computed_spec(default_oxitheme_spec()),
                Option::Some(o) => computed_spec(build_spec(o, default_oxitheme_spec())),
            },
        },
    }
}

/// Resolves and computes the configurable theme: values the document names
/// replace defaults, and any failure falls back to the default theme
/// whole.
pub fn resolve_oxitheme(doc: Option<&str>) -> (r: ComputedOxiTheme)
    ensures
        doc is None ==> r == resolve_oxitheme_spec(None),
        doc is Some ==> r == resolve_oxitheme_spec(Some(doc->Some_0@)),
{
    let defaults = default_theme();
    let theme_string = match doc {
        Some(s) => s,
        None => return ComputedOxiTheme::from(defaults),
    };
    let table = match parse_document(theme_string) {
        Some(t) => t,
        None => return ComputedOxiTheme::from(defaults),
    };
    let partial = match parse_optional_oxitheme(&table) {
        Some(p) => p,
        None => return ComputedOxiTheme::from(defaults),
    };
    ComputedOxiTheme::from(partial.build(defaults))
}

/// The minimal palette a computed theme derives: its base as background,
/// its text, its primary colour, and the good and bad colours as success
/// and danger.
pub open spec fn derived_palette_spec(t: ComputedOxiTheme) -> Palette {
    Palette {
        background: t.base,
        text: t.text,
        primary: t.primary,
        success: t.good,
        danger: t.bad,
    }
}

/// Derives the minimal palette of a computed theme.
pub fn derived_palette(theme: &ComputedOxiTheme) -> (p: Palette)
    ensures
        p == derived_palette_spec(*theme),
{
    Palette {
        background: theme.base,
        text: theme.text,
        primary: theme.primary,
        success: theme.good,
        danger: theme.bad,
    }
}

} // verus!
