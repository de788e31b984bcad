//! The theme schemas and the resolution cascade.
//!
//! A configuration document may take one of three shapes: a 16-slot base
//! colour scheme of hexadecimal strings, a simple five-colour palette of
//! integers, or an explicit extended palette of fifteen colour pairs. The
//! resolver tries the shapes in that fixed order against the same text; the
//! first shape that matches wins, and a missing or unusable document always
//! falls back to the built-in dark palette.

use vstd::prelude::*;

use crate::color::{
    color_of_hex, color_of_u32, darken_spec, lighten_spec, mk_color, mk_dark_color, mk_light_color,
};
use crate::document::{
    bool_entry, doc_model, get_bool_entry, get_int_entry, get_str_entry, get_table_entry,
    int_entry, parse_document, str_entry, table_entry, table_model, TomlNode,
};
use crate::palette::{
    tokyo_generate, tokyo_generate_spec, tokyo_night_dark, tokyo_night_dark_spec, Category,
    Extended, Pair, Palette,
};

verus! {

/// The fixed amount by which derived weak and strong variants are tinted or
/// shaded, on the 0..=255 channel scale.
pub const TINT_AMOUNT: u8 = 10;

/// A schema that carries the display name of the theme it describes.
pub trait TomlTheme {
    /// The display name, as a mathematical value.
    spec fn name_spec(&self) -> Seq<char>;

    /// The display name of the theme.
    fn name(&self) -> (r: String)
        ensures
            r@ == self.name_spec(),
    ;
}

/// The 16-slot base colour scheme: sixteen hexadecimal colour strings,
/// `base00` to `base0f`, and a display name.
pub struct TomlBase16 {
    pub name: String,
    pub base00: String,
    pub base01: String,
    pub base02: String,
    pub base03: String,
    pub base04: String,
    pub base05: String,
    pub base06: String,
    pub base07: String,
    pub base08: String,
    pub base09: String,
    pub base0a: String,
    pub base0b: String,
    pub base0c: String,
    pub base0d: String,
    pub base0e: String,
    pub base0f: String,
}

/// The mathematical value of a 16-slot scheme.
pub struct Base16V {
    pub name: Seq<char>,
    pub base00: Seq<char>,
    pub base01: Seq<char>,
    pub base02: Seq<char>,
    pub base03: Seq<char>,
    pub base04: Seq<char>,
    pub base05: Seq<char>,
    pub base06: Seq<char>,
    pub base07: Seq<char>,
    pub base08: Seq<char>,
    pub base09: Seq<char>,
    pub base0a: Seq<char>,
    pub base0b: Seq<char>,
    pub base0c: Seq<char>,
    pub base0d: Seq<char>,
    pub base0e: Seq<char>,
    pub base0f: Seq<char>,
}

impl View for TomlBase16 {
    type V = Base16V;

    open spec fn view(&self) -> Base16V {
        Base16V {
            name: self.name@,
            base00: self.base00@,
            base01: self.base01@,
            base02: self.base02@,
            base03: self.base03@,
            base04: self.base04@,
            base05: self.base05@,
            base06: self.base06@,
            base07: self.base07@,
            base08: self.base08@,
            base09: self.base09@,
            base0a: self.base0a@,
            base0b: self.base0b@,
            base0c: self.base0c@,
            base0d: self.base0d@,
            base0e: self.base0e@,
            base0f: self.base0f@,
        }
    }
}

impl TomlTheme for TomlBase16 {
    open spec fn name_spec(&self) -> Seq<char> {
        self.name@
    }

    fn name(&self) -> (r: String)
        ensures
            r@ == self.name_spec(),
    {
        self.name.clone()
    }
}

/// The simple palette schema: five colours as integers, and a display name.
pub struct TomlSimple {
    pub name: String,
    pub background: u32,
    pub text: u32,
    pub primary: u32,
    pub success: u32,
    pub danger: u32,
}

/// The mathematical value of a simple palette document.
pub struct SimpleV {
    pub name: Seq<char>,
    pub background: u32,
    pub text: u32,
    pub primary: u32,
    pub success: u32,
    pub danger: u32,
}

impl View for TomlSimple {
    type V = SimpleV;

    open spec fn view(&self) -> SimpleV {
        SimpleV {
            name: self.name@,
            background: self.background,
            text: self.text,
            primary: self.primary,
            success: self.success,
            danger: self.danger,
        }
    }
}

/// One colour pair of the extended schema, as integers.
#[derive(Clone, Copy, Debug, PartialEq, Eq, Structural)]
pub struct TomlPair {
    pub color: u32,
    pub text: u32,
}

/// One category of the extended schema: base, weak and strong pairs.
#[derive(Clone, Copy, Debug, PartialEq, Eq, Structural)]
pub struct TomlPalette {
    pub base: TomlPair,
    pub weak: TomlPair,
    pub strong: TomlPair,
}

/// The extended palette schema: five categories of three colour pairs, a
/// darkness flag and a display name.
pub struct TomlExtended {
    pub name: String,
    pub is_dark: bool,
    pub background: TomlPalette,
    pub primary: TomlPalette,
    pub secondary: TomlPalette,
    pub success: TomlPalette,
    pub danger: TomlPalette,
}

/// The mathematical value of an extended palette document.
pub struct ExtendedV {
    pub name: Seq<char>,
    pub is_dark: bool,
    pub background: TomlPalette,
    pub primary: TomlPalette,
    pub secondary: TomlPalette,
    pub success: TomlPalette,
    pub danger: TomlPalette,
}

impl View for TomlExtended {
    type V = ExtendedV;

    open spec fn view(&self) -> ExtendedV {
        ExtendedV {
            name: self.name@,
            is_dark: self.is_dark,
            background: self.background,
            primary: self.primary,
            secondary: self.secondary,
            success: self.success,
            danger: self.danger,
        }
    }
}

impl TomlTheme for TomlExtended {
    open spec fn name_spec(&self) -> Seq<char> {
        self.name@
    }

    fn name(&self) -> (r: String)
        ensures
            r@ == self.name_spec(),
    {
        self.name.clone()
    }
}

/// Whether a TOML integer fits a 32-bit colour value.
pub open spec fn in_u32(v: i64) -> bool {
    0 <= v <= u32::MAX
}

/// The 16-slot scheme a document table holds, where its seventeen entries
/// are all present as strings.
pub open spec fn base16_model(m: Map<Seq<char>, TomlNode>) -> Option<Base16V> {
    if str_entry(m, "name"@) is Some && str_entry(m, "base00"@) is Some && str_entry(m, "base01"@)
        is Some && str_entry(m, "base02"@) is Some && str_entry(m, "base03"@) is Some && str_entry(
        m,
        "base04"@,
    ) is Some && str_entry(m, "base05"@) is Some && str_entry(m, "base06"@) is Some && str_entry(
        m,
        "base07"@,
    ) is Some && str_entry(m, "base08"@) is Some && str_entry(m, "base09"@) is Some && str_entry(
        m,
        "base0a"@,
    ) is Some && str_entry(m, "base0b"@) is Some && str_entry(m, "base0c"@) is Some && str_entry(
        m,
        "base0d"@,
    ) is Some && str_entry(m, "base0e"@) is Some && str_entry(m, "base0f"@) is Some {
        Some(
            Base16V {
                name: str_entry(m, "name"@)->Some_0,
                base00: str_entry(m, "base00"@)->Some_0,
                base01: str_entry(m, "base01"@)->Some_0,
                base02: str_entry(m, "base02"@)->Some_0,
                base03: str_entry(m, "base03"@)->Some_0,
                base04: str_entry(m, "base04"@)->Some_0,
                base05: str_entry(m, "base05"@)->Some_0,
                base06: str_entry(m, "base06"@)->Some_0,
                base07: str_entry(m, "base07"@)->Some_0,
                base08: str_entry(m, "base08"@)->Some_0,
                base09: str_entry(m, "base09"@)->Some_0,
                base0a: str_entry(m, "base0a"@)->Some_0,
                base0b: str_entry(m, "base0b"@)->Some_0,
                base0c: str_entry(m, "base0c"@)->Some_0,
                base0d: str_entry(m, "base0d"@)->Some_0,
                base0e: str_entry(m, "base0e"@)->Some_0,
                base0f: str_entry(m, "base0f"@)->Some_0,
            },
        )
    } else {
        None
    }
}

/// The simple palette a document table holds, where the name is a string
/// and all five colours are integers fitting 32 bits.
pub open spec fn simple_model(m: Map<Seq<char>, TomlNode>) -> Option<SimpleV> {
    if str_entry(m, "name"@) is Some && int_entry(m, "background"@) is Some && in_u32(
        int_entry(m, "background"@)->Some_0,
    ) && int_entry(m, "text"@) is Some && in_u32(int_entry(m, "text"@)->Some_0) && int_entry(
        m,
        "primary"@,
    ) is Some && in_u32(int_entry(m, "primary"@)->Some_0) && int_entry(m, "success"@) is Some
        && in_u32(int_entry(m, "success"@)->Some_0) && int_entry(m, "danger"@) is Some && in_u32(
        int_entry(m, "danger"@)->Some_0,
    ) {
        Some(
            SimpleV {
                name: str_entry(m, "name"@)->Some_0,
                background: int_entry(m, "background"@)->Some_0 as u32,
                text: int_entry(m, "text"@)->Some_0 as u32,
                primary: int_entry(m, "primary"@)->Some_0 as u32,
                success: int_entry(m, "success"@)->Some_0 as u32,
                danger: int_entry(m, "danger"@)->Some_0 as u32,
            },
        )
    } else {
        None
    }
}

/// The colour pair a table holds, where `color` and `text` are integers
/// fitting 32 bits.
pub open spec fn pair_model(m: Map<Seq<char>, TomlNode>) -> Option<TomlPair> {
    if int_entry(m, "color"@) is Some && in_u32(int_entry(m, "color"@)->Some_0) && int_entry(
        m,
        "text"@,
    ) is Some && in_u32(int_entry(m, "text"@)->Some_0) {
        Some(
            TomlPair {
                color: int_entry(m, "color"@)->Some_0 as u32,
                text: int_entry(m, "text"@)->Some_0 as u32,
            },
        )
    } else {
        None
    }
}

/// The category a table holds, where `base`, `weak` and `strong` are tables
/// each holding a colour pair.
pub open spec fn tpalette_model(m: Map<Seq<char>, TomlNode>) -> Option<TomlPalette> {
    if table_entry(m, "base"@) is Some && pair_model(table_entry(m, "base"@)->Some_0) is Some
        && table_entry(m, "weak"@) is Some && pair_model(table_entry(m, "weak"@)->Some_0) is Some
        && table_entry(m, "strong"@) is Some && pair_model(table_entry(m, "strong"@)->Some_0)
        is Some {
        Some(
            TomlPalette {
                base: pair_model(table_entry(m, "base"@)->Some_0)->Some_0,
                weak: pair_model(table_entry(m, "weak"@)->Some_0)->Some_0,
                strong: pair_model(table_entry(m, "strong"@)->Some_0)->Some_0,
            },
        )
    } else {
        None
    }
}

/// The extended palette a document table holds, where the name is a string,
/// the darkness flag is a boolean and all five categories are tables each
/// holding three colour pairs.
pub open spec fn extended_model(m: Map<Seq<char>, TomlNode>) -> Option<ExtendedV> {
    if str_entry(m, "name"@) is Some && bool_entry(m, "is_dark"@) is Some && table_entry(
        m,
        "background"@,
    ) is Some && tpalette_model(table_entry(m, "background"@)->Some_0) is Some && table_entry(
        m,
        "primary"@,
    ) is Some && tpalette_model(table_entry(m, "primary"@)->Some_0) is Some && table_entry(
        m,
        "secondary"@,
    ) is Some && tpalette_model(table_entry(m, "secondary"@)->Some_0) is Some && table_entry(
        m,
        "success"@,
    ) is Some && tpalette_model(table_entry(m, "success"@)->Some_0) is Some && table_entry(
        m,
        "danger"@,
    ) is Some && tpalette_model(table_entry(m, "danger"@)->Some_0) is Some {
        Some(
            ExtendedV {
                name: str_entry(m, "name"@)->Some_0,
                is_dark: bool_entry(m, "is_dark"@)->Some_0,
                background: tpalette_model(table_entry(m, "background"@)->Some_0)->Some_0,
                primary: tpalette_model(table_entry(m, "primary"@)->Some_0)->Some_0,
                secondary: tpalette_model(table_entry(m, "secondary"@)->Some_0)->Some_0,
                success: tpalette_model(table_entry(m, "success"@)->Some_0)->Some_0,
                danger: tpalette_model(table_entry(m, "danger"@)->Some_0)->Some_0,
            },
        )
    } else {
        None
    }
}

/// Reads a 16-slot scheme out of a document table, where one is there.
pub fn parse_base16_doc(t: &toml::Table) -> (r: Option<TomlBase16>)
    ensures
        r is Some <==> base16_model(table_model(*t)) is Some,
        r is Some ==> Some(r->Some_0@) == base16_model(table_model(*t)),
{
    let name = match get_str_entry(t, "name") {
        Some(s) => s,
        None => return None,
    };
    let base00 = match get_str_entry(t, "base00") {
        Some(s) => s,
        None => return None,
    };
    let base01 = match get_str_entry(t, "base01") {
        Some(s) => s,
        None => return None,
    };
    let base02 = match get_str_entry(t, "base02") {
        Some(s) => s,
        None => return None,
    };
    let base03 = match get_str_entry(t, "base03") {
        Some(s) => s,
        None => return None,
    };
    let base04 = match get_str_entry(t, "base04") {
        Some(s) => s,
        None => return None,
    };
    let base05 = match get_str_entry(t, "base05") {
        Some(s) => s,
        None => return None,
    };
    let base06 = match get_str_entry(t, "base06") {
        Some(s) => s,
        None => return None,
    };
    let base07 = match get_str_entry(t, "base07") {
        Some(s) => s,
        None => return None,
    };
    let base08 = match get_str_entry(t, "base08") {
        Some(s) => s,
        None => return None,
    };
    let base09 = match get_str_entry(t, "base09") {
        Some(s) => s,
        None => return None,
    };
    let base0a = match get_str_entry(t, "base0a") {
        Some(s) => s,
        None => return None,
    };
    let base0b = match get_str_entry(t, "base0b") {
        Some(s) => s,
        None => return None,
    };
    let base0c = match get_str_entry(t, "base0c") {
        Some(s) => s,
        None => return None,
    };
    let base0d = match get_str_entry(t, "base0d") {
        Some(s) => s,
        None => return None,
    };
    let base0e = match get_str_entry(t, "base0e") {
        Some(s) => s,
        None => return None,
    };
    let base0f = match get_str_entry(t, "base0f") {
        Some(s) => s,
        None => return None,
    };
    Some(
        TomlBase16 {
            name,
            base00,
            base01,
            base02,
            base03,
            base04,
            base05,
            base06,
            base07,
            base08,
            base09,
            base0a,
            base0b,
            base0c,
            base0d,
            base0e,
            base0f,
        },
    )
}

/// Reads one 32-bit colour entry out of a table, where the entry is an
/// integer that fits.
fn get_color_entry(t: &toml::Table, key: &str) -> (r: Option<u32>)
    ensures
        r is Some <==> (int_entry(table_model(*t), key@) is Some && in_u32(
            int_entry(table_model(*t), key@)->Some_0,
        )),
        r is Some ==> r->Some_0 == int_entry(table_model(*t), key@)->Some_0 as u32,
{
    match get_int_entry(t, key) {
        Some(v) => {
            if 0 <= v && v <= u32::MAX as i64 {
                Some(v as u32)
            } else {
                None
            }
        },
        None => None,
    }
}

/// Reads a simple palette out of a document table, where one is there.
pub fn parse_simple_doc(t: &toml::Table) -> (r: Option<TomlSimple>)
    ensures
        r is Some <==> simple_model(table_model(*t)) is Some,
        r is Some ==> Some(r->Some_0@) == simple_model(table_model(*t)),
{
    let name = match get_str_entry(t, "name") {
        Some(s) => s,
        None => return None,
    };
    let background = match get_color_entry(t, "background") {
        Some(v) => v,
        None => return None,
    };
    let text = match get_color_entry(t, "text") {
        Some(v) => v,
        None => return None,
    };
    let primary = match get_color_entry(t, "primary") {
        Some(v) => v,
        None => return None,
    };
    let success = match get_color_entry(t, "success") {
        Some(v) => v,
        None => return None,
    };
    let danger = match get_color_entry(t, "danger") {
        Some(v) => v,
        None => return None,
    };
    Some(TomlSimple { name, background, text, primary, success, danger })
}

/// Reads a colour pair out of a table, where one is there.
fn parse_pair_doc(t: &toml::Table) -> (r: Option<TomlPair>)
    ensures
        r is Some <==> pair_model(table_model(*t)) is Some,
        r is Some ==> Some(r->Some_0) == pair_model(table_model(*t)),
{
    let color = match get_color_entry(t, "color") {
        Some(v) => v,
        None => return None,
    };
    let text = match get_color_entry(t, "text") {
        Some(v) => v,
        None => return None,
    };
    Some(TomlPair { color, text })
}

/// Reads a category of three colour pairs out of a table, where one is
/// there.
fn parse_tpalette_doc(t: &toml::Table) -> (r: Option<TomlPalette>)
    ensures
        r is Some <==> tpalette_model(table_model(*t)) is Some,
        r is Some ==> Some(r->Some_0) == tpalette_model(table_model(*t)),
{
    let base_table = match get_table_entry(t, "base") {
        Some(x) => x,
        None => return None,
    };
    let base = match parse_pair_doc(&base_table) {
        Some(p) => p,
        None => return None,
    };
    let weak_table = match get_table_entry(t, "weak") {
        Some(x) => x,
        None => return None,
    };
    let weak = match parse_pair_doc(&weak_table) {
        Some(p) => p,
        None => return None,
    };
    let strong_table = match get_table_entry(t, "strong") {
        Some(x) => x,
        None => return None,
    };
    let strong = match parse_pair_doc(&strong_table) {
        Some(p) => p,
        None => return None,
    };
    Some(TomlPalette { base, weak, strong })
}

/// Reads an extended palette out of a document table, where one is there.
pub fn parse_extended_doc(t: &toml::Table) -> (r: Option<TomlExtended>)
    ensures
        r is Some <==> extended_model(table_model(*t)) is Some,
        r is Some ==> Some(r->Some_0@) == extended_model(table_model(*t)),
{
    let name = match get_str_entry(t, "name") {
        Some(s) => s,
        None => return None,
    };
    let is_dark = match get_bool_entry(t, "is_dark") {
        Some(b) => b,
        None => return None,
    };
    let background_table = match get_table_entry(t, "background") {
        Some(x) => x,
        None => return None,
    };
    let background = match parse_tpalette_doc(&background_table) {
        Some(p) => p,
        None => return None,
    };
    let primary_table = match get_table_entry(t, "primary") {
        Some(x) => x,
        None => return None,
    };
    let primary = match parse_tpalette_doc(&primary_table) {
        Some(p) => p,
        None => return None,
    };
    let secondary_table = match get_table_entry(t, "secondary") {
        Some(x) => x,
        None => return None,
    };
    let secondary = match parse_tpalette_doc(&secondary_table) {
        Some(p) => p,
        None => return None,
    };
    let success_table = match get_table_entry(t, "success") {
        Some(x) => x,
        None => return None,
    };
    let success = match parse_tpalette_doc(&success_table) {
        Some(p) => p,
        None => return None,
    };
    let danger_table = match get_table_entry(t, "danger") {
        Some(x) => x,
        None => return None,
    };
    let danger = match parse_tpalette_doc(&danger_table) {
        Some(p) => p,
        None => return None,
    };
    Some(TomlExtended { name, is_dark, background, primary, secondary, success, danger })
}

/// The colour pair of a pair of 32-bit colour values.
pub open spec fn pair_colors(p: TomlPair) -> Pair {
    Pair { color: color_of_u32(p.color), text: color_of_u32(p.text) }
}

/// The category of a schema category of 32-bit colour values.
pub open spec fn category_colors(p: TomlPalette) -> Category {
    Category {
        base: pair_colors(p.base),
        weak: pair_colors(p.weak),
        strong: pair_colors(p.strong),
    }
}

/// The palette a simple schema document describes: each named colour read
/// from its 32-bit value.
pub open spec fn palette_of_simple(v: SimpleV) -> Palette {
    Palette {
        background: color_of_u32(v.background),
        text: color_of_u32(v.text),
        primary: color_of_u32(v.primary),
        success: color_of_u32(v.success),
        danger: color_of_u32(v.danger),
    }
}

/// The extended palette an extended schema document describes: each pair
/// read from its 32-bit values, the darkness flag kept.
pub open spec fn extended_of_extended(v: ExtendedV) -> Extended {
    Extended {
        background: category_colors(v.background),
        primary: category_colors(v.primary),
        secondary: category_colors(v.secondary),
        success: category_colors(v.success),
        danger: category_colors(v.danger),
        is_dark: v.is_dark,
    }
}

/// The extended palette a 16-slot scheme expands to, by the fixed
/// slot-to-role table: the first slots fill the background, primary and
/// secondary categories, the green slot `base0b` the success category and
/// the red slot `base08` the danger category, with weak and strong success
/// and danger variants derived by shading and tinting; the scheme is always
/// taken as dark.
pub open spec fn extended_of_base16(v: Base16V) -> Extended {
    Extended {
        background: Category {
            base: Pair { color: color_of_hex(v.base00), text: color_of_hex(v.base05) },
            weak: Pair { color: color_of_hex(v.base01), text: color_of_hex(v.base03) },
            strong: Pair { color: color_of_hex(v.base02), text: color_of_hex(v.base04) },
        },
        primary: Category {
            base: Pair {
                color: lighten_spec(color_of_hex(v.base00), TINT_AMOUNT),
                text: color_of_hex(v.base05),
            },
            weak: Pair { color: color_of_hex(v.base02), text: color_of_hex(v.base03) },
            strong: Pair { color: color_of_hex(v.base04), text: color_of_hex(v.base04) },
        },
        secondary: Category {
            base: Pair { color: color_of_hex(v.base03), text: color_of_hex(v.base05) },
            weak: Pair { color: color_of_hex(v.base02), text: color_of_hex(v.base06) },
            strong: Pair { color: color_of_hex(v.base04), text: color_of_hex(v.base04) },
        },
        success: Category {
            base: Pair { color: color_of_hex(v.base0b), text: color_of_hex(v.base01) },
            weak: Pair {
                color: darken_spec(color_of_hex(v.base0b), TINT_AMOUNT),
                text: color_of_hex(v.base01),
            },
            strong: Pair {
                color: lighten_spec(color_of_hex(v.base0b), TINT_AMOUNT),
                text: color_of_hex(v.base01),
            },
        },
        danger: Category {
            base: Pair { color: color_of_hex(v.base08), text: color_of_hex(v.base01) },
            weak: Pair {
                color: darken_spec(color_of_hex(v.base08), TINT_AMOUNT),
                text: color_of_hex(v.base01),
            },
            strong: Pair {
                color: lighten_spec(color_of_hex(v.base08), TINT_AMOUNT),
                text: color_of_hex(v.base01),
            },
        },
        is_dark: true,
    }
}

impl From<TomlSimple> for Palette {
    fn from(val: TomlSimple) -> (r: Palette) {
        Palette {
            background: crate::color::color_u32(val.background),
            text: crate::color::color_u32(val.text),
            primary: crate::color::color_u32(val.primary),
            success: crate::color::color_u32(val.success),
            danger: crate::color::color_u32(val.danger),
        }
    }
}

impl vstd::std_specs::convert::FromSpecImpl<TomlSimple> for Palette {
    open spec fn obeys_from_spec() -> bool {
        true
    }

    open spec fn from_spec(val: TomlSimple) -> Palette {
        palette_of_simple(val@)
    }
}

/// One resolved colour pair of a pair of 32-bit values.
fn pair_from(p: &TomlPair) -> (r: Pair)
    ensures
        r == pair_colors(*p),
{
    Pair { color: crate::color::color_u32(p.color), text: crate::color::color_u32(p.text) }
}

/// One resolved category of a schema category of 32-bit values.
fn category_from(p: &TomlPalette) -> (r: Category)
    ensures
        r == category_colors(*p),
{
    Category {
        base: pair_from(&p.base),
        weak: pair_from(&p.weak),
        strong: pair_from(&p.strong),
    }
}

impl From<TomlExtended> for Extended {
    fn from(val: TomlExtended) -> (r: Extended) {
        Extended {
            background: category_from(&val.background),
            primary: category_from(&val.primary),
            secondary: category_from(&val.secondary),
            success: category_from(&val.success),
            danger: category_from(&val.danger),
            is_dark: val.is_dark,
        }
    }
}

impl vstd::std_specs::convert::FromSpecImpl<TomlExtended> for Extended {
    open spec fn obeys_from_spec() -> bool {
        true
    }

    open spec fn from_spec(val: TomlExtended) -> Extended {
        extended_of_extended(val@)
    }
}

impl From<TomlBase16> for Extended {
    fn from(val: TomlBase16) -> (r: Extended) {
        Extended {
            background: Category {
                base: Pair { color: mk_color(val.base00.as_str()), text: mk_color(val.base05.as_str()) },
                weak: Pair { color: mk_color(val.base01.as_str()), text: mk_color(val.base03.as_str()) },
                strong: Pair { color: mk_color(val.base02.as_str()), text: mk_color(val.base04.as_str()) },
            },
            primary: Category {
                base: Pair {
                    color: mk_light_color(val.base00.as_str(), TINT_AMOUNT),
                    text: mk_color(val.base05.as_str()),
                },
                weak: Pair { color: mk_color(val.base02.as_str()), text: mk_color(val.base03.as_str()) },
                strong: Pair { color: mk_color(val.base04.as_str()), text: mk_color(val.base04.as_str()) },
            },
            secondary: Category {
                base: Pair { color: mk_color(val.base03.as_str()), text: mk_color(val.base05.as_str()) },
                weak: Pair { color: mk_color(val.base02.as_str()), text: mk_color(val.base06.as_str()) },
                strong: Pair { color: mk_color(val.base04.as_str()), text: mk_color(val.base04.as_str()) },
            },
            success: Category {
                base: Pair { color: mk_color(val.base0b.as_str()), text: mk_color(val.base01.as_str()) },
                weak: Pair {
                    color: mk_dark_color(val.base0b.as_str(), TINT_AMOUNT),
                    text: mk_color(val.base01.as_str()),
                },
                strong: Pair {
                    color: mk_light_color(val.base0b.as_str(), TINT_AMOUNT),
                    text: mk_color(val.base01.as_str()),
                },
            },
            danger: Category {
                base: Pair { color: mk_color(val.base08.as_str()), text: mk_color(val.base01.as_str()) },
                weak: Pair {
                    color: mk_dark_color(val.base08.as_str(), TINT_AMOUNT),
                    text: mk_color(val.base01.as_str()),
                },
                strong: Pair {
                    color: mk_light_color(val.base08.as_str(), TINT_AMOUNT),
                    text: mk_color(val.base01.as_str()),
                },
            },
            is_dark: true,
        }
    }
}

impl vstd::std_specs::convert::FromSpecImpl<TomlBase16> for Extended {
    open spec fn obeys_from_spec() -> bool {
        true
    }

    open spec fn from_spec(val: TomlBase16) -> Extended {
        extended_of_base16(val@)
    }
}

/// A resolved theme: either a simple palette whose extended palette is left
/// to the consumer, or an explicit extended palette.
#[derive(Clone, Debug, PartialEq)]
pub enum ResolvedTheme {
    Simple { name: String, palette: Palette },
    Extended { name: String, extended: Extended },
}

/// The mathematical value of a resolved theme.
pub enum ThemeModel {
    Simple { name: Seq<char>, palette: Palette },
    Extended { name: Seq<char>, extended: Extended },
}

impl View for ResolvedTheme {
    type V = ThemeModel;

    open spec fn view(&self) -> ThemeModel {
        match self {
            ResolvedTheme::Simple { name, palette } => ThemeModel::Simple {
                name: name@,
                palette: *palette,
            },
            ResolvedTheme::Extended { name, extended } => ThemeModel::Extended {
                name: name@,
                extended: *extended,
            },
        }
    }
}

/// The built-in fallback theme: the fixed dark palette under its own name,
/// expanded the way that palette expands itself.
pub open spec fn default_theme_model() -> ThemeModel {
    ThemeModel::Extended {
        name: "Tokyo Night Dark"@,
        extended: tokyo_generate_spec(tokyo_night_dark_spec()),
    }
}

/// The built-in fallback theme.
pub fn default_resolved() -> (r: ResolvedTheme)
    ensures
        r@ == default_theme_model(),
{
    let name: String = "Tokyo Night Dark".to_owned();
    ResolvedTheme::Extended { name, extended: tokyo_generate(tokyo_night_dark()) }
}

/// What a document table resolves to: the 16-slot scheme where it has one,
/// else the simple palette, else the extended palette, else the built-in
/// fallback. The order is fixed and significant: a document matching more
/// than one shape resolves by the first matching shape.
pub open spec fn resolve_doc_spec(m: Map<Seq<char>, TomlNode>) -> ThemeModel {
    if base16_model(m) is Some {
        let v = base16_model(m)->Some_0;
        ThemeModel::Extended { name: v.name, extended: extended_of_base16(v) }
    } else if simple_model(m) is Some {
        let v = simple_model(m)->Some_0;
        ThemeModel::Simple { name: v.name, palette: palette_of_simple(v) }
    } else if extended_model(m) is Some {
        let v = extended_model(m)->Some_0;
        ThemeModel::Extended { name: v.name, extended: extended_of_extended(v) }
    } else {
        default_theme_model()
    }
}

/// What a theme source resolves to: an absent or unparseable document, or
/// one matching no schema, falls back to the built-in dark theme; any other
/// document resolves by the first schema it matches.
pub open spec fn resolve_spec(doc: Option<Seq<char>>) -> ThemeModel {
    match doc {
        Option::None => default_theme_model(),
        Option::Some(s) => match doc_model(s) {
            Option::None => default_theme_model(),
            Option::Some(m) => resolve_doc_spec(m),
        },
    }
}

/// Tries the 16-slot scheme against a document text: yields the expanded
/// theme exactly where the text is well-formed TOML of that shape.
pub fn parse_base16_palette(theme_string: &str) -> (r: Option<ResolvedTheme>)
    ensures
        r is Some <==> (doc_model(theme_string@) is Some && base16_model(
            doc_model(theme_string@)->Some_0,
        ) is Some),
        r is Some ==> r->Some_0@ == (ThemeModel::Extended {
            name: base16_model(doc_model(theme_string@)->Some_0)->Some_0.name,
            extended: extended_of_base16(base16_model(doc_model(theme_string@)->Some_0)->Some_0),
        }),
{
    let table = match parse_document(theme_string) {
        Some(t) => t,
        None => return None,
    };
    let parsed = match parse_base16_doc(&table) {
        Some(p) => p,
        None => return None,
    };
    let name = parsed.name();
    Some(ResolvedTheme::Extended { name, extended: Extended::from(parsed) })
}

/// Tries the simple palette against a document text: yields the palette
/// exactly where the text is well-formed TOML of that shape.
pub fn parse_simple_palette(theme_string: &str) -> (r: Option<ResolvedTheme>)
    ensures
        r is Some <==> (doc_model(theme_string@) is Some && simple_model(
            doc_model(theme_string@)->Some_0,
        ) is Some),
        r is Some ==> r->Some_0@ == (ThemeModel::Simple {
            name: simple_model(doc_model(theme_string@)->Some_0)->Some_0.name,
            palette: palette_of_simple(simple_model(doc_model(theme_string@)->Some_0)->Some_0),
        }),
{
    let table = match parse_document(theme_string) {
        Some(t) => t,
        None => return None,
    };
    let parsed = match parse_simple_doc(&table) {
        Some(p) => p,
        None => return None,
    };
    let name = parsed.name.clone();
    Some(ResolvedTheme::Simple { name, palette: Palette::from(parsed) })
}

/// Tries the extended palette against a document text: yields the palette
/// exactly where the text is well-formed TOML of that shape.
pub fn parse_extended_palette(theme_string: &str) -> (r: Option<ResolvedTheme>)
    ensures
        r is Some <==> (doc_model(theme_string@) is Some && extended_model(
            doc_model(theme_string@)->Some_0,
        ) is Some),
        r is Some ==> r->Some_0@ == (ThemeModel::Extended {
            name: extended_model(doc_model(theme_string@)->Some_0)->Some_0.name,
            extended: extended_of_extended(
                extended_model(doc_model(theme_string@)->Some_0)->Some_0,
            ),
        }),
{
    let table = match parse_document(theme_string) {
        Some(t) => t,
        None => return None,
    };
    let parsed = match parse_extended_doc(&table) {
        Some(p) => p,
        None => return None,
    };
    let name = parsed.name();
    Some(ResolvedTheme::Extended { name, extended: Extended::from(parsed) })
}

/// Resolves a theme source: the document text where a configuration file
/// was found, nothing where none was. Schema shapes are tried in the fixed
/// order, and every failure falls through to the built-in dark theme.
pub fn resolve_theme(doc: Option<&str>) -> (r: ResolvedTheme)
    ensures
        doc is None ==> r@ == resolve_spec(None),
        doc is Some ==> r@ == resolve_spec(Some(doc->Some_0@)),
{
    let theme_string = match doc {
        Some(s) => s,
        None => return default_resolved(),
    };
    if let Some(theme) = parse_base16_palette(theme_string) {
        return theme;
    }
    if let Some(theme) = parse_simple_palette(theme_string) {
        return theme;
    }
    if let Some(theme) = parse_extended_palette(theme_string) {
        return theme;
    }
    default_resolved()
}

/// An absent configuration file always resolves to the built-in dark theme;
/// resolution is a function of the source alone, so repeated resolutions of
/// an absent file are identical.
pub proof fn lemma_absent_resolves_default()
    ensures
        resolve_spec(None) == default_theme_model(),
{
}

/// A document that is not well-formed TOML, or that matches none of the
/// three schema shapes, resolves to the built-in dark theme rather than an
/// error or a partial palette.
pub proof fn lemma_malformed_resolves_default(s: Seq<char>)
    requires
        doc_model(s) is Some ==> {
            let m = doc_model(s)->Some_0;
            base16_model(m) is None && simple_model(m) is None && extended_model(m) is None
        },
    ensures
        resolve_spec(Some(s)) == default_theme_model(),
{
}

/// The schema order is significant: a document that matches both the
/// 16-slot scheme and the simple palette resolves by the 16-slot scheme,
/// which is tried first.
pub proof fn lemma_schema_priority(s: Seq<char>)
    requires
        doc_model(s) is Some,
        base16_model(doc_model(s)->Some_0) is Some,
        simple_model(doc_model(s)->Some_0) is Some,
    ensures
        resolve_spec(Some(s)) == (ThemeModel::Extended {
            name: base16_model(doc_model(s)->Some_0)->Some_0.name,
            extended: extended_of_base16(base16_model(doc_model(s)->Some_0)->Some_0),
        }),
{
}

} // verus!
