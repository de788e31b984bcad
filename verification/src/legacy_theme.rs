//! The older expansion of the 16-slot scheme.
//!
//! The schemas themselves are those of the theme module; what differs here
//! is the slot-to-role table. The slots are first spread over thirty named
//! hexadecimal strings, one per colour of the extended palette, and the
//! success and danger variants are then shaded or tinted by a configurable
//! amount rather than a fixed one.

use vstd::prelude::*;

use crate::color::{color_of_hex, darken_spec, lighten_spec, mk_color, mk_dark_color, mk_light_color};
use crate::document::doc_model;
use crate::palette::{Category, Extended, Pair};
use crate::theme::{
    base16_model, default_theme_model, extended_model, extended_of_extended, palette_of_simple,
    parse_extended_palette, parse_simple_palette, resolve_spec, simple_model,
    Base16V, ResolvedTheme, ThemeModel, TomlBase16, TomlTheme,
};

verus! {

/// The thirty hexadecimal colour strings of an extended palette, one per
/// colour, before they are read into colours.
pub struct ExtendedHex {
    pub background_weak_color: String,
    pub background_base_color: String,
    pub background_strong_color: String,
    pub background_weak_text: String,
    pub background_base_text: String,
    pub background_strong_text: String,
    pub primary_weak_color: String,
    pub primary_base_color: String,
    pub primary_strong_color: String,
    pub primary_weak_text: String,
    pub primary_base_text: String,
    pub primary_strong_text: String,
    pub secondary_weak_color: String,
    pub secondary_base_color: String,
    pub secondary_strong_color: String,
    pub secondary_weak_text: String,
    pub secondary_base_text: String,
    pub secondary_strong_text: String,
    pub success_weak_color: String,
    pub success_base_color: String,
    pub success_strong_color: String,
    pub success_weak_text: String,
    pub success_base_text: String,
    pub success_strong_text: String,
    pub danger_weak_color: String,
    pub danger_base_color: String,
    pub danger_strong_color: String,
    pub danger_weak_text: String,
    pub danger_base_text: String,
    pub danger_strong_text: String,
}

/// The mathematical value of the thirty slot strings.
pub struct ExtendedHexV {
    pub background_weak_color: Seq<char>,
    pub background_base_color: Seq<char>,
    pub background_strong_color: Seq<char>,
    pub background_weak_text: Seq<char>,
    pub background_base_text: Seq<char>,
    pub background_strong_text: Seq<char>,
    pub primary_weak_color: Seq<char>,
    pub primary_base_color: Seq<char>,
    pub primary_strong_color: Seq<char>,
    pub primary_weak_text: Seq<char>,
    pub primary_base_text: Seq<char>,
    pub primary_strong_text: Seq<char>,
    pub secondary_weak_color: Seq<char>,
    pub secondary_base_color: Seq<char>,
    pub secondary_strong_color: Seq<char>,
    pub secondary_weak_text: Seq<char>,
    pub secondary_base_text: Seq<char>,
    pub secondary_strong_text: Seq<char>,
    pub success_weak_color: Seq<char>,
    pub success_base_color: Seq<char>,
    pub success_strong_color: Seq<char>,
    pub success_weak_text: Seq<char>,
    pub success_base_text: Seq<char>,
    pub success_strong_text: Seq<char>,
    pub danger_weak_color: Seq<char>,
    pub danger_base_color: Seq<char>,
    pub danger_strong_color: Seq<char>,
    pub danger_weak_text: Seq<char>,
    pub danger_base_text: Seq<char>,
    pub danger_strong_text: Seq<char>,
}

impl View for ExtendedHex {
    type V = ExtendedHexV;

    open spec fn view(&self) -> ExtendedHexV {
        ExtendedHexV {
            background_weak_color: self.background_weak_color@,
            background_base_color: self.background_base_color@,
            background_strong_color: self.background_strong_color@,
            background_weak_text: self.background_weak_text@,
            background_base_text: self.background_base_text@,
            background_strong_text: self.background_strong_text@,
            primary_weak_color: self.primary_weak_color@,
            primary_base_color: self.primary_base_color@,
            primary_strong_color: self.primary_strong_color@,
            primary_weak_text: self.primary_weak_text@,
            primary_base_text: self.primary_base_text@,
            primary_strong_text: self.primary_strong_text@,
            secondary_weak_color: self.secondary_weak_color@,
            secondary_base_color: self.secondary_base_color@,
            secondary_strong_color: self.secondary_strong_color@,
            secondary_weak_text: self.secondary_weak_text@,
            secondary_base_text: self.secondary_base_text@,
            secondary_strong_text: self.secondary_strong_text@,
            success_weak_color: self.success_weak_color@,
            success_base_color: self.success_base_color@,
            success_strong_color: self.success_strong_color@,
            success_weak_text: self.success_weak_text@,
            success_base_text: self.success_base_text@,
            success_strong_text: self.success_strong_text@,
            danger_weak_color: self.danger_weak_color@,
            danger_base_color: self.danger_base_color@,
            danger_strong_color: self.danger_strong_color@,
            danger_weak_text: self.danger_weak_text@,
            danger_base_text: self.danger_base_text@,
            danger_strong_text: self.danger_strong_text@,
        }
    }
}

/// The fixed slot-to-role table: how the sixteen scheme slots spread over
/// the thirty colour strings. The first slots serve as backgrounds, the
/// text slot serves every background and primary role, the warm slots fill
/// the success roles and the cool slots the danger roles.
pub open spec fn hex_slots(v: Base16V) -> ExtendedHexV {
    ExtendedHexV {
        background_weak_color: v.base00,
        background_base_color: v.base01,
        background_strong_color: v.base01,
        background_weak_text: v.base05,
        background_base_text: v.base05,
        background_strong_text: v.base05,
        primary_weak_color: v.base02,
        primary_base_color: v.base03,
        primary_strong_color: v.base04,
        primary_weak_text: v.base05,
        primary_base_text: v.base05,
        primary_strong_text: v.base05,
        secondary_weak_color: v.base02,
        secondary_base_color: v.base03,
        secondary_strong_color: v.base04,
        secondary_weak_text: v.base05,
        secondary_base_text: v.base05,
        secondary_strong_text: v.base05,
        success_weak_color: v.base06,
        success_base_color: v.base07,
        success_strong_color: v.base08,
        success_weak_text: v.base09,
        success_base_text: v.base0a,
        success_strong_text: v.base0b,
        danger_weak_color: v.base0c,
        danger_base_color: v.base0d,
        danger_strong_color: v.base0e,
        danger_weak_text: v.base0f,
        danger_base_text: v.base0f,
        danger_strong_text: v.base0f,
    }
}

impl ExtendedHex {
    /// Spreads the sixteen slots of a scheme over the thirty colour
    /// strings, by the fixed slot-to-role table.
    pub fn of_base16(value: &TomlBase16) -> (r: ExtendedHex)
        ensures
            r@ == hex_slots(value@),
    {
        ExtendedHex {
            background_weak_color: value.base00.clone(),
            background_base_color: value.base01.clone(),
            background_strong_color: value.base01.clone(),
            background_weak_text: value.base05.clone(),
            background_base_text: value.base05.clone(),
            background_strong_text: value.base05.clone(),
            primary_weak_color: value.base02.clone(),
            primary_base_color: value.base03.clone(),
            primary_strong_color: value.base04.clone(),
            primary_weak_text: value.base05.clone(),
            primary_base_text: value.base05.clone(),
            primary_strong_text: value.base05.clone(),
            secondary_weak_color: value.base02.clone(),
            secondary_base_color: value.base03.clone(),
            secondary_strong_color: value.base04.clone(),
            secondary_weak_text: value.base05.clone(),
            secondary_base_text: value.base05.clone(),
            secondary_strong_text: value.base05.clone(),
            success_weak_color: value.base06.clone(),
            success_base_color: value.base07.clone(),
            success_strong_color: value.base08.clone(),
            success_weak_text: value.base09.clone(),
            success_base_text: value.base0a.clone(),
            success_strong_text: value.base0b.clone(),
            danger_weak_color: value.base0c.clone(),
            danger_base_color: value.base0d.clone(),
            danger_strong_color: value.base0e.clone(),
            danger_weak_text: value.base0f.clone(),
            danger_base_text: value.base0f.clone(),
            danger_strong_text: value.base0f.clone(),
        }
    }
}

/// The extended palette the thirty slot strings expand to: each colour read
/// from its string, with the weak success and danger colours shaded and the
/// strong ones tinted by `tint_amount`.
pub open spec fn legacy_extended_of_hex(h: ExtendedHexV, tint_amount: u8) -> Extended {
    Extended {
        background: Category {
            base: Pair {
                color: color_of_hex(h.background_base_color),
                text: color_of_hex(h.background_base_text),
            },
            weak: Pair {
                color: color_of_hex(h.background_weak_color),
                text: color_of_hex(h.background_weak_text),
            },
            strong: Pair {
                color: color_of_hex(h.background_strong_color),
                text: color_of_hex(h.background_strong_text),
            },
        },
        primary: Category {
            base: Pair {
                color: color_of_hex(h.primary_base_color),
                text: color_of_hex(h.primary_base_text),
            },
            weak: Pair {
                color: color_of_hex(h.primary_weak_color),
                text: color_of_hex(h.primary_weak_text),
            },
            strong: Pair {
                color: color_of_hex(h.primary_strong_color),
                text: color_of_hex(h.primary_strong_text),
            },
        },
        secondary: Category {
            base: Pair {
                color: color_of_hex(h.secondary_base_color),
                text: color_of_hex(h.secondary_base_text),
            },
            weak: Pair {
                color: color_of_hex(h.secondary_weak_color),
                text: color_of_hex(h.secondary_weak_text),
            },
            strong: Pair {
                color: color_of_hex(h.secondary_strong_color),
                text: color_of_hex(h.secondary_strong_text),
            },
        },
        success: Category {
            base: Pair {
                color: color_of_hex(h.success_base_color),
                text: color_of_hex(h.success_base_text),
            },
            weak: Pair {
                color: darken_spec(color_of_hex(h.success_weak_color), tint_amount),
                text: color_of_hex(h.success_weak_text),
            },
            strong: Pair {
                color: lighten_spec(color_of_hex(h.success_strong_color), tint_amount),
                text: color_of_hex(h.success_strong_text),
            },
        },
        danger: Category {
            base: Pair {
                color: color_of_hex(h.danger_base_color),
                text: color_of_hex(h.danger_base_text),
            },
            weak: Pair {
                color: darken_spec(color_of_hex(h.danger_weak_color), tint_amount),
                text: color_of_hex(h.danger_weak_text),
            },
            strong: Pair {
                color: lighten_spec(color_of_hex(h.danger_strong_color), tint_amount),
                text: color_of_hex(h.danger_strong_text),
            },
        },
        is_dark: true,
    }
}

/// The older expansion of a 16-slot scheme: its slots spread over the
/// thirty colour strings, which are then read into colours.
pub open spec fn legacy_extended_of_base16(v: Base16V, tint_amount: u8) -> Extended {
    legacy_extended_of_hex(hex_slots(v), tint_amount)
}

/// Expands a 16-slot scheme by the older slot-to-role table, shading and
/// tinting the success and danger variants by `tint_amount`.
pub fn base16_to_extended(val: &TomlBase16, tint_amount: u8) -> (r: Extended)
    ensures
        r == legacy_extended_of_base16(val@, tint_amount),
{
    let hex = ExtendedHex::of_base16(val);
    Extended {
        background: Category {
            base: Pair {
                color: mk_color(hex.background_base_color.as_str()),
                text: mk_color(hex.background_base_text.as_str()),
            },
            weak: Pair {
                color: mk_color(hex.background_weak_color.as_str()),
                text: mk_color(hex.background_weak_text.as_str()),
            },
            strong: Pair {
                color: mk_color(hex.background_strong_color.as_str()),
                text: mk_color(hex.background_strong_text.as_str()),
            },
        },
        primary: Category {
            base: Pair {
                color: mk_color(hex.primary_base_color.as_str()),
                text: mk_color(hex.primary_base_text.as_str()),
            },
            weak: Pair {
                color: mk_color(hex.primary_weak_color.as_str()),
                text: mk_color(hex.primary_weak_text.as_str()),
            },
            strong: Pair {
                color: mk_color(hex.primary_strong_color.as_str()),
                text: mk_color(hex.primary_strong_text.as_str()),
            },
        },
        secondary: Category {
            base: Pair {
                color: mk_color(hex.secondary_base_color.as_str()),
                text: mk_color(hex.secondary_base_text.as_str()),
            },
            weak: Pair {
                color: mk_color(hex.secondary_weak_color.as_str()),
                text: mk_color(hex.secondary_weak_text.as_str()),
            },
            strong: Pair {
                color: mk_color(hex.secondary_strong_color.as_str()),
                text: mk_color(hex.secondary_strong_text.as_str()),
            },
        },
        success: Category {
            base: Pair {
                color: mk_color(hex.success_base_color.as_str()),
                text: mk_color(hex.success_base_text.as_str()),
            },
            weak: Pair {
                color: mk_dark_color(hex.success_weak_color.as_str(), tint_amount),
                text: mk_color(hex.success_weak_text.as_str()),
            },
            strong: Pair {
                color: mk_light_color(hex.success_strong_color.as_str(), tint_amount),
                text: mk_color(hex.success_strong_text.as_str()),
            },
        },
        danger: Category {
            base: Pair {
                color: mk_color(hex.danger_base_color.as_str()),
                text: mk_color(hex.danger_base_text.as_str()),
            },
            weak: Pair {
                color: mk_dark_color(hex.danger_weak_color.as_str(), tint_amount),
                text: mk_color(hex.danger_weak_text.as_str()),
            },
            strong: Pair {
                color: mk_light_color(hex.danger_strong_color.as_str(), tint_amount),
                text: mk_color(hex.danger_strong_text.as_str()),
            },
        },
        is_dark: true,
    }
}

/// What a theme source resolves to under the older 16-slot expansion: the
/// cascade and the other two schemas are unchanged, only a matching 16-slot
/// scheme expands by the older table with the given tint amount.
pub open spec fn resolve_legacy_spec(doc: Option<Seq<char>>, tint_amount: u8) -> ThemeModel {
    match doc {
        Option::None => default_theme_model(),
        Option::Some(s) => match doc_model(s) {
            Option::None => default_theme_model(),
            Option::Some(m) => {
                if base16_model(m) is Some {
                    let v = base16_model(m)->Some_0;
                    ThemeModel::Extended {
                        name: v.name,
                        extended: legacy_extended_of_base16(v, tint_amount),
                    }
                } else if simple_model(m) is Some {
                    let v = simple_model(m)->Some_0;
                    ThemeModel::Simple { name: v.name, palette: palette_of_simple(v) }
                } else if extended_model(m) is Some {
                    let v = extended_model(m)->Some_0;
                    ThemeModel::Extended { name: v.name, extended: extended_of_extended(v) }
                } else {
                    default_theme_model()
                }
            },
        },
    }
}

/// Tries the 16-slot scheme against a document text under the older
/// expansion: yields the expanded theme exactly where the text is
/// well-formed TOML of that shape.
pub fn parse_base16_palette_legacy(theme_string: &str, tint_amount: u8) -> (r: Option<
    ResolvedTheme,
>)
    ensures
        r is Some <==> (doc_model(theme_string@) is Some && base16_model(
            doc_model(theme_string@)->Some_0,
        ) is Some),
        r is Some ==> r->Some_0@ == (ThemeModel::Extended {
            name: base16_model(doc_model(theme_string@)->Some_0)->Some_0.name,
            extended: legacy_extended_of_base16(
                base16_model(doc_model(theme_string@)->Some_0)->Some_0,
                tint_amount,
            ),
        }),
{
    let table = match crate::document::parse_document(theme_string) {
        Some(t) => t,
        None => return None,
    };
    let parsed = match crate::theme::parse_base16_doc(&table) {
        Some(p) => p,
        None => return None,
    };
    let name = parsed.name();
    Some(ResolvedTheme::Extended { name, extended: base16_to_extended(&parsed, tint_amount) })
}

/// Resolves a theme source under the older 16-slot expansion, shading and
/// tinting derived success and danger variants by `tint_amount`.
pub fn resolve_legacy_theme(doc: Option<&str>, tint_amount: u8) -> (r: ResolvedTheme)
    ensures
        doc is None ==> r@ == resolve_legacy_spec(None, tint_amount),
        doc is Some ==> r@ == resolve_legacy_spec(Some(doc->Some_0@), tint_amount),
{
    let theme_string = match doc {
        Some(s) => s,
        None => return crate::theme::default_resolved(),
    };
    if let Some(theme) = parse_base16_palette_legacy(theme_string, tint_amount) {
        return theme;
    }
    if let Some(theme) = parse_simple_palette(theme_string) {
        return theme;
    }
    if let Some(theme) = parse_extended_palette(theme_string) {
        return theme;
    }
    crate::theme::default_resolved()
}

/// Both resolvers agree everywhere except on a matching 16-slot scheme:
/// absent, malformed, simple and extended sources resolve identically under
/// the current and the older expansion.
pub proof fn lemma_resolvers_agree_off_base16(doc: Option<Seq<char>>, tint_amount: u8)
    requires
        doc is Some ==> (doc_model(doc->Some_0) is Some ==> base16_model(
            doc_model(doc->Some_0)->Some_0,
        ) is None),
    ensures
        resolve_legacy_spec(doc, tint_amount) == resolve_spec(doc),
{
}

} // verus!