//! A tagged value of one of the library's data kinds.
//!
//! The host toolkit passes widget state around type-erased; the verified
//! library keeps the variant set closed instead and tags each value with
//! its kind, so a holder can test the kind and take the value back out
//! without any unchecked cast.

use vstd::prelude::*;

use crate::color::Rgba;
use crate::palette::Pair;
use crate::widgets::{ButtonVariant, SvgStyleVariant};

verus! {

/// The tag of a colour value.
pub const TAG_COLOR: u64 = 0;

/// The tag of a colour pair value.
pub const TAG_PAIR: u64 = 1;

/// The tag of a button variant value.
pub const TAG_BUTTON: u64 = 2;

/// The tag of an icon variant value.
pub const TAG_SVG: u64 = 3;

/// A value of one of the library's data kinds, tagged with its kind.
#[derive(Clone, Copy, Debug, PartialEq, Eq, Structural)]
pub enum OxiAny {
    Color(Rgba),
    ColorPair(Pair),
    Button(ButtonVariant),
    Svg(SvgStyleVariant),
}

impl OxiAny {
    /// The tag of the kind of value held.
    pub open spec fn tag_spec(&self) -> u64 {
        match self {
            OxiAny::Color(_) => TAG_COLOR,
            OxiAny::ColorPair(_) => TAG_PAIR,
            OxiAny::Button(_) => TAG_BUTTON,
            OxiAny::Svg(_) => TAG_SVG,
        }
    }

    /// Yields the tag of the kind of value held.
    pub fn type_tag(&self) -> (r: u64)
        ensures
            r == self.tag_spec(),
    {
        match self {
            OxiAny::Color(_) => TAG_COLOR,
            OxiAny::ColorPair(_) => TAG_PAIR,
            OxiAny::Button(_) => TAG_BUTTON,
            OxiAny::Svg(_) => TAG_SVG,
        }
    }

    /// Whether the held value is of the kind that `tag` names.
    pub fn is(&self, tag: u64) -> (r: bool)
        ensures
            r == (self.tag_spec() == tag),
    {
        self.type_tag() == tag
    }

    /// The held colour, where the value is one.
    pub fn downcast_color(&self) -> (r: Option<Rgba>)
        ensures
            r is Some <==> self is Color,
            r is Some ==> r->Some_0 == self->Color_0,
    {
        match self {
            OxiAny::Color(c) => Some(*c),
            _ => None,
        }
    }

    /// The held colour pair, where the value is one.
    pub fn downcast_pair(&self) -> (r: Option<Pair>)
        ensures
            r is Some <==> self is ColorPair,
            r is Some ==> r->Some_0 == self->ColorPair_0,
    {
        match self {
            OxiAny::ColorPair(p) => Some(*p),
            _ => None,
        }
    }

    /// The held button variant, where the value is one.
    pub fn downcast_button(&self) -> (r: Option<ButtonVariant>)
        ensures
            r is Some <==> self is Button,
            r is Some ==> r->Some_0 == self->Button_0,
    {
        match self {
            OxiAny::Button(b) => Some(*b),
            _ => None,
        }
    }

    /// The held icon variant, where the value is one.
    pub fn downcast_svg(&self) -> (r: Option<SvgStyleVariant>)
        ensures
            r is Some <==> self is Svg,
            r is Some ==> r->Some_0 == self->Svg_0,
    {
        match self {
            OxiAny::Svg(v) => Some(*v),
            _ => None,
        }
    }
}

} // verus!
