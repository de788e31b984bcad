//! RGBA colours with 8-bit channels, and the tint/shade arithmetic used to
//! derive hover, pressed, weak and strong palette variants.
//!
//! Channels live on a 0..=255 scale; tint and shade amounts are expressed on
//! the same scale. Lightening adds the amount to each colour channel and
//! darkening subtracts it, in both cases clamping to the channel range. The
//! alpha channel is never touched.

use vstd::prelude::*;

verus! {

/// A colour with red, green, blue and alpha channels on a 0..=255 scale.
#[derive(Clone, Copy, Debug, Default, PartialEq, Eq, Structural)]
pub struct Rgba {
    pub r: u8,
    pub g: u8,
    pub b: u8,
    pub a: u8,
}

/// One channel lightened by `amount`, clamped to 255.
pub open spec fn lighten_channel(c: u8, amount: u8) -> u8 {
    if c as int + amount as int > 255 {
        255u8
    } else {
        (c + amount) as u8
    }
}

/// One channel darkened by `amount`, clamped to 0.
pub open spec fn darken_channel(c: u8, amount: u8) -> u8 {
    if (c as int) < amount as int {
        0u8
    } else {
        (c - amount) as u8
    }
}

/// The colour `color` lightened by `amount` on every colour channel.
pub open spec fn lighten_spec(color: Rgba, amount: u8) -> Rgba {
    Rgba {
        r: lighten_channel(color.r, amount),
        g: lighten_channel(color.g, amount),
        b: lighten_channel(color.b, amount),
        a: color.a,
    }
}

/// The colour `color` darkened by `amount` on every colour channel.
pub open spec fn darken_spec(color: Rgba, amount: u8) -> Rgba {
    Rgba {
        r: darken_channel(color.r, amount),
        g: darken_channel(color.g, amount),
        b: darken_channel(color.b, amount),
        a: color.a,
    }
}

/// Lightens every colour channel by `amount`, saturating at the top of the
/// channel range; alpha is kept.
pub fn lighten_color(color: &Rgba, amount: u8) -> (result: Rgba)
    ensures
        result == lighten_spec(*color, amount),
{
    Rgba {
        r: if amount > 255 - color.r { 255 } else { color.r + amount },
        g: if amount > 255 - color.g { 255 } else { color.g + amount },
        b: if amount > 255 - color.b { 255 } else { color.b + amount },
        a: color.a,
    }
}

/// Darkens every colour channel by `amount`, saturating at the bottom of the
/// channel range; alpha is kept.
pub fn darken_color(color: &Rgba, amount: u8) -> (result: Rgba)
    ensures
        result == darken_spec(*color, amount),
{
    Rgba {
        r: if amount > color.r { 0 } else { color.r - amount },
        g: if amount > color.g { 0 } else { color.g - amount },
        b: if amount > color.b { 0 } else { color.b - amount },
        a: color.a,
    }
}

/// Whether `c` is an ASCII hexadecimal digit.
pub open spec fn is_hex_digit(c: char) -> bool {
    (48 <= c as int && c as int <= 57)  // '0' ..= '9'
     || (97 <= c as int && c as int <= 102)  // 'a' ..= 'f'
     || (65 <= c as int && c as int <= 70)  // 'A' ..= 'F'

}

/// The value of the hexadecimal digit `c`, and 0 for any other character.
pub open spec fn hex_digit_val(c: char) -> int {
    if 48 <= c as int && c as int <= 57 {
        c as int - 48
    } else if 97 <= c as int && c as int <= 102 {
        c as int - 97 + 10
    } else if 65 <= c as int && c as int <= 70 {
        c as int - 65 + 10
    } else {
        0
    }
}

/// Whether every character of `s` is a hexadecimal digit.
pub open spec fn all_hex(s: Seq<char>) -> bool {
    forall|i: int| 0 <= i < s.len() ==> is_hex_digit(s[i])
}

/// The number that the digit string `s` denotes in base 16.
pub open spec fn hex_val(s: Seq<char>) -> int
    decreases s.len(),
{
    if s.len() == 0 {
        0
    } else {
        16 * hex_val(s.drop_last()) + hex_digit_val(s.last())
    }
}

/// The digit run of a hexadecimal number text: a single leading plus sign is
/// allowed and skipped.
pub open spec fn hex_digits(s: Seq<char>) -> Seq<char> {
    if s.len() > 0 && s[0] == '+' {
        s.skip(1)
    } else {
        s
    }
}

/// What parsing `s` as a base-16 unsigned 32-bit number yields, with 0 for
/// any text that does not parse: the digit run must be non-empty, all
/// hexadecimal, and denote a value that fits.
pub open spec fn parsed_hex(s: Seq<char>) -> u32 {
    let d = hex_digits(s);
    if d.len() > 0 && all_hex(d) && hex_val(d) <= u32::MAX {
        hex_val(d) as u32
    } else {
        0u32
    }
}

/// A base-16 digit string denotes a non-negative number.
proof fn lemma_hex_val_nonneg(s: Seq<char>)
    ensures
        hex_val(s) >= 0,
    decreases s.len(),
{
    if s.len() > 0 {
        lemma_hex_val_nonneg(s.drop_last());
    }
}

/// Extending a base-16 digit string never shrinks the number it denotes.
proof fn lemma_hex_val_prefix_le(s: Seq<char>, i: int, j: int)
    requires
        0 <= i <= j <= s.len(),
    ensures
        hex_val(s.subrange(0, i)) <= hex_val(s.subrange(0, j)),
    decreases j - i,
{
    if i < j {
        lemma_hex_val_prefix_le(s, i, j - 1);
        assert(s.subrange(0, j).drop_last() =~= s.subrange(0, j - 1));
        lemma_hex_val_nonneg(s.subrange(0, j - 1));
    }
}

/// The value of the hexadecimal digit `c`, or nothing for any other
/// character.
fn hex_digit_value(c: char) -> (r: Option<u8>)
    ensures
        r is Some <==> is_hex_digit(c),
        r is Some ==> r->Some_0 as int == hex_digit_val(c),
{
    let u = c as u32;
    if 48 <= u && u <= 57 {
        Some((u - 48) as u8)
    } else if 97 <= u && u <= 102 {
        Some((u - 97 + 10) as u8)
    } else if 65 <= u && u <= 70 {
        Some((u - 65 + 10) as u8)
    } else {
        None
    }
}

/// Parses `s` as a base-16 unsigned 32-bit number, yielding 0 for any text
/// that does not parse; a single leading plus sign is accepted.
pub fn parse_hex_u32(s: &str) -> (v: u32)
    ensures
        v == parsed_hex(s@),
{
    let n = s.unicode_len();
    let mut start: usize = 0;
    if n > 0 && s.get_char(0) == '+' {
        start = 1;
    }
    let ghost d = hex_digits(s@);
    proof {
        assert(d =~= s@.subrange(start as int, n as int));
    }
    if start == n {
        return 0;
    }
    let mut k: usize = 0;
    let mut acc: u64 = 0;
    while k < n - start
        invariant
            0 <= k <= n - start,
            start <= n == s@.len(),
            d == hex_digits(s@),
            d =~= s@.subrange(start as int, n as int),
            all_hex(d.subrange(0, k as int)),
            acc == hex_val(d.subrange(0, k as int)),
            acc <= u32::MAX,
        decreases n - start - k,
    {
        let c = s.get_char(start + k);
        proof {
            assert(s@[start + k as int] == d[k as int]);
        }
        let digit = match hex_digit_value(c) {
            Some(digit) => digit,
            None => {
                // A non-digit makes the whole text unparseable.
                assert(!all_hex(d));
                return 0;
            },
        };
        let next: u64 = acc * 16 + digit as u64;
        proof {
            assert(d.subrange(0, k + 1).drop_last() =~= d.subrange(0, k as int));
            assert(d.subrange(0, k + 1).last() == d[k as int]);
        }
        if next > u32::MAX as u64 {
            // The number overflows 32 bits, so parsing it fails.
            proof {
                if all_hex(d) {
                    lemma_hex_val_prefix_le(d, k + 1, d.len() as int);
                    assert(d.subrange(0, d.len() as int) =~= d);
                }
            }
            return 0;
        }
        acc = next;
        k = k + 1;
    }
    proof {
        assert(d.subrange(0, d.len() as int) =~= d);
    }
    acc as u32
}

/// The fully opaque colour that the low 24 bits of `v` encode as red, green
/// and blue bytes.
pub open spec fn color_of_u32(v: u32) -> Rgba {
    Rgba {
        r: ((v >> 16) & 0xff) as u8,
        g: ((v >> 8) & 0xff) as u8,
        b: (v & 0xff) as u8,
        a: 255u8,
    }
}

/// Reads the low 24 bits of `v` as red, green and blue bytes of a fully
/// opaque colour.
pub fn color_u32(v: u32) -> (c: Rgba)
    ensures
        c == color_of_u32(v),
{
    assert((v >> 16) & 0xff < 256 && (v >> 8) & 0xff < 256 && v & 0xff < 256) by (bit_vector);
    Rgba {
        r: ((v >> 16) & 0xff) as u8,
        g: ((v >> 8) & 0xff) as u8,
        b: (v & 0xff) as u8,
        a: 255,
    }
}

/// The colour a hexadecimal text denotes: black for any text that does not
/// parse.
pub open spec fn color_of_hex(s: Seq<char>) -> Rgba {
    color_of_u32(parsed_hex(s))
}

/// Reads a colour from a hexadecimal text such as one of six digits giving
/// red, green and blue bytes; any text that does not parse yields opaque
/// black.
pub fn mk_color(color: &str) -> (c: Rgba)
    ensures
        c == color_of_hex(color@),
{
    let v = parse_hex_u32(color);
    assert((v >> 16) & 0xff < 256 && (v >> 8) & 0xff < 256 && v & 0xff < 256) by (bit_vector);
    Rgba {
        r: ((v >> 16) & 0xff) as u8,
        g: ((v >> 8) & 0xff) as u8,
        b: (v & 0xff) as u8,
        a: 255,
    }
}

/// Reads a colour from a hexadecimal text and darkens it by `amount`.
pub fn mk_dark_color(color: &str, amount: u8) -> (c: Rgba)
    ensures
        c == darken_spec(color_of_hex(color@), amount),
{
    darken_color(&mk_color(color), amount)
}

/// Reads a colour from a hexadecimal text and lightens it by `amount`.
pub fn mk_light_color(color: &str, amount: u8) -> (c: Rgba)
    ensures
        c == lighten_spec(color_of_hex(color@), amount),
{
    lighten_color(&mk_color(color), amount)
}

/// Darkening and then lightening by the same amount restores the colour, as
/// long as no channel was clamped: every colour channel must have room for
/// the subtraction. Channels at or above the amount never clamp, so the
/// round trip is exact there; a channel below the amount saturates at 0 and
/// the lightened result overshoots the original.
pub proof fn lemma_lighten_darken_round_trip(color: Rgba, amount: u8)
    requires
        color.r >= amount,
        color.g >= amount,
        color.b >= amount,
    ensures
        lighten_spec(darken_spec(color, amount), amount) == color,
{
}

/// Lightening saturates: a channel already at the top of the range stays
/// there, whatever the amount.
pub proof fn lemma_lighten_clamp_boundary(color: Rgba, amount: u8)
    requires
        color.r == 255,
    ensures
        lighten_spec(color, amount).r == 255,
{
}

} // verus!
