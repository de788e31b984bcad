use oxiced::color::{darken_color, lighten_color, mk_color, mk_dark_color, mk_light_color, Rgba};

fn rgb(r: u8, g: u8, b: u8) -> Rgba {
    Rgba { r, g, b, a: 255 }
}

#[test]
fn hex_parsing_reads_rgb_bytes() {
    assert_eq!(mk_color("ff0000"), rgb(255, 0, 0));
    assert_eq!(mk_color("00ff00"), rgb(0, 255, 0));
    assert_eq!(mk_color("1a1b26"), rgb(0x1a, 0x1b, 0x26));
    assert_eq!(mk_color("1A2B3C"), rgb(0x1a, 0x2b, 0x3c));
}

#[test]
fn hex_parsing_accepts_a_leading_plus() {
    assert_eq!(mk_color("+ff"), rgb(0, 0, 255));
}

#[test]
fn hex_parsing_ignores_bits_above_24() {
    assert_eq!(mk_color("12345678"), rgb(0x34, 0x56, 0x78));
}

#[test]
fn hex_parsing_accepts_leading_zeros() {
    assert_eq!(mk_color("00000001"), rgb(0, 0, 1));
    assert_eq!(mk_color("0000000001"), rgb(0, 0, 1));
}

#[test]
fn unparseable_hex_yields_black() {
    assert_eq!(mk_color(""), rgb(0, 0, 0));
    assert_eq!(mk_color("zz"), rgb(0, 0, 0));
    assert_eq!(mk_color("12 34"), rgb(0, 0, 0));
    assert_eq!(mk_color("+"), rgb(0, 0, 0));
    assert_eq!(mk_color("-1"), rgb(0, 0, 0));
    // Nine digits denote a value beyond 32 bits.
    assert_eq!(mk_color("fffffffff"), rgb(0, 0, 0));
}

#[test]
fn lighten_adds_and_clamps() {
    let c = Rgba { r: 255, g: 10, b: 246, a: 7 };
    let lighter = lighten_color(&c, 26);
    // A channel at the top of the range stays there, whatever the amount.
    assert_eq!(lighter.r, 255);
    assert_eq!(lighter.g, 36);
    assert_eq!(lighter.b, 255);
    assert_eq!(lighter.a, 7);
}

#[test]
fn darken_subtracts_and_clamps() {
    let c = Rgba { r: 5, g: 100, b: 0, a: 255 };
    let darker = darken_color(&c, 10);
    assert_eq!(darker, Rgba { r: 0, g: 90, b: 0, a: 255 });
}

#[test]
fn lighten_undoes_darken_away_from_the_clamp() {
    let c = rgb(100, 150, 200);
    assert_eq!(lighten_color(&darken_color(&c, 40), 40), c);
    // At the clamp the round trip overshoots: the channel below the amount
    // saturates at zero and comes back as the amount itself.
    let low = rgb(5, 100, 100);
    assert_eq!(lighten_color(&darken_color(&low, 40), 40), rgb(40, 100, 100));
}

#[test]
fn mk_light_and_mk_dark_combine_parse_and_shift() {
    assert_eq!(mk_light_color("0a0a0a", 10), rgb(20, 20, 20));
    assert_eq!(mk_dark_color("0a0a0a", 10), rgb(0, 0, 0));
}
