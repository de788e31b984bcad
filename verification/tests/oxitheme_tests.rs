use oxiced::color::Rgba;
use oxiced::oxitheme::{default_theme, derived_palette, resolve_oxitheme, ComputedOxiTheme};

fn rgb(r: u8, g: u8, b: u8) -> Rgba {
    Rgba { r, g, b, a: 255 }
}

fn defaults() -> ComputedOxiTheme {
    resolve_oxitheme(None)
}

#[test]
fn absent_document_computes_the_default_theme() {
    let theme = defaults();
    assert_eq!(theme.base, rgb(0x1e, 0x1e, 0x2e));
    assert_eq!(theme.mantle, rgb(0x18, 0x18, 0x25));
    assert_eq!(theme.text, rgb(0xcd, 0xd6, 0xf4));
    assert_eq!(theme.primary, rgb(0x89, 0xb4, 0xfa));
    assert_eq!(theme.good, rgb(0xa6, 0xe3, 0xa1));
    assert_eq!(theme.bad, rgb(0xf3, 0x8b, 0xa8));
    assert_eq!(theme.tint_amount, 10);
    assert_eq!(theme.shade_amount, 20);
    assert_eq!(theme.border_radius, 10);
    assert_eq!(theme.padding_md, 12);
    assert_eq!(theme.font_xxl, 32);
}

#[test]
fn hover_and_pressed_variants_are_derived() {
    let theme = defaults();
    // Background shades lighten on hover by the tint amount and on press by
    // the shade amount.
    assert_eq!(theme.mantle_hover, rgb(0x18 + 10, 0x18 + 10, 0x25 + 10));
    assert_eq!(theme.mantle_active, rgb(0x18 + 20, 0x18 + 20, 0x25 + 20));
    assert_eq!(theme.primary_bg_hover, rgb(0x31 + 10, 0x32 + 10, 0x44 + 10));
    // Accent colours darken instead.
    assert_eq!(theme.primary_hover, rgb(0x89 - 10, 0xb4 - 10, 0xfa - 10));
    assert_eq!(theme.primary_active, rgb(0x89 - 20, 0xb4 - 20, 0xfa - 20));
    // Status colours use the tint amount for both hover and press.
    assert_eq!(theme.good_hover, rgb(0xa6 - 10, 0xe3 - 10, 0xa1 - 10));
    assert_eq!(theme.good_active, theme.good_hover);
    assert_eq!(theme.bad_active, rgb(0xf3 - 10, 0x8b - 10, 0xa8 - 10));
}

#[test]
fn named_values_replace_defaults_one_by_one() {
    let theme = resolve_oxitheme(Some("base = \"000000\"\npadding_md = 20\n"));
    assert_eq!(theme.base, rgb(0, 0, 0));
    assert_eq!(theme.padding_md, 20);
    // Everything the document does not name keeps its default.
    assert_eq!(theme.mantle, rgb(0x18, 0x18, 0x25));
    assert_eq!(theme.font_md, 14);
}

#[test]
fn configured_tint_amount_drives_the_derivation() {
    let theme = resolve_oxitheme(Some("tint_amount = 30\nmantle = \"000000\"\n"));
    assert_eq!(theme.tint_amount, 30);
    assert_eq!(theme.mantle_hover, rgb(30, 30, 30));
    // The shade amount was not named and keeps driving the pressed shade.
    assert_eq!(theme.mantle_active, rgb(20, 20, 20));
}

#[test]
fn spoiled_entry_falls_back_to_the_default_theme_whole() {
    // A present entry of the wrong shape spoils the document: even its
    // well-shaped entries are dropped.
    let theme = resolve_oxitheme(Some("base = 5\nmantle = \"000000\"\n"));
    assert_eq!(theme, defaults());
    // An amount outside the channel scale spoils the document too.
    let theme = resolve_oxitheme(Some("tint_amount = 300\n"));
    assert_eq!(theme, defaults());
    // So does text that is not TOML at all.
    let theme = resolve_oxitheme(Some("base = \n"));
    assert_eq!(theme, defaults());
}

#[test]
fn derived_palette_picks_the_five_roles() {
    let theme = defaults();
    let palette = derived_palette(&theme);
    assert_eq!(palette.background, theme.base);
    assert_eq!(palette.text, theme.text);
    assert_eq!(palette.primary, theme.primary);
    assert_eq!(palette.success, theme.good);
    assert_eq!(palette.danger, theme.bad);
}

#[test]
fn default_theme_overlays_to_itself() {
    // Building the computed theme twice from the same defaults gives the
    // same value.
    let first = ComputedOxiTheme::from(default_theme());
    let second = ComputedOxiTheme::from(default_theme());
    assert_eq!(first, second);
    assert_eq!(first, defaults());
}
