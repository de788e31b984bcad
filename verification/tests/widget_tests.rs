use oxiced::any_send::{OxiAny, TAG_BUTTON, TAG_COLOR};
use oxiced::color::Rgba;
use oxiced::legacy_theme::{base16_to_extended, resolve_legacy_theme};
use oxiced::oxitheme::resolve_oxitheme;
use oxiced::theme::{ResolvedTheme, TomlBase16};
use oxiced::widgets::{button_colors, path, svg_color, ButtonVariant, SvgStyleVariant};

fn rgb(r: u8, g: u8, b: u8) -> Rgba {
    Rgba { r, g, b, a: 255 }
}

fn scheme() -> TomlBase16 {
    TomlBase16 {
        name: String::from("Scheme"),
        base00: String::from("000001"),
        base01: String::from("000102"),
        base02: String::from("000203"),
        base03: String::from("000304"),
        base04: String::from("000405"),
        base05: String::from("000506"),
        base06: String::from("200000"),
        base07: String::from("300000"),
        base08: String::from("400000"),
        base09: String::from("500000"),
        base0a: String::from("600000"),
        base0b: String::from("700000"),
        base0c: String::from("800000"),
        base0d: String::from("900000"),
        base0e: String::from("a00000"),
        base0f: String::from("b00000"),
    }
}

#[test]
fn legacy_expansion_uses_the_older_slot_table() {
    let extended = base16_to_extended(&scheme(), 10);
    // The older table takes the background base from base01, its weak
    // variant from base00, and every background text from base05.
    assert_eq!(extended.background.base.color, rgb(0, 1, 2));
    assert_eq!(extended.background.weak.color, rgb(0, 0, 1));
    assert_eq!(extended.background.strong.color, rgb(0, 1, 2));
    assert_eq!(extended.background.base.text, rgb(0, 5, 6));
    // Primary runs over base02, base03 and base04.
    assert_eq!(extended.primary.weak.color, rgb(0, 2, 3));
    assert_eq!(extended.primary.base.color, rgb(0, 3, 4));
    assert_eq!(extended.primary.strong.color, rgb(0, 4, 5));
    // Success takes the warm slots, with its weak colour shaded and its
    // strong colour tinted by the given amount.
    assert_eq!(extended.success.base.color, rgb(0x30, 0, 0));
    assert_eq!(extended.success.weak.color, rgb(0x20 - 10, 0, 0));
    assert_eq!(extended.success.strong.color, rgb(0x40 + 10, 10, 10));
    assert_eq!(extended.success.base.text, rgb(0x60, 0, 0));
    // Danger takes the cool slots with base0f as every text.
    assert_eq!(extended.danger.base.color, rgb(0x90, 0, 0));
    assert_eq!(extended.danger.weak.text, rgb(0xb0, 0, 0));
    assert!(extended.is_dark);
}

#[test]
fn legacy_resolver_keeps_the_cascade() {
    let doc = "name = \"Plain\"\nbackground = 16711680\ntext = 255\nprimary = 65280\nsuccess = 1\ndanger = 2\n";
    let theme = resolve_legacy_theme(Some(doc), 10);
    match theme {
        ResolvedTheme::Simple { name, palette } => {
            assert_eq!(name, "Plain");
            assert_eq!(palette.background, rgb(255, 0, 0));
        },
        other => panic!("expected a simple theme, got {:?}", other),
    }
    let absent = resolve_legacy_theme(None, 10);
    assert_eq!(absent, oxiced::theme::resolve_theme(None));
}

#[test]
fn button_colors_follow_the_variant_table() {
    let theme = resolve_oxitheme(None);
    let primary = button_colors(&theme, &ButtonVariant::Primary);
    assert_eq!(primary.background, theme.primary);
    assert_eq!(primary.text, theme.primary_contrast);
    assert_eq!(primary.pressed, theme.primary_active);
    assert_eq!(primary.hovered, theme.primary_hover);
    let success = button_colors(&theme, &ButtonVariant::Success);
    assert_eq!(success.background, theme.good);
    assert_eq!(success.text, theme.good_contrast);
    let plain = button_colors(&theme, &ButtonVariant::PrimaryBg);
    assert_eq!(plain.background, theme.primary_bg);
    assert_eq!(plain.text, theme.text);
}

#[test]
fn svg_color_follows_the_variant_table() {
    let theme = resolve_oxitheme(None);
    assert_eq!(svg_color(&theme, &SvgStyleVariant::Primary), theme.primary);
    assert_eq!(svg_color(&theme, &SvgStyleVariant::Secondary), theme.secondary);
}

#[test]
fn icon_paths_are_rooted_in_the_asset_directory() {
    assert_eq!(path("clipboard"), "./assets/clipboard.svg");
    assert_eq!(path(""), "./assets/.svg");
}

#[test]
fn test_enum_conversion() {
    let enum_any = OxiAny::Button(ButtonVariant::Primary);
    let comp = if let Some(val) = enum_any.downcast_button() {
        ButtonVariant::Primary == val
    } else {
        false
    };
    assert!(comp)
}

#[test]
fn test_struct_conversion() {
    let struct_any = OxiAny::Color(Rgba::default());
    let comp = if let Some(val) = struct_any.downcast_color() {
        Rgba::default() == val
    } else {
        false
    };
    assert!(comp)
}

#[test]
fn tags_tell_kinds_apart() {
    let value = OxiAny::Color(Rgba::default());
    assert!(value.is(TAG_COLOR));
    assert!(!value.is(TAG_BUTTON));
    assert_eq!(value.type_tag(), TAG_COLOR);
    assert!(value.downcast_button().is_none());
}
