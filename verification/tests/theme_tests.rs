use oxiced::color::Rgba;
use oxiced::theme::{
    parse_base16_palette, parse_extended_palette, parse_simple_palette, resolve_theme,
    ResolvedTheme, TomlTheme,
};

fn rgb(r: u8, g: u8, b: u8) -> Rgba {
    Rgba { r, g, b, a: 255 }
}

fn base16_doc() -> String {
    let mut doc = String::from("name = \"Scheme\"\n");
    let slots = [
        ("base00", "1a1b26"),
        ("base01", "101010"),
        ("base02", "202020"),
        ("base03", "303030"),
        ("base04", "404040"),
        ("base05", "c0caf5"),
        ("base06", "606060"),
        ("base07", "707070"),
        ("base08", "f7768e"),
        ("base09", "909090"),
        ("base0a", "a0a0a0"),
        ("base0b", "9ece6a"),
        ("base0c", "c0c0c0"),
        ("base0d", "d0d0d0"),
        ("base0e", "e0e0e0"),
        ("base0f", "f0f0f0"),
    ];
    for (slot, value) in slots {
        doc.push_str(&format!("{} = \"{}\"\n", slot, value));
    }
    doc
}

#[test]
fn base16_document_resolves_by_the_slot_table() {
    let doc = base16_doc();
    let theme = resolve_theme(Some(&doc));
    match theme {
        ResolvedTheme::Extended { name, extended } => {
            assert_eq!(name, "Scheme");
            // Background from base00/base05, weak from base01/base03,
            // strong from base02/base04.
            assert_eq!(extended.background.base.color, rgb(0x1a, 0x1b, 0x26));
            assert_eq!(extended.background.base.text, rgb(0xc0, 0xca, 0xf5));
            assert_eq!(extended.background.weak.color, rgb(0x10, 0x10, 0x10));
            assert_eq!(extended.background.weak.text, rgb(0x30, 0x30, 0x30));
            assert_eq!(extended.background.strong.color, rgb(0x20, 0x20, 0x20));
            // The primary base colour is the background lightened by the
            // fixed tint amount.
            assert_eq!(extended.primary.base.color, rgb(0x1a + 10, 0x1b + 10, 0x26 + 10));
            // Success from the green slot with derived weak and strong.
            assert_eq!(extended.success.base.color, rgb(0x9e, 0xce, 0x6a));
            assert_eq!(extended.success.weak.color, rgb(0x9e - 10, 0xce - 10, 0x6a - 10));
            assert_eq!(extended.success.strong.color, rgb(0x9e + 10, 0xce + 10, 0x6a + 10));
            // Danger from the red slot.
            assert_eq!(extended.danger.base.color, rgb(0xf7, 0x76, 0x8e));
            assert!(extended.is_dark);
        },
        other => panic!("expected an extended theme, got {:?}", other),
    }
}

#[test]
fn sixteen_slot_background_base_reads_exactly() {
    // The background-base colour of the 16-slot schema is the parsed value
    // of base00, byte for byte.
    let doc = base16_doc();
    let parsed = parse_base16_palette(&doc).expect("well-formed 16-slot document");
    match parsed {
        ResolvedTheme::Extended { extended, .. } => {
            assert_eq!(extended.background.base.color, rgb(0x1a, 0x1b, 0x26));
        },
        other => panic!("expected an extended theme, got {:?}", other),
    }
}

#[test]
fn simple_document_resolves_to_its_five_colours() {
    let doc = "name = \"Plain\"\nbackground = 16711680\ntext = 255\nprimary = 65280\nsuccess = 16777215\ndanger = 0\n";
    let theme = resolve_theme(Some(doc));
    match theme {
        ResolvedTheme::Simple { name, palette } => {
            assert_eq!(name, "Plain");
            assert_eq!(palette.background, rgb(255, 0, 0));
            assert_eq!(palette.text, rgb(0, 0, 255));
            assert_eq!(palette.primary, rgb(0, 255, 0));
            assert_eq!(palette.success, rgb(255, 255, 255));
            assert_eq!(palette.danger, rgb(0, 0, 0));
        },
        other => panic!("expected a simple theme, got {:?}", other),
    }
}

fn extended_doc() -> String {
    let mut doc = String::from("name = \"Full\"\nis_dark = false\n");
    let mut value: u32 = 1;
    for category in ["background", "primary", "secondary", "success", "danger"] {
        for part in ["base", "weak", "strong"] {
            doc.push_str(&format!(
                "[{}.{}]\ncolor = {}\ntext = {}\n",
                category,
                part,
                value,
                value + 1
            ));
            value += 2;
        }
    }
    doc
}

#[test]
fn extended_document_resolves_to_its_thirty_colours() {
    let doc = extended_doc();
    let theme = resolve_theme(Some(&doc));
    match theme {
        ResolvedTheme::Extended { name, extended } => {
            assert_eq!(name, "Full");
            assert!(!extended.is_dark);
            assert_eq!(extended.background.base.color, rgb(0, 0, 1));
            assert_eq!(extended.background.base.text, rgb(0, 0, 2));
            assert_eq!(extended.background.weak.color, rgb(0, 0, 3));
            assert_eq!(extended.background.strong.color, rgb(0, 0, 5));
            assert_eq!(extended.primary.base.color, rgb(0, 0, 7));
            assert_eq!(extended.danger.strong.text, rgb(0, 0, 30));
        },
        other => panic!("expected an extended theme, got {:?}", other),
    }
}

#[test]
fn absent_document_resolves_to_the_default_theme() {
    let first = resolve_theme(None);
    let second = resolve_theme(None);
    // Repeated resolutions of an absent file are identical.
    assert_eq!(first, second);
    match first {
        ResolvedTheme::Extended { name, extended } => {
            assert_eq!(name, "Tokyo Night Dark");
            assert_eq!(extended.background.base.color, rgb(0x1a, 0x1b, 0x26));
            assert_eq!(extended.background.base.text, rgb(0xc0, 0xca, 0xf5));
            assert_eq!(extended.background.weak.color, rgb(0x22, 0x24, 0x30));
            assert_eq!(extended.primary.base.color, rgb(0x28, 0x2a, 0x38));
            assert_eq!(extended.primary.strong.color, rgb(0x3e, 0x40, 0x52));
            assert!(extended.is_dark);
        },
        other => panic!("expected the built-in theme, got {:?}", other),
    }
}

#[test]
fn malformed_document_falls_back_to_the_default_theme() {
    // Not well-formed TOML at all.
    assert_eq!(resolve_theme(Some("name = ")), resolve_theme(None));
    // Well-formed TOML that matches no schema: a wrong field name.
    assert_eq!(resolve_theme(Some("nam = \"Typo\"")), resolve_theme(None));
    // A simple palette with one colour out of the 32-bit range.
    let out_of_range = "name = \"Big\"\nbackground = 4294967296\ntext = 1\nprimary = 2\nsuccess = 3\ndanger = 4\n";
    assert_eq!(resolve_theme(Some(out_of_range)), resolve_theme(None));
    // A negative colour is rejected too.
    let negative =
        "name = \"Neg\"\nbackground = -1\ntext = 1\nprimary = 2\nsuccess = 3\ndanger = 4\n";
    assert_eq!(resolve_theme(Some(negative)), resolve_theme(None));
}

#[test]
fn bad_hex_slot_is_swallowed_as_black() {
    // A slot that is a string but not hexadecimal still matches the 16-slot
    // schema; the unparseable colour degrades to black rather than failing
    // the document.
    let doc = base16_doc().replace("\"1a1b26\"", "\"not hex\"");
    match resolve_theme(Some(&doc)) {
        ResolvedTheme::Extended { extended, .. } => {
            assert_eq!(extended.background.base.color, rgb(0, 0, 0));
            assert_eq!(extended.background.weak.color, rgb(0x10, 0x10, 0x10));
        },
        other => panic!("expected an extended theme, got {:?}", other),
    }
}

#[test]
fn schema_order_prefers_the_sixteen_slot_shape() {
    // A document carrying both the 16-slot strings and the five simple
    // colours matches both schemas; the fixed order resolves it by the
    // 16-slot schema.
    let mut doc = base16_doc();
    doc.push_str("background = 16711680\ntext = 255\nprimary = 65280\nsuccess = 1\ndanger = 2\n");
    assert!(parse_simple_palette(&doc).is_some());
    assert!(parse_base16_palette(&doc).is_some());
    match resolve_theme(Some(&doc)) {
        ResolvedTheme::Extended { name, extended } => {
            assert_eq!(name, "Scheme");
            assert_eq!(extended.background.base.color, rgb(0x1a, 0x1b, 0x26));
        },
        other => panic!("expected the 16-slot resolution, got {:?}", other),
    }
}

#[test]
fn each_parser_rejects_the_other_shapes() {
    let doc = base16_doc();
    assert!(parse_simple_palette(&doc).is_none());
    assert!(parse_extended_palette(&doc).is_none());
    let simple = "name = \"Plain\"\nbackground = 1\ntext = 2\nprimary = 3\nsuccess = 4\ndanger = 5\n";
    assert!(parse_base16_palette(simple).is_none());
    assert!(parse_extended_palette(simple).is_none());
}

#[test]
fn schema_names_come_from_the_document() {
    let table: toml::Table = toml::from_str(&base16_doc()).unwrap();
    let parsed = oxiced::theme::parse_base16_doc(&table).expect("16-slot shape");
    assert_eq!(parsed.name(), "Scheme");
    assert_eq!(parsed.base0f, "f0f0f0");
}
