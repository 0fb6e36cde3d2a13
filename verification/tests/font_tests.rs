use keyboard_input::font::{
    AllowSquareGlyphOverflow, FlagParseError, FontAntiAliasing, FontAttributes, FontHinting,
    FontLocatorSelection,
    FontRasterizerSelection, FontShaperSelection, FreeTypeLoadFlags, FreeTypeLoadTarget, Platform,
    RgbColor, StyleRule, TextStyle, VariantParseError,
};

#[test]
fn load_flags_parse_pipe_delimited_tokens() {
    let flags = FreeTypeLoadFlags::de_string("NO_HINTING | MONOCHROME").expect("parse");
    assert!(flags.no_hinting);
    assert!(flags.monochrome);
    assert!(!flags.no_bitmap && !flags.force_autohint && !flags.no_autohint);
    assert_eq!(flags.bits(), 2 + 4096);
}

#[test]
fn load_flags_default_token_names_the_empty_set() {
    let flags = FreeTypeLoadFlags::de_string("DEFAULT").expect("parse");
    assert_eq!(flags, FreeTypeLoadFlags::empty());
    assert_eq!(flags.bits(), 0);
}

#[test]
fn load_flags_parse_is_fail_closed() {
    let err = FreeTypeLoadFlags::de_string("NO_HINTING|BOGUS|NO_BITMAP").unwrap_err();
    assert_eq!(
        err,
        FlagParseError {
            token: "BOGUS".to_string()
        }
    );
    assert!(FreeTypeLoadFlags::de_string("").is_err());
}

#[test]
fn load_flags_bits_cover_every_flag() {
    let all = FreeTypeLoadFlags {
        no_hinting: true,
        no_bitmap: true,
        force_autohint: true,
        monochrome: true,
        no_autohint: true,
    };
    assert_eq!(all.bits(), 2 + 8 + 32 + 4096 + 32768);
}

#[test]
fn font_attribute_constructors_set_the_flags() {
    let plain = FontAttributes::new("Fira Code");
    assert_eq!(plain.family, "Fira Code");
    assert!(!plain.bold && !plain.italic && !plain.is_fallback);

    let fallback = FontAttributes::new_fallback("Noto Color Emoji");
    assert!(fallback.is_fallback);

    let default = FontAttributes::default();
    assert_eq!(default.family, "JetBrains Mono");
    assert!(!default.bold && !default.italic && !default.is_fallback);
}

#[test]
fn display_string_writes_the_selecting_call() {
    let mut attrs = FontAttributes::new("Fira Code");
    attrs.bold = true;
    assert_eq!(
        attrs.display_string(),
        "wezterm.font('Fira Code', {bold=true, italic=false})"
    );
}

#[test]
fn make_bold_and_make_italic_set_every_entry() {
    let style = TextStyle {
        font: vec![
            FontAttributes::new("Operator Mono"),
            FontAttributes::new_fallback("Noto Color Emoji"),
        ],
        foreground: Some(RgbColor {
            red: 1,
            green: 2,
            blue: 3,
        }),
    };

    let bold = style.make_bold();
    assert_eq!(bold.foreground, style.foreground);
    assert_eq!(bold.font.len(), 2);
    assert!(bold.font.iter().all(|a| a.bold));
    assert_eq!(bold.font[0].family, "Operator Mono");
    assert!(!bold.font[0].italic);
    assert!(bold.font[1].is_fallback);

    let italic = style.make_italic();
    assert!(italic.font.iter().all(|a| a.italic));
    assert!(!italic.font[0].bold);
}

#[test]
fn reduce_first_font_strips_trailing_qualifiers() {
    let style = TextStyle {
        font: vec![
            FontAttributes::new("JetBrains Mono Semi Bold Italic"),
            FontAttributes::new("Fira Code Bold"),
        ],
        foreground: None,
    };
    let reduced = style.reduce_first_font_to_family();
    assert_eq!(reduced.font[0].family, "JetBrains Mono");
    assert_eq!(reduced.font[1].family, "Fira Code Bold");
}

#[test]
fn fallback_list_appends_bundled_fonts() {
    let style = TextStyle {
        font: vec![FontAttributes::new("Fira Code")],
        foreground: None,
    };
    let fonts = style.font_with_fallback();
    assert_eq!(fonts.len(), 4);
    assert_eq!(fonts[0].family, "Fira Code");
    assert_eq!(fonts[1].family, "JetBrains Mono");
    assert!(fonts[1].is_fallback);
    assert_eq!(fonts[2].family, "Noto Color Emoji");
    assert_eq!(fonts[3].family, "Last Resort High-Efficiency");
    assert!(fonts[2].is_fallback && fonts[3].is_fallback);
}

#[test]
fn fallback_list_skips_default_when_already_named() {
    let style = TextStyle::default();
    let fonts = style.font_with_fallback();
    assert_eq!(fonts.len(), 3);
    assert_eq!(fonts[0].family, "JetBrains Mono");
    assert!(!fonts[0].is_fallback);
    assert_eq!(fonts[1].family, "Noto Color Emoji");
    assert_eq!(fonts[2].family, "Last Resort High-Efficiency");
}

#[test]
fn text_style_default_holds_one_default_font() {
    let style = TextStyle::default();
    assert_eq!(style.foreground, None);
    assert_eq!(style.font.len(), 1);
    assert_eq!(style.font[0], FontAttributes::default());
}

#[test]
fn style_rule_default_matches_everything() {
    let rule = StyleRule::default();
    assert!(rule.intensity.is_none());
    assert!(rule.underline.is_none());
    assert!(rule.italic.is_none());
    assert!(rule.blink.is_none());
    assert!(rule.reverse.is_none());
    assert!(rule.strikethrough.is_none());
    assert!(rule.invisible.is_none());
    assert_eq!(rule.font.font.len(), 1);
}

#[test]
fn enum_defaults_match_their_documented_values() {
    assert_eq!(FreeTypeLoadTarget::default(), FreeTypeLoadTarget::Normal);
    assert_eq!(FontHinting::default(), FontHinting::Full);
    assert_eq!(FontAntiAliasing::default(), FontAntiAliasing::Greyscale);
    assert_eq!(
        FontRasterizerSelection::default(),
        FontRasterizerSelection::FreeType
    );
    assert_eq!(FontShaperSelection::default(), FontShaperSelection::Harfbuzz);
    assert_eq!(
        AllowSquareGlyphOverflow::default(),
        AllowSquareGlyphOverflow::WhenFollowedBySpace
    );
}

#[test]
fn locator_follows_the_platform_table() {
    assert_eq!(
        FontLocatorSelection::for_platform(Platform::Windows),
        FontLocatorSelection::Gdi
    );
    assert_eq!(
        FontLocatorSelection::for_platform(Platform::MacOs),
        FontLocatorSelection::CoreText
    );
    assert_eq!(
        FontLocatorSelection::for_platform(Platform::Unix),
        FontLocatorSelection::FontConfig
    );
}

#[test]
fn selection_parsing_ignores_ascii_case() {
    assert_eq!(
        FontLocatorSelection::from_str("FontConfig"),
        Ok(FontLocatorSelection::FontConfig)
    );
    assert_eq!(
        FontLocatorSelection::from_str("COreTeXT"),
        Ok(FontLocatorSelection::CoreText)
    );
    assert_eq!(
        FontLocatorSelection::from_str("configdirsonly"),
        Ok(FontLocatorSelection::ConfigDirsOnly)
    );
    assert_eq!(
        FontLocatorSelection::from_str("GDI"),
        Ok(FontLocatorSelection::Gdi)
    );
    assert_eq!(
        FontLocatorSelection::from_str("quartz"),
        Err(VariantParseError {})
    );

    assert_eq!(
        FontRasterizerSelection::from_str("freetype"),
        Ok(FontRasterizerSelection::FreeType)
    );
    assert!(FontRasterizerSelection::from_str("cairo").is_err());

    assert_eq!(
        FontShaperSelection::from_str("HarfBuzz"),
        Ok(FontShaperSelection::Harfbuzz)
    );
    assert_eq!(
        FontShaperSelection::from_str("allsorts"),
        Ok(FontShaperSelection::Allsorts)
    );
    assert!(FontShaperSelection::from_str("coretext").is_err());
}

#[test]
fn variant_lists_name_every_variant() {
    assert_eq!(
        FontLocatorSelection::variants(),
        vec!["FontConfig", "CoreText", "ConfigDirsOnly", "Gdi"]
    );
    assert_eq!(FontRasterizerSelection::variants(), vec!["FreeType"]);
    assert_eq!(
        FontShaperSelection::variants(),
        vec!["Harfbuzz", "AllSorts"]
    );
}
