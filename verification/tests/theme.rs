use persona_ui::theme::{Color, Palette, TerminalTheme, TerminalThemeConfig};

#[test]
fn test_hex_color_parsing() {
    let color = Color::Hex("#ff5500".to_string());
    assert_eq!(color.to_rgb(), (255, 85, 0));
}

#[test]
fn test_hex_color_without_hash() {
    let color = Color::Hex("1a1b26".to_string());
    assert_eq!(color.to_rgb(), (26, 27, 38));
}

#[test]
fn test_rgb_array_color() {
    let color = Color::Rgb([128, 64, 32]);
    assert_eq!(color.to_rgb(), (128, 64, 32));
}

#[test]
fn test_color_from_str() {
    let color: Color = "#c0caf5".into();
    assert_eq!(color.to_rgb(), (192, 202, 245));
}

#[test]
fn test_default_is_tokyo_night() {
    let config = TerminalThemeConfig::default();
    match config {
        TerminalThemeConfig::Named(name) => assert_eq!(name, "tokyo-night"),
        _ => panic!("Expected Named variant"),
    }
}

#[test]
fn test_tokyo_night_colors() {
    let theme = TerminalTheme::tokyo_night();
    assert_eq!(theme.background.to_rgb(), (26, 27, 38));
    assert_eq!(theme.foreground.to_rgb(), (192, 202, 245));
}

#[test]
fn test_gruvbox_colors() {
    let theme = TerminalTheme::gruvbox_dark();
    assert_eq!(theme.background.to_rgb(), (40, 40, 40));
    assert_eq!(theme.foreground.to_rgb(), (235, 219, 178));
}

#[test]
fn test_catppuccin_colors() {
    let theme = TerminalTheme::catppuccin_mocha();
    assert_eq!(theme.background.to_rgb(), (30, 30, 46));
    assert_eq!(theme.foreground.to_rgb(), (205, 214, 244));
}

#[test]
fn test_from_name_variations() {
    let _ = TerminalTheme::from_name("tokyo-night");
    let _ = TerminalTheme::from_name("tokyo_night");
    let _ = TerminalTheme::from_name("tokyonight");
    let _ = TerminalTheme::from_name("TOKYO-NIGHT");

    let _ = TerminalTheme::from_name("gruvbox");
    let _ = TerminalTheme::from_name("gruvbox-dark");

    let _ = TerminalTheme::from_name("catppuccin");
    let _ = TerminalTheme::from_name("catppuccin-mocha");
}

#[test]
fn test_unknown_theme_falls_back_to_tokyo_night() {
    let theme = TerminalTheme::from_name("unknown-theme");
    let tokyo = TerminalTheme::tokyo_night();
    assert_eq!(theme.background.to_rgb(), tokyo.background.to_rgb());
}

#[test]
fn test_to_color_palette_does_not_panic() {
    let _ = TerminalTheme::tokyo_night().to_color_palette();
    let _ = TerminalTheme::gruvbox_dark().to_color_palette();
    let _ = TerminalTheme::catppuccin_mocha().to_color_palette();
}

fn reference_rgb(hex: &str) -> (u8, u8, u8) {
    let hex = hex.trim_start_matches('#');
    let r = u8::from_str_radix(&hex[0..2], 16).unwrap_or(0);
    let g = u8::from_str_radix(&hex[2..4], 16).unwrap_or(0);
    let b = u8::from_str_radix(&hex[4..6], 16).unwrap_or(0);
    (r, g, b)
}

#[test]
fn hex_text_converts_as_the_standard_parser_does() {
    let inputs = [
        "#000000", "#ffffff", "#FFFFFF", "#AbCdEf", "123456", "##a1b2c3", "###010203", "#12345678",
        "#+1+2+3", "#-1-2-3", "#zz0000", "#00zz00", "#0000zz", "# 1 2 3", "#1+2+3+", "#0x1122",
        "#\u{e9}1234", "#12\u{e9}34", "#1234\u{e9}", "#\u{e9}\u{e9}\u{e9}", "#123456\u{e9}",
        "      ", "+a+b+c", "#_1_2_3", "#a1b2c3#",
    ];
    for input in inputs {
        let color = Color::Hex(input.to_string());
        assert!(color.is_valid(), "{:?} can be cut into three pairs", input);
        assert_eq!(color.to_rgb(), reference_rgb(input), "for {:?}", input);
        assert_eq!(color.try_to_rgb(), Some(reference_rgb(input)), "for {:?}", input);
    }
}

#[test]
fn hex_text_that_cannot_be_cut_is_invalid() {
    let inputs = [
        "", "#", "####", "#12345", "12345", "#1\u{e9}345", "#123\u{e9}45", "#12345\u{e9}",
        "#\u{20ac}12345", "#1234\u{20ac}", "#12345\u{20ac}9", "\u{20ac}\u{20ac}",
    ];
    for input in inputs {
        let color = Color::Hex(input.to_string());
        assert!(!color.is_valid(), "{:?} cannot be cut into three pairs", input);
        assert_eq!(color.try_to_rgb(), None, "for {:?}", input);
    }
}

#[test]
fn rgb_triples_are_always_valid() {
    let color = Color::Rgb([0, 255, 7]);
    assert!(color.is_valid());
    assert_eq!(color.try_to_rgb(), Some((0, 255, 7)));
    assert_eq!(color.clone().to_rgb(), (0, 255, 7));
}

#[test]
fn from_name_ignores_case() {
    let gruvbox = TerminalTheme::gruvbox_dark().to_color_palette();
    let catppuccin = TerminalTheme::catppuccin_mocha().to_color_palette();
    let tokyo = TerminalTheme::tokyo_night().to_color_palette();
    assert_ne!(gruvbox, tokyo);
    assert_ne!(catppuccin, tokyo);
    assert_eq!(TerminalTheme::from_name("GRUVBOX").to_color_palette(), gruvbox);
    assert_eq!(TerminalTheme::from_name("Gruvbox-Dark").to_color_palette(), gruvbox);
    assert_eq!(TerminalTheme::from_name("gruvbox").to_color_palette(), gruvbox);
    assert_eq!(TerminalTheme::from_name("CATPPUCCIN").to_color_palette(), catppuccin);
    assert_eq!(TerminalTheme::from_name("Catppuccin-Mocha").to_color_palette(), catppuccin);
    assert_eq!(TerminalTheme::from_name("TOKYO-NIGHT").to_color_palette(), tokyo);
    assert_eq!(TerminalTheme::from_name("tokyo_night").to_color_palette(), tokyo);
    assert_eq!(TerminalTheme::from_name("gruvbox ").to_color_palette(), tokyo);
    assert_eq!(TerminalTheme::from_name("").to_color_palette(), tokyo);
}

#[test]
fn from_lowercase_name_is_exact() {
    let gruvbox = TerminalTheme::gruvbox_dark().to_color_palette();
    let tokyo = TerminalTheme::tokyo_night().to_color_palette();
    assert_eq!(TerminalTheme::from_lowercase_name("gruvbox").to_color_palette(), gruvbox);
    assert_eq!(TerminalTheme::from_lowercase_name("GRUVBOX").to_color_palette(), tokyo);
}

#[test]
fn tokyo_night_palette_has_exact_values() {
    let p: Palette = TerminalTheme::tokyo_night().to_color_palette();
    assert_eq!(p.background, (0x1a, 0x1b, 0x26));
    assert_eq!(p.foreground, (0xc0, 0xca, 0xf5));
    assert_eq!(p.cursor, (0xc0, 0xca, 0xf5));
    assert_eq!(p.black, (0x15, 0x16, 0x1e));
    assert_eq!(p.red, (0xf7, 0x76, 0x8e));
    assert_eq!(p.green, (0x9e, 0xce, 0x6a));
    assert_eq!(p.yellow, (0xe0, 0xaf, 0x68));
    assert_eq!(p.blue, (0x7a, 0xa2, 0xf7));
    assert_eq!(p.magenta, (0xbb, 0x9a, 0xf7));
    assert_eq!(p.cyan, (0x7d, 0xcf, 0xff));
    assert_eq!(p.white, (0xa9, 0xb1, 0xd6));
    assert_eq!(p.bright_black, (0x41, 0x48, 0x68));
    assert_eq!(p.bright_white, (0xc0, 0xca, 0xf5));
}

#[test]
fn built_in_themes_are_valid() {
    assert!(TerminalTheme::tokyo_night().is_valid());
    assert!(TerminalTheme::gruvbox_dark().is_valid());
    assert!(TerminalTheme::catppuccin_mocha().is_valid());
    assert!(TerminalTheme::default().is_valid());
    assert_eq!(
        TerminalTheme::default().to_color_palette(),
        TerminalTheme::tokyo_night().to_color_palette()
    );
}

#[test]
fn theme_config_converts_named_and_custom() {
    let named = TerminalThemeConfig::Named("Gruvbox".to_string());
    assert!(named.is_valid());
    assert_eq!(named.to_color_palette(), TerminalTheme::gruvbox_dark().to_color_palette());

    let mut theme = TerminalTheme::tokyo_night();
    theme.background = Color::Rgb([1, 2, 3]);
    let custom = TerminalThemeConfig::Custom(theme.clone());
    assert!(custom.is_valid());
    assert_eq!(custom.clone().to_color_palette().background, (1, 2, 3));

    theme.cursor = Color::Hex("#12".to_string());
    assert!(!theme.is_valid());
    assert!(!TerminalThemeConfig::Custom(theme).is_valid());
}
