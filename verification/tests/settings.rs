use persona_ui::settings::{
    configured_theme_name, is_dirty, saved_value, selection_index, terminal_theme_names,
    SettingsCategory,
};
use persona_ui::theme::{TerminalTheme, TerminalThemeConfig};

#[test]
fn settings_pages_in_order() {
    assert_eq!(
        SettingsCategory::all(),
        vec![
            SettingsCategory::General,
            SettingsCategory::Personas,
            SettingsCategory::Memory,
            SettingsCategory::Terminal
        ]
    );
    let labels: Vec<&str> = SettingsCategory::all().iter().map(|c| c.label()).collect();
    assert_eq!(labels, vec!["General", "Personas", "Memory", "Terminal"]);
}

#[test]
fn a_field_is_dirty_when_it_differs() {
    assert!(!is_dirty(None, "saved"));
    assert!(!is_dirty(Some("saved"), "saved"));
    assert!(is_dirty(Some("saved "), "saved"));
    assert!(is_dirty(Some(""), "saved"));
    assert!(!is_dirty(Some(""), ""));
}

#[test]
fn saved_value_prefers_the_field() {
    assert_eq!(saved_value(Some("new"), "old".to_string()), "new");
    assert_eq!(saved_value(None, "old".to_string()), "old");
    assert_eq!(saved_value(Some(""), "old".to_string()), "");
}

#[test]
fn selection_is_the_first_match() {
    let names = vec!["b".to_string(), "a".to_string(), "b".to_string()];
    assert_eq!(selection_index(&names, "b"), Some(0));
    assert_eq!(selection_index(&names, "a"), Some(1));
    assert_eq!(selection_index(&names, "B"), None);
    assert_eq!(selection_index(&Vec::new(), "a"), None);
}

#[test]
fn terminal_themes_offered() {
    let names = terminal_theme_names();
    assert_eq!(names, vec!["tokyo-night", "gruvbox", "catppuccin"]);
    assert_eq!(selection_index(&names, configured_theme_name(&TerminalThemeConfig::default())), Some(0));
    let gruvbox = TerminalThemeConfig::Named("gruvbox".to_string());
    assert_eq!(selection_index(&names, configured_theme_name(&gruvbox)), Some(1));
    let custom = TerminalThemeConfig::Custom(TerminalTheme::gruvbox_dark());
    assert_eq!(configured_theme_name(&custom), "");
    assert_eq!(selection_index(&names, configured_theme_name(&custom)), None);
}
