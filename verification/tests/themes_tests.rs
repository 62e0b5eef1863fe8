use blaze_app::themes::color::{to_color, Rgba};
use blaze_app::themes::manager::{
    default_theme_files, is_theme_file, theme_file_name, theme_from_contents, ScannedTheme,
    ThemeManager,
};
use blaze_app::themes::structs::{FileTheme, NewTheme, Theme, ThemeDefault};

fn named(name: &str) -> NewTheme {
    let mut t = NewTheme::blaze_light();
    t.name = name.to_string();
    t
}

fn legacy(name: &str) -> Theme {
    Theme {
        name: name.to_string(),
        autor: "Someone".to_string(),
        version: "1.0.0".to_string(),
        luminance_bits: 0x3F00_0000,
        error: "#E1".to_string(),
        success: "#E2".to_string(),
        warn: "#E3".to_string(),
        bg_main: "#A1".to_string(),
        bg_panel: "#A2".to_string(),
        bg_container: "#A3".to_string(),
        border_panel: "#A4".to_string(),
        main_buttons: "#A5".to_string(),
        bg_hover: "#A6".to_string(),
        accent: "#A7".to_string(),
        accent_glow: "#A8".to_string(),
        rubberband: "#A9".to_string(),
        item_selected: "#B1".to_string(),
        text_primary: "#B2".to_string(),
        text_secondary: "#B3".to_string(),
        text_muted: "#B4".to_string(),
        tools_primary: "#B5".to_string(),
        tools_secondary: "#B6".to_string(),
        tool_btn_active: "#B7".to_string(),
        tool_btn_inactive: "#B8".to_string(),
        tool_btn_hovered: "#B9".to_string(),
        file_theme: FileTheme::default(),
    }
}

#[test]
fn theme_file_names() {
    assert_eq!(theme_file_name("Blaze Dark"), "blaze_dark.json");
    assert_eq!(theme_file_name("VS Code Light"), "vs_code_light.json");
    assert_eq!(theme_file_name("Mi Tema Ñandú"), "mi_tema_ñandú.json");
}

#[test]
fn theme_file_name_has_no_space_and_json_suffix() {
    let f = theme_file_name("A  B C");
    assert!(!f.contains(' '));
    assert!(f.ends_with(".json"));
}

#[test]
fn hex_colors() {
    assert_eq!(to_color("#FF0000"), Rgba { r: 255, g: 0, b: 0, a: 255 });
    assert_eq!(to_color("#0D0614"), Rgba { r: 13, g: 6, b: 20, a: 255 });
    assert_eq!(to_color("not a color"), Rgba { r: 0, g: 200, b: 0, a: 128 });
    assert_eq!(to_color(""), Rgba { r: 0, g: 200, b: 0, a: 128 });
}

#[test]
fn built_in_themes() {
    let d = NewTheme::default_dark();
    assert_eq!(d.name, "Blaze Dark");
    assert_eq!(d.autor, "Jhanfer");
    assert_eq!(d.version, "2.0.0");
    assert_eq!(f32::from_bits(d.luminance_bits), 0.7);
    assert_eq!(d.semantic.bg_main, "#0D0614");
    let l = NewTheme::default_light();
    assert_eq!(l.name, "Blaze Light");
    assert_eq!(f32::from_bits(l.luminance_bits), 0.3);
    assert_eq!(NewTheme::default_vscode_dark().name, "VS Code Dark");
    assert_eq!(NewTheme::default_vscode_light().name, "VS Code Light");
    assert_eq!(FileTheme::default().folder_default, "#FFFF00FF");
    assert_eq!(FileTheme::blaze_light().folder_default, "#FFA3B6");
}

#[test]
fn default_files_cover_the_four_built_ins() {
    let files = default_theme_files();
    let names: Vec<&str> = files.iter().map(|f| f.file_name.as_str()).collect();
    assert_eq!(
        names,
        vec!["blaze_dark.json", "blaze_light.json", "vs_code_dark.json", "vs_code_light.json"]
    );
    assert_eq!(files[2].theme.name, "VS Code Dark");
}

#[test]
fn theme_files_are_json() {
    assert!(is_theme_file("blaze_dark.json"));
    assert!(is_theme_file("a.json"));
    assert!(!is_theme_file(".json"));
    assert!(!is_theme_file("notes.txt"));
    assert!(!is_theme_file("json"));
    assert!(!is_theme_file("theme.json.bak"));
}

#[test]
fn reading_theme_contents() {
    match theme_from_contents(Some(named("X")), Some(legacy("Y"))) {
        Some(ScannedTheme::Current(t)) => assert_eq!(t.name, "X"),
        _ => panic!("the current format wins"),
    }
    match theme_from_contents(None, Some(legacy("Old"))) {
        Some(ScannedTheme::Migrated(t)) => {
            assert_eq!(t.name, "Old");
            assert_eq!(t.version, "2.0.0");
        }
        _ => panic!("a flat theme is migrated"),
    }
    assert!(theme_from_contents(None, None).is_none());
}

#[test]
fn migration_maps_the_flat_colors() {
    let t = legacy("Old").migrate_to_new();
    assert_eq!(t.autor, "Someone");
    assert_eq!(t.version, "2.0.0");
    assert_eq!(t.luminance_bits, 0x3F00_0000);
    assert_eq!(t.semantic.separator, "#A4");
    assert_eq!(t.components.input.border_idle, "#A4");
    assert_eq!(t.components.input.border_focus, "#A7");
    assert_eq!(t.components.button.bg, "#A5");
    assert_eq!(t.components.button.label_hover, "#B9");
    assert_eq!(t.components.list_item.bg_selected, "#B1");
    assert_eq!(t.components.tools.bg, "#A2");
    assert_eq!(t.components.sidebar_item.bg_hover, "#A6");
}

#[test]
fn new_manager_uses_blaze_dark() {
    let m = ThemeManager::new();
    assert_eq!(m.current().name, "Blaze Dark");
    assert!(m.get_available_themes_names().is_empty());
}

#[test]
fn load_prefers_the_configured_theme() {
    let mut m = ThemeManager::new();
    m.load(vec![named("A"), named("B"), named("C")], "B");
    assert_eq!(m.current().name, "B");
    assert_eq!(m.get_available_themes_names(), vec!["A", "B", "C"]);
}

#[test]
fn load_falls_back_to_the_first_theme() {
    let mut m = ThemeManager::new();
    m.load(vec![named("A"), named("B")], "Missing");
    assert_eq!(m.current().name, "A");
    let mut empty = ThemeManager::new();
    empty.load(vec![], "Missing");
    assert_eq!(empty.current().name, "Blaze Dark");
}

#[test]
fn set_theme_by_name() {
    let mut m = ThemeManager::new();
    m.load(vec![named("A"), named("B")], "A");
    m.set_theme("B");
    assert_eq!(m.current().name, "B");
    m.set_theme("Nope");
    assert_eq!(m.current().name, "B");
}

#[test]
fn set_theme_picks_the_first_of_equal_names() {
    let mut m = ThemeManager::new();
    let mut second = named("Dup");
    second.autor = "second".to_string();
    let mut first = named("Dup");
    first.autor = "first".to_string();
    m.load(vec![first, second], "none");
    m.set_theme("Dup");
    assert_eq!(m.current().autor, "first");
}

#[test]
fn reload_keeps_the_active_name() {
    let mut m = ThemeManager::new();
    m.load(vec![named("A"), named("B")], "B");
    let mut fresh_b = named("B");
    fresh_b.autor = "edited".to_string();
    m.reload(vec![named("C"), fresh_b]);
    assert_eq!(m.current().name, "B");
    assert_eq!(m.current().autor, "edited");
    m.reload(vec![named("C")]);
    assert_eq!(m.current().name, "B");
    assert_eq!(m.get_available_themes_names(), vec!["C"]);
}

#[test]
fn save_writes_the_active_theme() {
    let mut m = ThemeManager::new();
    m.load(vec![named("Mi Tema")], "Mi Tema");
    let f = m.save();
    assert_eq!(f.file_name, "mi_tema.json");
    assert_eq!(f.theme.name, "Mi Tema");
}

#[test]
fn reset_brings_back_the_built_in() {
    let mut m = ThemeManager::new();
    let mut edited = NewTheme::default_light();
    edited.semantic.bg_main = "#000000".to_string();
    m.load(vec![edited], "Blaze Light");
    let f = m.reset_to_default();
    assert_eq!(m.current().semantic.bg_main, "#FFF5F7");
    assert_eq!(f.file_name, "blaze_light.json");
}

#[test]
fn reset_of_a_custom_theme_gives_blaze_dark() {
    let mut m = ThemeManager::new();
    m.load(vec![named("Custom")], "Custom");
    let f = m.reset_to_default();
    assert_eq!(m.current().name, "Blaze Dark");
    assert_eq!(f.file_name, "blaze_dark.json");
}

#[test]
fn save_as_custom_theme_renames_a_copy() {
    let mut m = ThemeManager::new();
    m.load(vec![NewTheme::default_dark()], "Blaze Dark");
    let f = m.save_as_custom_theme("Night Owl");
    assert_eq!(f.file_name, "night_owl.json");
    assert_eq!(f.theme.name, "Night Owl");
    assert_eq!(f.theme.autor, "CustomUser");
    assert_eq!(f.theme.version, "1.0.0");
    assert_eq!(f.theme.semantic.bg_main, "#0D0614");
    assert_eq!(m.current().name, "Blaze Dark");
    m.reload(vec![NewTheme::default_dark(), f.theme]);
    m.set_theme("Night Owl");
    assert_eq!(m.current().name, "Night Owl");
}

#[test]
fn replacing_the_active_theme() {
    let mut m = ThemeManager::new();
    m.replace_active(named("Edited"));
    assert_eq!(m.current().name, "Edited");
}

#[test]
fn eight_digit_colors_with_full_or_no_alpha() {
    assert_eq!(to_color("#1A2B3CFF"), Rgba { r: 0x1A, g: 0x2B, b: 0x3C, a: 255 });
    assert_eq!(to_color("#1a2b3cff"), Rgba { r: 0x1A, g: 0x2B, b: 0x3C, a: 255 });
    assert_eq!(to_color("#1A2B3C00"), Rgba { r: 0, g: 0, b: 0, a: 0 });
}
