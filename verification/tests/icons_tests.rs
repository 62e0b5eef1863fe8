use blaze_app::file_icons::{
    git_dot_color, git_status_key, resolve_icon, text_color_for_git, FileKind, GitStatus, Glyph,
};
use blaze_app::themes::color::Rgba;
use blaze_app::themes::structs::FileTheme;

fn rgb(r: u8, g: u8, b: u8) -> Rgba {
    Rgba { r, g, b, a: 255 }
}

#[test]
fn folder_icons() {
    let theme = FileTheme::default();
    let custom = Some(rgb(1, 2, 3));
    let i = resolve_icon(true, FileKind::Unknown, Some("42"), custom, &theme);
    assert_eq!(i.cache_key, "folder-42");
    assert_eq!(i.glyph, Glyph::FolderOpen);
    assert_eq!(i.color, rgb(1, 2, 3));
    let j = resolve_icon(true, FileKind::Image, Some("7"), None, &theme);
    assert_eq!(j.color, rgb(255, 255, 0));
    let k = resolve_icon(true, FileKind::Unknown, None, custom, &theme);
    assert_eq!(k.cache_key, "folder-unknown");
    assert_eq!(k.color, rgb(255, 255, 0));
}

#[test]
fn file_icons_by_kind() {
    let theme = FileTheme::blaze_light();
    let pdf = resolve_icon(false, FileKind::Pdf, None, None, &theme);
    assert_eq!(pdf.cache_key, "pdf");
    assert_eq!(pdf.glyph, Glyph::Pdf);
    assert_eq!(pdf.color, rgb(0xE6, 0x39, 0x46));
    let audio = resolve_icon(false, FileKind::Audio, Some("9"), None, &theme);
    assert_eq!(audio.cache_key, "audio");
    assert_eq!(audio.glyph, Glyph::Video);
    let other = resolve_icon(false, FileKind::Unknown, None, None, &theme);
    assert_eq!(other.cache_key, "file");
    assert_eq!(other.glyph, Glyph::File);
}

#[test]
fn broken_theme_color_shows_the_debug_color() {
    let mut theme = FileTheme::default();
    theme.code = "green".to_string();
    let code = resolve_icon(false, FileKind::Code, None, None, &theme);
    assert_eq!(code.color, Rgba { r: 0, g: 200, b: 0, a: 128 });
}

#[test]
fn git_colors() {
    assert_eq!(text_color_for_git(Some(GitStatus::Modified), "#FFFFFF"), rgb(255, 200, 80));
    assert_eq!(text_color_for_git(Some(GitStatus::Ignored), "#FFFFFF"), rgb(100, 100, 100));
    assert_eq!(text_color_for_git(None, "#102030"), rgb(16, 32, 48));
    assert_eq!(text_color_for_git(Some(GitStatus::Clean), "#102030"), rgb(16, 32, 48));
    assert_eq!(git_dot_color(Some(GitStatus::Ignored)), Some(rgb(80, 80, 80)));
    assert_eq!(git_dot_color(Some(GitStatus::Staged)), Some(rgb(100, 220, 100)));
    assert_eq!(git_dot_color(Some(GitStatus::Clean)), None);
    assert_eq!(git_dot_color(None), None);
    assert_eq!(git_status_key(GitStatus::Conflict), "git_status.conflict");
}
