use vstd::prelude::*;
use crate::text::append_str;
use crate::themes::color::{opaque, to_color, to_color_spec, Rgba};
use crate::themes::structs::FileTheme;

verus! {

/// The kind of a file, as its extension tells it.
#[derive(Clone, Copy, Debug, PartialEq, Eq, Structural)]
pub enum FileKind {
    Image,
    Pdf,
    Document,
    Video,
    Audio,
    Archive,
    Code,
    Font,
    Executable,
    Unknown,
}

/// The picture an icon is drawn with.
#[derive(Clone, Copy, Debug, PartialEq, Eq, Structural)]
pub enum Glyph {
    FolderOpen,
    Image,
    Pdf,
    Doc,
    Video,
    Archive,
    Code,
    Font,
    Exe,
    File,
}

/// The icon of a file or folder: the key under which its tinted texture is
/// cached, the picture, and the tint.
pub struct ResolvedIcon {
    pub cache_key: String,
    pub glyph: Glyph,
    pub color: Rgba,
}

/// The cache key, picture and theme color of a file of a given kind (audio
/// files share the video picture).
pub open spec fn kind_icon(kind: FileKind, theme: FileTheme) -> (Seq<char>, Glyph, Rgba) {
    match kind {
        FileKind::Image => ("image"@, Glyph::Image, to_color_spec(theme.image@)),
        FileKind::Pdf => ("pdf"@, Glyph::Pdf, to_color_spec(theme.pdf@)),
        FileKind::Document => ("doc"@, Glyph::Doc, to_color_spec(theme.document@)),
        FileKind::Video => ("video"@, Glyph::Video, to_color_spec(theme.video@)),
        FileKind::Audio => ("audio"@, Glyph::Video, to_color_spec(theme.audio@)),
        FileKind::Archive => ("archive"@, Glyph::Archive, to_color_spec(theme.archive@)),
        FileKind::Code => ("code"@, Glyph::Code, to_color_spec(theme.code@)),
        FileKind::Font => ("font"@, Glyph::Font, to_color_spec(theme.font@)),
        FileKind::Executable => ("exe"@, Glyph::Exe, to_color_spec(theme.executable@)),
        FileKind::Unknown => ("file"@, Glyph::File, to_color_spec(theme.fallback@)),
    }
}

/// Each kind of file has its own picture, cache key and theme color:
/// images the image picture, PDFs the PDF one, documents the document one,
/// videos and audio files the video one, archives, code, fonts and
/// executables their own; only a file of unknown kind gets the generic
/// file picture.
pub proof fn law_kind_pictures(t: FileTheme)
    ensures
        kind_icon(FileKind::Image, t) == ("image"@, Glyph::Image, to_color_spec(t.image@)),
        kind_icon(FileKind::Pdf, t) == ("pdf"@, Glyph::Pdf, to_color_spec(t.pdf@)),
        kind_icon(FileKind::Document, t) == ("doc"@, Glyph::Doc, to_color_spec(t.document@)),
        kind_icon(FileKind::Video, t) == ("video"@, Glyph::Video, to_color_spec(t.video@)),
        kind_icon(FileKind::Audio, t) == ("audio"@, Glyph::Video, to_color_spec(t.audio@)),
        kind_icon(FileKind::Archive, t) == ("archive"@, Glyph::Archive, to_color_spec(t.archive@)),
        kind_icon(FileKind::Code, t) == ("code"@, Glyph::Code, to_color_spec(t.code@)),
        kind_icon(FileKind::Font, t) == ("font"@, Glyph::Font, to_color_spec(t.font@)),
        kind_icon(FileKind::Executable, t) == ("exe"@, Glyph::Exe, to_color_spec(t.executable@)),
        kind_icon(FileKind::Unknown, t) == ("file"@, Glyph::File, to_color_spec(t.fallback@)),
{
}

/// Files of different kinds never share a cache key, and share a picture
/// only for video and audio; the generic file picture and the folder
/// picture go to no known kind.
pub proof fn law_kind_pictures_distinct(t: FileTheme, a: FileKind, b: FileKind)
    ensures
        kind_icon(a, t).0 == kind_icon(b, t).0 ==> a == b,
        kind_icon(a, t).1 == kind_icon(b, t).1 ==> a == b || (a == FileKind::Video && b == FileKind::Audio) || (a
            == FileKind::Audio && b == FileKind::Video),
        (kind_icon(a, t).1 == Glyph::File) == (a == FileKind::Unknown),
        kind_icon(a, t).1 != Glyph::FolderOpen,
{
    reveal_strlit("image");
    reveal_strlit("pdf");
    reveal_strlit("doc");
    reveal_strlit("video");
    reveal_strlit("audio");
    reveal_strlit("archive");
    reveal_strlit("code");
    reveal_strlit("font");
    reveal_strlit("exe");
    reveal_strlit("file");
    let ka = kind_icon(a, t).0;
    let kb = kind_icon(b, t).0;
    if ka == kb {
        assert(ka.len() == kb.len() && ka[0] == kb[0] && ka[1] == kb[1]);
    }
}

/// Chooses the icon of a row.
///
/// A folder gets the open-folder picture; when it has an id (`unique_id`,
/// the id as text) it is cached per id and tinted with its own color
/// (`folder_color`) or the theme's folder color; without an id it is cached
/// as `folder-unknown` with the theme's folder color. A file gets the icon
/// of its kind.
pub fn resolve_icon(
    is_dir: bool,
    kind: FileKind,
    unique_id: Option<&str>,
    folder_color: Option<Rgba>,
    theme: &FileTheme,
) -> (r: ResolvedIcon)
    ensures
        is_dir ==> r.glyph == Glyph::FolderOpen,
        is_dir && unique_id is Some ==> r.cache_key@ == "folder-"@ + unique_id.unwrap()@
            && r.color == (match folder_color {
                Some(c) => c,
                None => to_color_spec(theme.folder_default@),
            }),
        is_dir && unique_id is None ==> r.cache_key@ == "folder-unknown"@ && r.color
            == to_color_spec(theme.folder_default@),
        !is_dir ==> (r.cache_key@, r.glyph, r.color) == kind_icon(kind, *theme),
{
    if is_dir {
        match unique_id {
            Some(id) => {
                let color = match folder_color {
                    Some(c) => c,
                    None => to_color(theme.folder_default.as_str()),
                };
                let mut key = "folder-".to_owned();
                append_str(&mut key, id);
                ResolvedIcon { cache_key: key, glyph: Glyph::FolderOpen, color }
            },
            None => ResolvedIcon {
                cache_key: "folder-unknown".to_owned(),
                glyph: Glyph::FolderOpen,
                color: to_color(theme.folder_default.as_str()),
            },
        }
    } else {
        let (key, glyph, color_src) = match kind {
            FileKind::Image => ("image", Glyph::Image, theme.image.as_str()),
            FileKind::Pdf => ("pdf", Glyph::Pdf, theme.pdf.as_str()),
            FileKind::Document => ("doc", Glyph::Doc, theme.document.as_str()),
            FileKind::Video => ("video", Glyph::Video, theme.video.as_str()),
            FileKind::Audio => ("audio", Glyph::Video, theme.audio.as_str()),
            FileKind::Archive => ("archive", Glyph::Archive, theme.archive.as_str()),
            FileKind::Code => ("code", Glyph::Code, theme.code.as_str()),
            FileKind::Font => ("font", Glyph::Font, theme.font.as_str()),
            FileKind::Executable => ("exe", Glyph::Exe, theme.executable.as_str()),
            FileKind::Unknown => ("file", Glyph::File, theme.fallback.as_str()),
        };
        ResolvedIcon { cache_key: key.to_owned(), glyph, color: to_color(color_src) }
    }
}

/// The state of a file in its Git repository.
#[derive(Clone, Copy, Debug, PartialEq, Eq, Structural)]
pub enum GitStatus {
    Modified,
    Staged,
    Untracked,
    Ignored,
    Conflict,
    Deleted,
    Clean,
}

/// The color of the dot drawn beside a file with a Git status; clean and
/// untracked-by-Git files have none.
pub open spec fn git_dot(git: Option<GitStatus>) -> Option<Rgba> {
    match git {
        Some(GitStatus::Modified) => Some(opaque(255, 200, 80)),
        Some(GitStatus::Staged) => Some(opaque(100, 220, 100)),
        Some(GitStatus::Untracked) => Some(opaque(160, 160, 160)),
        Some(GitStatus::Ignored) => Some(opaque(80, 80, 80)),
        Some(GitStatus::Conflict) => Some(opaque(255, 80, 80)),
        Some(GitStatus::Deleted) => Some(opaque(255, 60, 60)),
        Some(GitStatus::Clean) | None => None,
    }
}

/// The color of a file's name: it tells its Git status, and is the theme's
/// primary text color (`text_primary`) for a clean file or one outside Git.
pub open spec fn git_text(git: Option<GitStatus>, text_primary: Seq<char>) -> Rgba {
    match git {
        Some(GitStatus::Modified) => opaque(255, 200, 80),
        Some(GitStatus::Staged) => opaque(100, 220, 100),
        Some(GitStatus::Untracked) => opaque(160, 160, 160),
        Some(GitStatus::Ignored) => opaque(100, 100, 100),
        Some(GitStatus::Conflict) => opaque(255, 80, 80),
        Some(GitStatus::Deleted) => opaque(255, 60, 60),
        Some(GitStatus::Clean) | None => to_color_spec(text_primary),
    }
}

/// The color of a file's name for its Git status.
pub fn text_color_for_git(git: Option<GitStatus>, text_primary: &str) -> (c: Rgba)
    ensures
        c == git_text(git, text_primary@),
{
    match git {
        Some(GitStatus::Modified) => Rgba { r: 255, g: 200, b: 80, a: 255 },
        Some(GitStatus::Staged) => Rgba { r: 100, g: 220, b: 100, a: 255 },
        Some(GitStatus::Untracked) => Rgba { r: 160, g: 160, b: 160, a: 255 },
        Some(GitStatus::Ignored) => Rgba { r: 100, g: 100, b: 100, a: 255 },
        Some(GitStatus::Conflict) => Rgba { r: 255, g: 80, b: 80, a: 255 },
        Some(GitStatus::Deleted) => Rgba { r: 255, g: 60, b: 60, a: 255 },
        Some(GitStatus::Clean) | None => to_color(text_primary),
    }
}

/// The color of the Git dot of a file, if it gets one.
pub fn git_dot_color(git: Option<GitStatus>) -> (c: Option<Rgba>)
    ensures
        c == git_dot(git),
{
    match git {
        Some(GitStatus::Modified) => Some(Rgba { r: 255, g: 200, b: 80, a: 255 }),
        Some(GitStatus::Staged) => Some(Rgba { r: 100, g: 220, b: 100, a: 255 }),
        Some(GitStatus::Untracked) => Some(Rgba { r: 160, g: 160, b: 160, a: 255 }),
        Some(GitStatus::Ignored) => Some(Rgba { r: 80, g: 80, b: 80, a: 255 }),
        Some(GitStatus::Conflict) => Some(Rgba { r: 255, g: 80, b: 80, a: 255 }),
        Some(GitStatus::Deleted) => Some(Rgba { r: 255, g: 60, b: 60, a: 255 }),
        Some(GitStatus::Clean) | None => None,
    }
}

/// The key of the tooltip of a Git dot in the language files.
pub fn git_status_key(status: GitStatus) -> (k: &'static str)
    ensures
        k@ == (match status {
            GitStatus::Modified => "git_status.modified"@,
            GitStatus::Staged => "git_status.staged"@,
            GitStatus::Untracked => "git_status.untracked"@,
            GitStatus::Ignored => "git_status.ignored"@,
            GitStatus::Conflict => "git_status.conflict"@,
            GitStatus::Deleted => "git_status.deleted"@,
            GitStatus::Clean => "git_status.clean"@,
        }),
{
    match status {
        GitStatus::Modified => "git_status.modified",
        GitStatus::Staged => "git_status.staged",
        GitStatus::Untracked => "git_status.untracked",
        GitStatus::Ignored => "git_status.ignored",
        GitStatus::Conflict => "git_status.conflict",
        GitStatus::Deleted => "git_status.deleted",
        GitStatus::Clean => "git_status.clean",
    }
}

/// A file with a Git dot is one whose name is tinted by its status, with
/// the same color except for ignored files (whose dot is darker).
pub proof fn law_dot_matches_name(git: Option<GitStatus>, text_primary: Seq<char>)
    ensures
        git_dot(git) matches Some(c) ==> (git != Some(GitStatus::Ignored) ==> c == git_text(
            git,
            text_primary,
        )),
        git_dot(git) is None <==> (git is None || git == Some(GitStatus::Clean)),
{
}

/// The Git colors: modified files are yellow, staged ones green,
/// untracked ones light gray, ignored ones dark gray (their dot darker
/// still), conflicts red and deleted files a deeper red; no two statuses
/// share a dot color.
pub proof fn law_git_colors(a: GitStatus, b: GitStatus, text_primary: Seq<char>)
    ensures
        git_text(Some(GitStatus::Modified), text_primary) == opaque(255, 200, 80),
        git_text(Some(GitStatus::Staged), text_primary) == opaque(100, 220, 100),
        git_text(Some(GitStatus::Untracked), text_primary) == opaque(160, 160, 160),
        git_text(Some(GitStatus::Ignored), text_primary) == opaque(100, 100, 100),
        git_text(Some(GitStatus::Conflict), text_primary) == opaque(255, 80, 80),
        git_text(Some(GitStatus::Deleted), text_primary) == opaque(255, 60, 60),
        git_text(Some(GitStatus::Clean), text_primary) == to_color_spec(text_primary),
        git_text(None, text_primary) == to_color_spec(text_primary),
        git_dot(Some(GitStatus::Ignored)) == Some(opaque(80, 80, 80)),
        git_dot(Some(a)) is Some && git_dot(Some(a)) == git_dot(Some(b)) ==> a == b,
{
}

} // verus!
