use vstd::prelude::*;
use crate::text::{lowercase, str_equal, to_lowercase};

verus! {

/// The icon of a quick-access folder for its label once lowercased, in
/// Spanish or English (`default` for any other label).
pub open spec fn folder_icon_for_lower(lower: Seq<char>) -> Seq<char> {
    if lower == "home"@ {
        "home"@
    } else if lower == "escritorio"@ || lower == "desktop"@ {
        "desktop"@
    } else if lower == "descargas"@ || lower == "downloads"@ {
        "downloads"@
    } else if lower == "documentos"@ || lower == "documents"@ {
        "documents"@
    } else if lower == "imágenes"@ || lower == "imagenes"@ || lower == "pictures"@ || lower == "images"@ {
        "pictures"@
    } else if lower == "papelera"@ || lower == "trash"@ || lower == "basura"@ {
        "trash"@
    } else {
        "default"@
    }
}

/// The icon of a sidebar section for its label once lowercased.
pub open spec fn header_icon_for_lower(lower: Seq<char>) -> Seq<char> {
    if lower == "locales"@ {
        "locales"@
    } else if lower == "favoritos"@ || lower == "favorites"@ {
        "favorites"@
    } else if lower == "discos"@ || lower == "disks"@ {
        "disks"@
    } else {
        "default"@
    }
}

/// The icon of a quick-access folder from its lowercased label.
pub fn folder_icon_for(lower: &str) -> (r: &'static str)
    ensures
        r@ == folder_icon_for_lower(lower@),
{
    if str_equal(lower, "home") {
        "home"
    } else if str_equal(lower, "escritorio") || str_equal(lower, "desktop") {
        "desktop"
    } else if str_equal(lower, "descargas") || str_equal(lower, "downloads") {
        "downloads"
    } else if str_equal(lower, "documentos") || str_equal(lower, "documents") {
        "documents"
    } else if str_equal(lower, "imágenes") || str_equal(lower, "imagenes") || str_equal(lower, "pictures") || str_equal(lower, "images") {
        "pictures"
    } else if str_equal(lower, "papelera") || str_equal(lower, "trash") || str_equal(lower, "basura") {
        "trash"
    } else {
        "default"
    }
}

/// The icon of a sidebar section from its lowercased label.
pub fn header_icon_for(lower: &str) -> (r: &'static str)
    ensures
        r@ == header_icon_for_lower(lower@),
{
    if str_equal(lower, "locales") {
        "locales"
    } else if str_equal(lower, "favoritos") || str_equal(lower, "favorites") {
        "favorites"
    } else if str_equal(lower, "discos") || str_equal(lower, "disks") {
        "disks"
    } else {
        "default"
    }
}

/// The icon of a quick-access folder from its label, in any case.
pub fn get_folder_icon(label: &str) -> (r: &'static str)
    ensures
        r@ == folder_icon_for_lower(lowercase(label@)),
{
    let lower = to_lowercase(label);
    folder_icon_for(lower.as_str())
}

/// The icon of a sidebar section from its label, in any case.
pub fn get_herader_icon(label: &str) -> (r: &'static str)
    ensures
        r@ == header_icon_for_lower(lowercase(label@)),
{
    let lower = to_lowercase(label);
    header_icon_for(lower.as_str())
}

/// The name shown for a drive: `/` for the drive mounted at the root,
/// its display name otherwise.
pub fn drive_display_name(mountpoint: Option<&str>, display_name: &str) -> (r: String)
    ensures
        (mountpoint matches Some(m) && m@ == "/"@) ==> r@ == "/"@,
        !(mountpoint matches Some(m) && m@ == "/"@) ==> r@ == display_name@,
{
    match mountpoint {
        Some(m) => {
            if str_equal(m, "/") {
                "/".to_owned()
            } else {
                display_name.to_owned()
            }
        },
        None => display_name.to_owned(),
    }
}

/// The icon of a drive: the system drive, a removable drive, or any other.
pub fn drive_icon(is_system: bool, is_removable: bool) -> (r: &'static str)
    ensures
        r@ == (if is_system {
            "system"@
        } else if is_removable {
            "usb"@
        } else {
            "server"@
        }),
{
    if is_system {
        "system"
    } else if is_removable {
        "usb"
    } else {
        "server"
    }
}

/// Where a click on a drive goes: its mount point, nowhere when it is not
/// mounted.
pub fn drive_click_target(mountpoint: Option<&str>) -> (r: Option<String>)
    ensures
        match mountpoint {
            Some(m) => r matches Some(p) && p@ == m@,
            None => r is None,
        },
{
    match mountpoint {
        Some(m) => Some(m.to_owned()),
        None => None,
    }
}


/// A Spanish label gets the icon of its English counterpart: the desktop,
/// downloads, documents, pictures and trash folders, and the favorites and
/// disks sections; an empty label gets the default icon.
pub proof fn law_spanish_labels()
    ensures
        folder_icon_for_lower("descargas"@) == "downloads"@,
        folder_icon_for_lower("documentos"@) == "documents"@,
        folder_icon_for_lower("imágenes"@) == "pictures"@,
        folder_icon_for_lower("papelera"@) == "trash"@,
        folder_icon_for_lower("basura"@) == "trash"@,
        folder_icon_for_lower("escritorio"@) == "desktop"@,
        header_icon_for_lower("favoritos"@) == "favorites"@,
        header_icon_for_lower("discos"@) == "disks"@,
        folder_icon_for_lower(Seq::<char>::empty()) == "default"@,
        header_icon_for_lower(Seq::<char>::empty()) == "default"@,
{
    reveal_strlit("basura");
    reveal_strlit("default");
    reveal_strlit("descargas");
    reveal_strlit("desktop");
    reveal_strlit("discos");
    reveal_strlit("disks");
    reveal_strlit("documentos");
    reveal_strlit("documents");
    reveal_strlit("downloads");
    reveal_strlit("escritorio");
    reveal_strlit("favorites");
    reveal_strlit("favoritos");
    reveal_strlit("home");
    reveal_strlit("imagenes");
    reveal_strlit("images");
    reveal_strlit("imágenes");
    reveal_strlit("locales");
    reveal_strlit("papelera");
    reveal_strlit("pictures");
    reveal_strlit("trash");
    assert("descargas"@.len() != "home"@.len());
    assert("descargas"@.len() != "escritorio"@.len());
    assert("descargas"@.len() != "desktop"@.len());
    assert("documentos"@.len() != "home"@.len());
    assert("documentos"@[0] != "escritorio"@[0]);
    assert("documentos"@.len() != "desktop"@.len());
    assert("documentos"@.len() != "descargas"@.len());
    assert("documentos"@.len() != "downloads"@.len());
    assert("imágenes"@.len() != "home"@.len());
    assert("imágenes"@.len() != "escritorio"@.len());
    assert("imágenes"@.len() != "desktop"@.len());
    assert("imágenes"@.len() != "descargas"@.len());
    assert("imágenes"@.len() != "downloads"@.len());
    assert("imágenes"@.len() != "documentos"@.len());
    assert("imágenes"@.len() != "documents"@.len());
    assert("papelera"@.len() != "home"@.len());
    assert("papelera"@.len() != "escritorio"@.len());
    assert("papelera"@.len() != "desktop"@.len());
    assert("papelera"@.len() != "descargas"@.len());
    assert("papelera"@.len() != "downloads"@.len());
    assert("papelera"@.len() != "documentos"@.len());
    assert("papelera"@.len() != "documents"@.len());
    assert("papelera"@[0] != "imágenes"@[0]);
    assert("papelera"@[0] != "imagenes"@[0]);
    assert("papelera"@[1] != "pictures"@[1]);
    assert("papelera"@.len() != "images"@.len());
    assert("basura"@.len() != "home"@.len());
    assert("basura"@.len() != "escritorio"@.len());
    assert("basura"@.len() != "desktop"@.len());
    assert("basura"@.len() != "descargas"@.len());
    assert("basura"@.len() != "downloads"@.len());
    assert("basura"@.len() != "documentos"@.len());
    assert("basura"@.len() != "documents"@.len());
    assert("basura"@.len() != "imágenes"@.len());
    assert("basura"@.len() != "imagenes"@.len());
    assert("basura"@.len() != "pictures"@.len());
    assert("basura"@[0] != "images"@[0]);
    assert("basura"@.len() != "papelera"@.len());
    assert("basura"@.len() != "trash"@.len());
    assert("favoritos"@.len() != "locales"@.len());
    assert("discos"@.len() != "locales"@.len());
    assert("discos"@.len() != "favoritos"@.len());
    assert("discos"@.len() != "favorites"@.len());
}

} // verus!
