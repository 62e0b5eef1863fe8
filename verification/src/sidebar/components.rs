use vstd::prelude::*;
use crate::text::str_equal;

verus! {

/// The icon of a quick-access folder for its key (`default` for any other
/// key).
pub open spec fn folder_icon_for_key(key: Seq<char>) -> Seq<char> {
    if key == "home"@ {
        "home"@
    } else if key == "desktop"@ {
        "desktop"@
    } else if key == "downloads"@ {
        "downloads"@
    } else if key == "documents"@ {
        "documents"@
    } else if key == "pictures"@ || key == "images"@ {
        "images"@
    } else if key == "trash"@ {
        "trash"@
    } else if key == "videos"@ {
        "videos"@
    } else if key == "public"@ {
        "public"@
    } else if key == "music"@ {
        "music"@
    } else {
        "default"@
    }
}

/// The icon of a sidebar section for its key.
pub open spec fn header_icon_for_key(key: Seq<char>) -> Seq<char> {
    if key == "locals"@ {
        "locales"@
    } else if key == "favorites"@ {
        "favorites"@
    } else if key == "disks"@ {
        "disks"@
    } else {
        "default"@
    }
}

/// The icon of a quick-access folder from its key.
pub fn get_folder_icon(key: &str) -> (r: &'static str)
    ensures
        r@ == folder_icon_for_key(key@),
{
    if str_equal(key, "home") {
        "home"
    } else if str_equal(key, "desktop") {
        "desktop"
    } else if str_equal(key, "downloads") {
        "downloads"
    } else if str_equal(key, "documents") {
        "documents"
    } else if str_equal(key, "pictures") || str_equal(key, "images") {
        "images"
    } else if str_equal(key, "trash") {
        "trash"
    } else if str_equal(key, "videos") {
        "videos"
    } else if str_equal(key, "public") {
        "public"
    } else if str_equal(key, "music") {
        "music"
    } else {
        "default"
    }
}

/// The icon of a sidebar section from its key.
pub fn get_header_icon(key: &str) -> (r: &'static str)
    ensures
        r@ == header_icon_for_key(key@),
{
    if str_equal(key, "locals") {
        "locales"
    } else if str_equal(key, "favorites") {
        "favorites"
    } else if str_equal(key, "disks") {
        "disks"
    } else {
        "default"
    }
}


/// Each quick-access folder key gets its own icon (pictures share the
/// images icon), each sidebar section its own, and any other key the
/// default icon.
pub proof fn law_sidebar_icons_by_key(key: Seq<char>)
    ensures
        folder_icon_for_key("home"@) == "home"@,
        folder_icon_for_key("desktop"@) == "desktop"@,
        folder_icon_for_key("downloads"@) == "downloads"@,
        folder_icon_for_key("documents"@) == "documents"@,
        folder_icon_for_key("pictures"@) == "images"@,
        folder_icon_for_key("images"@) == "images"@,
        folder_icon_for_key("trash"@) == "trash"@,
        folder_icon_for_key("videos"@) == "videos"@,
        folder_icon_for_key("public"@) == "public"@,
        folder_icon_for_key("music"@) == "music"@,
        key != "home"@ && key != "desktop"@ && key != "downloads"@ && key != "documents"@ && key != "pictures"@ && key != "images"@ && key != "trash"@ && key != "videos"@ && key != "public"@ && key != "music"@ ==> folder_icon_for_key(key) == "default"@,
        header_icon_for_key("locals"@) == "locales"@,
        header_icon_for_key("favorites"@) == "favorites"@,
        header_icon_for_key("disks"@) == "disks"@,
        key != "locals"@ && key != "favorites"@ && key != "disks"@ ==> header_icon_for_key(key) == "default"@,
{
    reveal_strlit("default");
    reveal_strlit("desktop");
    reveal_strlit("disks");
    reveal_strlit("documents");
    reveal_strlit("downloads");
    reveal_strlit("favorites");
    reveal_strlit("home");
    reveal_strlit("images");
    reveal_strlit("locales");
    reveal_strlit("locals");
    reveal_strlit("music");
    reveal_strlit("pictures");
    reveal_strlit("public");
    reveal_strlit("trash");
    reveal_strlit("videos");
}

} // verus!
