use blaze_app::sidebar::components::{get_folder_icon as icon_for_key, get_header_icon};
use blaze_app::sidebar::legacy::{
    drive_click_target, drive_display_name, drive_icon, folder_icon_for, get_folder_icon,
    get_herader_icon, header_icon_for,
};

#[test]
fn folder_icons_by_label() {
    assert_eq!(get_folder_icon("Descargas"), "downloads");
    assert_eq!(get_folder_icon("DESKTOP"), "desktop");
    assert_eq!(get_folder_icon("Imágenes"), "pictures");
    assert_eq!(get_folder_icon("IMÁGENES"), "pictures");
    assert_eq!(get_folder_icon("Basura"), "trash");
    assert_eq!(get_folder_icon("Proyectos"), "default");
    assert_eq!(folder_icon_for("documentos"), "documents");
    assert_eq!(folder_icon_for("Documentos"), "default");
}

#[test]
fn header_icons_by_label() {
    assert_eq!(get_herader_icon("FAVORITOS"), "favorites");
    assert_eq!(get_herader_icon("Locales"), "locales");
    assert_eq!(get_herader_icon("Discos"), "disks");
    assert_eq!(header_icon_for("otros"), "default");
}

#[test]
fn icons_by_key() {
    assert_eq!(icon_for_key("pictures"), "images");
    assert_eq!(icon_for_key("images"), "images");
    assert_eq!(icon_for_key("music"), "music");
    assert_eq!(icon_for_key("Music"), "default");
    assert_eq!(get_header_icon("locals"), "locales");
    assert_eq!(get_header_icon("disks"), "disks");
    assert_eq!(get_header_icon("x"), "default");
}

#[test]
fn drives() {
    assert_eq!(drive_display_name(Some("/"), "Sistema"), "/");
    assert_eq!(drive_display_name(Some("/media/usb"), "USB"), "USB");
    assert_eq!(drive_display_name(None, "Disco"), "Disco");
    assert_eq!(drive_icon(true, true), "system");
    assert_eq!(drive_icon(false, true), "usb");
    assert_eq!(drive_icon(false, false), "server");
    assert_eq!(drive_click_target(Some("/mnt/a")), Some("/mnt/a".to_string()));
    assert_eq!(drive_click_target(None), None);
}
