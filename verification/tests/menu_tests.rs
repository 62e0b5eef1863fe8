use blaze_app::context_menu::{
    background_menu, drives_menu, file_menu, new_item_default_name, rename_buffer_for, trash_menu,
    ContextMenuKind, ContextMenuState, FileMenuFacts, MenuAction, MenuEntry, NewItemType,
};
use blaze_app::interactions::{
    drop_action, is_blank, menu_kind_for, new_item_outcome, rename_outcome, DropAction,
    NewItemOutcome, RenameOutcome,
};

fn actions(entries: &[MenuEntry]) -> Vec<Option<MenuAction>> {
    entries
        .iter()
        .map(|e| match e {
            MenuEntry::Button(b) => Some(b.action),
            MenuEntry::Separator => None,
        })
        .collect()
}

fn button(entries: &[MenuEntry], action: MenuAction) -> blaze_app::context_menu::MenuButton {
    for e in entries {
        if let MenuEntry::Button(b) = e {
            if b.action == action {
                return *b;
            }
        }
    }
    panic!("no such button");
}

#[test]
fn menu_state_opens_and_closes() {
    let mut m = ContextMenuState::new();
    assert!(!m.open);
    assert_eq!(m.kind, ContextMenuKind::Nothing);
    assert_eq!(ContextMenuKind::default(), ContextMenuKind::Nothing);
    m.handle_response(true, false, false);
    assert!(m.open && m.just_opened);
    m.kind = ContextMenuKind::FileNormal;
    m.handle_response(false, true, true);
    assert!(m.open);
    m.handle_response(false, false, true);
    assert!(!m.open);
    assert_eq!(m.kind, ContextMenuKind::FileNormal);
    m.close();
    assert_eq!(m.kind, ContextMenuKind::Nothing);
}

#[test]
fn internal_response_closes_on_escape_or_outside_click() {
    let mut m = ContextMenuState::new();
    m.handle_response(true, false, false);
    m.handle_internal_response(true, false, true);
    assert!(m.open);
    m.handle_internal_response(true, true, false);
    assert!(!m.open);
    m.handle_response(true, false, false);
    m.handle_internal_response(false, false, true);
    assert!(!m.open);
}

#[test]
fn drive_menus() {
    let unmounted = drives_menu(true, true, false);
    assert_eq!(actions(&unmounted), vec![Some(MenuAction::Mount), Some(MenuAction::Eject)]);
    let fixed = drives_menu(true, false, false);
    assert_eq!(actions(&fixed), vec![Some(MenuAction::Mount)]);
    let system = drives_menu(false, false, true);
    assert_eq!(actions(&system), vec![Some(MenuAction::Open), Some(MenuAction::Unmount)]);
    assert!(!button(&system, MenuAction::Unmount).enabled);
    let data = drives_menu(false, true, false);
    assert!(button(&data, MenuAction::Unmount).enabled);
}

#[test]
fn trash_and_background_menus() {
    assert_eq!(
        actions(&trash_menu()),
        vec![Some(MenuAction::Restore), None, Some(MenuAction::DeleteForever)]
    );
    let bg = background_menu(false);
    assert_eq!(
        actions(&bg),
        vec![
            Some(MenuAction::NewTab),
            None,
            Some(MenuAction::PasteHere),
            None,
            Some(MenuAction::OpenTerminal),
            None,
            Some(MenuAction::NewFolder),
            Some(MenuAction::NewFile)
        ]
    );
    let paste = button(&bg, MenuAction::PasteHere);
    assert!(!paste.enabled);
    assert_eq!(paste.icon, "clipboard-disabled");
    assert!(button(&background_menu(true), MenuAction::PasteHere).enabled);
}

#[test]
fn file_menu_of_an_image() {
    let f = FileMenuFacts {
        is_image: true,
        is_dir: false,
        is_archive: false,
        clipboard_has_files: true,
        is_in_favorites: false,
    };
    let m = file_menu(f);
    assert_eq!(
        actions(&m),
        vec![
            Some(MenuAction::Preview),
            None,
            Some(MenuAction::Open),
            Some(MenuAction::PasteHere),
            Some(MenuAction::Copy),
            Some(MenuAction::Cut),
            None,
            Some(MenuAction::AddFavorite),
            None,
            Some(MenuAction::MoveToTrash),
            Some(MenuAction::Rename)
        ]
    );
    assert!(!button(&m, MenuAction::PasteHere).enabled);
    let open = button(&m, MenuAction::Open);
    assert_eq!(open.alternative.map(|a| a.0), Some(MenuAction::OpenWith));
}

#[test]
fn file_menu_of_a_favorite_folder_with_clipboard() {
    let f = FileMenuFacts {
        is_image: false,
        is_dir: true,
        is_archive: true,
        clipboard_has_files: true,
        is_in_favorites: true,
    };
    let m = file_menu(f);
    assert_eq!(
        actions(&m),
        vec![
            Some(MenuAction::Open),
            Some(MenuAction::PasteHere),
            Some(MenuAction::Copy),
            Some(MenuAction::Cut),
            Some(MenuAction::ExtractHere),
            None,
            Some(MenuAction::FolderColor),
            Some(MenuAction::RemoveFavorite),
            None,
            Some(MenuAction::MoveToTrash),
            Some(MenuAction::Rename)
        ]
    );
    assert!(button(&m, MenuAction::PasteHere).enabled);
    assert_eq!(button(&m, MenuAction::PasteHere).icon, "clipboard");
    assert_eq!(
        button(&m, MenuAction::Open).alternative.map(|a| a.0),
        Some(MenuAction::OpenInNewTab)
    );
}

#[test]
fn rename_and_new_item_texts() {
    assert_eq!(rename_buffer_for("Foto ÁRBOL.PNG"), "Foto ÁRBOL.PNG");
    assert_eq!(new_item_default_name(NewItemType::File), "nuevo archivo");
    assert_eq!(new_item_default_name(NewItemType::Folder), "nueva carpeta");
}

#[test]
fn blank_names() {
    assert!(is_blank(""));
    assert!(is_blank("  \t\n"));
    assert!(is_blank("\u{3000}"));
    assert!(!is_blank(" a "));
}

#[test]
fn new_item_field() {
    assert_eq!(new_item_outcome(true, false, false, "docs"), NewItemOutcome::Create);
    assert_eq!(new_item_outcome(true, false, true, "   "), NewItemOutcome::Keep);
    assert_eq!(new_item_outcome(false, true, false, "docs"), NewItemOutcome::Cancel);
    assert_eq!(new_item_outcome(false, false, true, "docs"), NewItemOutcome::Cancel);
    assert_eq!(new_item_outcome(true, true, false, "   "), NewItemOutcome::Cancel);
    assert_eq!(new_item_outcome(false, false, false, "docs"), NewItemOutcome::Keep);
}

#[test]
fn rename_field() {
    assert_eq!(rename_outcome(true, true, false, false, false), RenameOutcome::Commit);
    assert_eq!(rename_outcome(false, true, false, false, true), RenameOutcome::Keep);
    assert_eq!(rename_outcome(true, false, true, false, true), RenameOutcome::Cancel);
    assert_eq!(rename_outcome(false, false, false, true, false), RenameOutcome::Cancel);
    assert_eq!(rename_outcome(false, false, false, true, true), RenameOutcome::Keep);
}

#[test]
fn dropping_files() {
    assert_eq!(drop_action(false, true, false), DropAction::Nothing);
    assert_eq!(drop_action(true, true, true), DropAction::MoveToTarget);
    assert_eq!(drop_action(true, false, false), DropAction::MoveToCwd);
    assert_eq!(drop_action(true, false, true), DropAction::NothingStillDragging);
}

#[test]
fn menu_kinds() {
    assert_eq!(menu_kind_for(true, false), ContextMenuKind::FileNormal);
    assert_eq!(menu_kind_for(true, true), ContextMenuKind::FileTrash);
    assert_eq!(menu_kind_for(false, false), ContextMenuKind::BackgroundNormal);
    assert_eq!(menu_kind_for(false, true), ContextMenuKind::BackgroundTrash);
}

#[test]
fn closing_forgets_file_and_dispatcher_but_keeps_the_drive() {
    let mut m = ContextMenuState::new();
    assert_eq!(m.target_file, None);
    m.handle_response(true, false, false);
    m.kind = ContextMenuKind::FileNormal;
    m.target_file = Some("/home/ana/a.txt".to_string());
    m.target_sender = Some(7);
    m.target_drive = Some("sda1".to_string());
    m.handle_internal_response(false, false, false);
    assert_eq!(m.target_file.as_deref(), Some("/home/ana/a.txt"));
    m.close();
    assert!(!m.open);
    assert_eq!(m.kind, ContextMenuKind::Nothing);
    assert_eq!(m.target_file, None);
    assert_eq!(m.target_sender, None);
    assert_eq!(m.target_drive.as_deref(), Some("sda1"));
    m.target_sender = Some(3);
    m.handle_response(true, false, false);
    assert_eq!(m.target_sender, None);
}

use blaze_app::interactions::{tab_bar_height, tab_bar_shown, tool_button_acts, ToolButton};

#[test]
fn toolbar_buttons_need_a_selection_or_clipboard() {
    assert!(!tool_button_acts(ToolButton::Cut, false, true));
    assert!(tool_button_acts(ToolButton::Copy, true, false));
    assert!(!tool_button_acts(ToolButton::Delete, false, false));
    assert!(!tool_button_acts(ToolButton::Paste, true, false));
    assert!(tool_button_acts(ToolButton::Paste, false, true));
    assert!(tool_button_acts(ToolButton::Refresh, false, false));
    assert!(tool_button_acts(ToolButton::NewFolder, false, false));
}

#[test]
fn tab_bar_only_with_several_tabs() {
    assert!(!tab_bar_shown(0));
    assert!(!tab_bar_shown(1));
    assert!(tab_bar_shown(2));
    assert_eq!(tab_bar_height(1), 0);
    assert_eq!(tab_bar_height(3), 50);
}

#[test]
fn whitespace_matches_std_on_every_char() {
    for u in 0u32..=0x10FFFF {
        if let Some(c) = char::from_u32(u) {
            assert_eq!(blaze_app::interactions::is_whitespace(c), c.is_whitespace(), "U+{:04X}", u);
        }
    }
}

use blaze_app::context_menu::{MenuEffect, MenuFacts};

fn facts(is_dir: bool, clipboard: bool) -> MenuFacts {
    MenuFacts {
        drive_unmounted: false,
        drive_removable: false,
        drive_system: false,
        file: FileMenuFacts {
            is_image: false,
            is_dir,
            is_archive: false,
            clipboard_has_files: clipboard,
            is_in_favorites: false,
        },
        has_folder_id: true,
    }
}

fn open_menu(kind: ContextMenuKind) -> ContextMenuState {
    let mut s = ContextMenuState::new();
    s.open = true;
    s.kind = kind;
    s.target_file = Some("/home/ana/doc".to_string());
    s.target_sender = Some(7);
    s.target_drive = Some("sda1".to_string());
    s
}

#[test]
fn choosing_a_file_entry_acts_and_closes() {
    let mut s = open_menu(ContextMenuKind::FileNormal);
    assert_eq!(s.pick(MenuAction::Open, facts(true, false)), MenuEffect::NavigateToTarget);
    assert!(!s.open);
    assert_eq!(s.kind, ContextMenuKind::Nothing);
    assert_eq!(s.target_file, None);
    assert_eq!(s.target_sender, None);
    assert_eq!(s.target_drive, Some("sda1".to_string()));

    let mut s = open_menu(ContextMenuKind::FileNormal);
    assert_eq!(s.pick(MenuAction::Open, facts(false, false)), MenuEffect::OpenFile);
    let mut s = open_menu(ContextMenuKind::FileNormal);
    assert_eq!(s.pick(MenuAction::OpenWith, facts(false, false)), MenuEffect::OpenFileWith);
    let mut s = open_menu(ContextMenuKind::FileNormal);
    assert_eq!(s.pick(MenuAction::Rename, facts(false, false)), MenuEffect::StartRename);
}

#[test]
fn entries_not_offered_do_nothing() {
    // A file offers no "open in new tab", and paste needs a folder and a clipboard.
    let mut s = open_menu(ContextMenuKind::FileNormal);
    assert_eq!(s.pick(MenuAction::OpenInNewTab, facts(false, true)), MenuEffect::Nothing);
    assert!(s.open);
    assert_eq!(s.pick(MenuAction::PasteHere, facts(false, true)), MenuEffect::Nothing);
    assert_eq!(s.pick(MenuAction::PasteHere, facts(true, true)), MenuEffect::PasteInTarget);
    // A closed menu does nothing.
    let mut c = ContextMenuState::new();
    assert_eq!(c.pick(MenuAction::NewTab, facts(false, false)), MenuEffect::Nothing);
}

#[test]
fn background_and_trash_entries() {
    let mut s = open_menu(ContextMenuKind::BackgroundNormal);
    assert_eq!(
        s.pick(MenuAction::NewFolder, facts(false, false)),
        MenuEffect::StartNewItem(NewItemType::Folder)
    );
    assert!(!s.open);
    let mut s = open_menu(ContextMenuKind::BackgroundNormal);
    assert_eq!(s.pick(MenuAction::PasteHere, facts(false, false)), MenuEffect::Nothing);
    assert_eq!(s.pick(MenuAction::PasteHere, facts(false, true)), MenuEffect::PasteInFolderShown);

    let mut t = open_menu(ContextMenuKind::BackgroundTrash);
    assert_eq!(t.pick(MenuAction::Restore, facts(false, false)), MenuEffect::RestoreSelected);
    assert!(t.open);
    let mut t = open_menu(ContextMenuKind::FileTrash);
    assert_eq!(
        t.pick(MenuAction::DeleteForever, facts(false, false)),
        MenuEffect::ConfirmDeleteSelected
    );
    assert!(!t.open);
}

#[test]
fn drive_entries_and_folder_color_without_id() {
    let mut f = facts(true, false);
    f.drive_system = true;
    let mut d = open_menu(ContextMenuKind::DrivesPanel);
    assert_eq!(d.pick(MenuAction::Unmount, f), MenuEffect::Nothing);
    assert_eq!(d.pick(MenuAction::Open, f), MenuEffect::OpenDrive);
    f.drive_unmounted = true;
    f.drive_removable = true;
    let mut d = open_menu(ContextMenuKind::DrivesPanel);
    assert_eq!(d.pick(MenuAction::Eject, f), MenuEffect::EjectDrive);

    let mut g = facts(true, false);
    g.has_folder_id = false;
    let mut s = open_menu(ContextMenuKind::FileNormal);
    assert_eq!(s.pick(MenuAction::FolderColor, g), MenuEffect::Nothing);
    assert!(s.open);
}
