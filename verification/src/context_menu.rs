use vstd::prelude::*;

verus! {

/// Which context menu is open.
#[derive(Clone, Copy, Debug, PartialEq, Eq, Structural)]
pub enum ContextMenuKind {
    /// No menu is open.
    Nothing,
    FileNormal,
    FileTrash,
    BackgroundNormal,
    BackgroundTrash,
    DrivesPanel,
}

impl Default for ContextMenuKind {
    fn default() -> (k: Self)
        ensures
            k == ContextMenuKind::Nothing,
    {
        ContextMenuKind::Nothing
    }
}

/// Whether the custom context menu is open, which one it is, and what it
/// acts on: the file (by its full path), the tab whose dispatcher receives
/// the chosen action (by the tab's id) and the drive (by its id). The place
/// it opens at is a point in floating point, kept by the interface beside it.
#[derive(Clone, Debug)]
pub struct ContextMenuState {
    pub open: bool,
    pub kind: ContextMenuKind,
    pub target_file: Option<String>,
    pub target_sender: Option<u128>,
    pub target_drive: Option<String>,
    pub just_opened: bool,
}

impl ContextMenuState {
    /// A closed menu that acts on nothing.
    pub fn new() -> (s: Self)
        ensures
            !s.open,
            s.kind == ContextMenuKind::Nothing,
            s.target_file is None,
            s.target_sender is None,
            s.target_drive is None,
            !s.just_opened,
    {
        ContextMenuState {
            open: false,
            kind: ContextMenuKind::Nothing,
            target_file: None,
            target_sender: None,
            target_drive: None,
            just_opened: false,
        }
    }

    /// Forgets what the menu acts on: its kind, file and dispatcher; the
    /// drive stays.
    pub fn clear_targets(&mut self)
        ensures
            final(self).kind == ContextMenuKind::Nothing,
            final(self).target_file is None,
            final(self).target_sender is None,
            final(self).target_drive == old(self).target_drive,
            final(self).open == old(self).open,
            final(self).just_opened == old(self).just_opened,
    {
        self.kind = ContextMenuKind::Nothing;
        self.target_file = None;
        self.target_sender = None;
    }

    /// Closes the menu and forgets what it acts on (the drive stays).
    pub fn close(&mut self)
        ensures
            !final(self).open,
            final(self).kind == ContextMenuKind::Nothing,
            final(self).target_file is None,
            final(self).target_sender is None,
            final(self).target_drive == old(self).target_drive,
            final(self).just_opened == old(self).just_opened,
    {
        self.open = false;
        self.clear_targets();
    }

    /// Reacts to the response of the widget the menu belongs to: a
    /// secondary click opens the menu afresh (targets cleared, so that the
    /// caller sets them); an open menu closes on a click or drag elsewhere
    /// unless a text field has the focus.
    pub fn handle_response(&mut self, secondary_clicked: bool, text_focused: bool, clicked_elsewhere: bool)
        ensures
            final(self).kind == (if secondary_clicked { ContextMenuKind::Nothing } else { old(self).kind }),
            final(self).target_file == (if secondary_clicked { None } else { old(self).target_file }),
            final(self).target_sender == (if secondary_clicked { None } else { old(self).target_sender }),
            final(self).target_drive == old(self).target_drive,
            final(self).just_opened == (secondary_clicked || old(self).just_opened),
            final(self).open == ((secondary_clicked || old(self).open) && (text_focused
                || !clicked_elsewhere)),
    {
        if secondary_clicked {
            self.open = true;
            self.just_opened = true;
            self.clear_targets();
        }
        if self.open {
            if !text_focused {
                if clicked_elsewhere {
                    self.open = false;
                }
            }
        }
    }

    /// Reacts to input while the menu is shown: with a text field focused
    /// only Escape closes it; otherwise a click outside the menu or Escape
    /// does. What the menu acts on stays.
    pub fn handle_internal_response(&mut self, text_edit_focused: bool, escape: bool, clicked_outside: bool)
        ensures
            final(self).kind == old(self).kind,
            final(self).target_file == old(self).target_file,
            final(self).target_sender == old(self).target_sender,
            final(self).target_drive == old(self).target_drive,
            final(self).just_opened == old(self).just_opened,
            final(self).open == (old(self).open && !escape && (text_edit_focused || !clicked_outside)),
    {
        if text_edit_focused {
            if escape {
                self.open = false;
            }
            return;
        }
        if clicked_outside || escape {
            self.open = false;
        }
    }
}

/// What a menu entry does.
#[derive(Clone, Copy, Debug, PartialEq, Eq, Structural)]
pub enum MenuAction {
    Mount,
    Open,
    Eject,
    Unmount,
    Restore,
    DeleteForever,
    NewTab,
    PasteHere,
    OpenTerminal,
    NewFolder,
    NewFile,
    Preview,
    OpenWith,
    OpenInNewTab,
    Copy,
    Cut,
    ExtractHere,
    FolderColor,
    AddFavorite,
    RemoveFavorite,
    MoveToTrash,
    Rename,
}

/// A button of a context menu: its action, label, shortcut hint, icon and
/// whether it can be clicked. `alternative` is the entry of the small popup
/// that a secondary click on the button shows (action, label, icon).
#[derive(Clone, Copy, Debug)]
pub struct MenuButton {
    pub action: MenuAction,
    pub label: &'static str,
    pub hint: &'static str,
    pub icon: &'static str,
    pub enabled: bool,
    pub alternative: Option<(MenuAction, &'static str, &'static str)>,
}

/// An entry of a context menu.
#[derive(Clone, Copy, Debug)]
pub enum MenuEntry {
    Button(MenuButton),
    Separator,
}

pub open spec fn button(
    action: MenuAction,
    label: &'static str,
    hint: &'static str,
    icon: &'static str,
    enabled: bool,
) -> MenuEntry {
    MenuEntry::Button(MenuButton { action, label, hint, icon, enabled, alternative: None })
}

fn make_button(
    action: MenuAction,
    label: &'static str,
    hint: &'static str,
    icon: &'static str,
    enabled: bool,
) -> (e: MenuEntry)
    ensures
        e == button(action, label, hint, icon, enabled),
{
    MenuEntry::Button(MenuButton { action, label, hint, icon, enabled, alternative: None })
}

/// The menu of a drive. `unmounted` is whether the drive has no mount
/// point: it offers to mount it (and to eject it when removable); a mounted
/// drive offers to open it and to unmount it, which is disabled for the
/// system drive.
pub open spec fn drives_menu_spec(unmounted: bool, is_removable: bool, is_system: bool) -> Seq<MenuEntry> {
    let first = if unmounted {
        button(MenuAction::Mount, "Montar", "", "mount", true)
    } else {
        button(MenuAction::Open, "Abrir", "", "folder-open", true)
    };
    let eject = if unmounted && is_removable {
        seq![button(MenuAction::Eject, "Expulsar", "", "eject", true)]
    } else {
        seq![]
    };
    let unmount = if !unmounted {
        seq![button(MenuAction::Unmount, "Desmontar", "", "unmount", !is_system)]
    } else {
        seq![]
    };
    seq![first] + eject + unmount
}

/// The entries of a drive's menu.
pub fn drives_menu(unmounted: bool, is_removable: bool, is_system: bool) -> (r: Vec<MenuEntry>)
    ensures
        r@ == drives_menu_spec(unmounted, is_removable, is_system),
{
    let mut r: Vec<MenuEntry> = Vec::new();
    if unmounted {
        r.push(make_button(MenuAction::Mount, "Montar", "", "mount", true));
    } else {
        r.push(make_button(MenuAction::Open, "Abrir", "", "folder-open", true));
    }
    if unmounted && is_removable {
        r.push(make_button(MenuAction::Eject, "Expulsar", "", "eject", true));
    }
    if !unmounted {
        r.push(make_button(MenuAction::Unmount, "Desmontar", "", "unmount", !is_system));
    }
    assert(r@ =~= drives_menu_spec(unmounted, is_removable, is_system));
    r
}

/// The menu of the trash, on the background or on a file: restore, then
/// delete for good.
pub open spec fn trash_menu_spec() -> Seq<MenuEntry> {
    seq![
        button(MenuAction::Restore, "Restaurar", "", "restore", true),
        MenuEntry::Separator,
        button(MenuAction::DeleteForever, "Eliminar", "Supr", "trash-forever", true),
    ]
}

/// The entries of the trash menu.
pub fn trash_menu() -> (r: Vec<MenuEntry>)
    ensures
        r@ == trash_menu_spec(),
{
    let mut r: Vec<MenuEntry> = Vec::new();
    r.push(make_button(MenuAction::Restore, "Restaurar", "", "restore", true));
    r.push(MenuEntry::Separator);
    r.push(make_button(MenuAction::DeleteForever, "Eliminar", "Supr", "trash-forever", true));
    assert(r@ =~= trash_menu_spec());
    r
}

/// The menu of the background of a folder (below the search field): new
/// tab, paste (enabled when the clipboard holds files), terminal, new
/// folder and new file.
pub open spec fn background_menu_spec(has_clipboard: bool) -> Seq<MenuEntry> {
    seq![
        button(MenuAction::NewTab, "Nueva pestaña", "Ctrl + N", "tab-icon", true),
        MenuEntry::Separator,
        button(
            MenuAction::PasteHere,
            "Pegar aquí",
            "Ctrl + V",
            if has_clipboard { "clipboard" } else { "clipboard-disabled" },
            has_clipboard,
        ),
        MenuEntry::Separator,
        button(MenuAction::OpenTerminal, "Abrir terminal aqui", "Alt + T", "terminal", true),
        MenuEntry::Separator,
        button(MenuAction::NewFolder, "Nueva carpeta", "Ctrl + Shfit + N", "plus-folder", true),
        button(MenuAction::NewFile, "Nuevo archivo", "Ctrl + Shfit + F", "plus-file", true),
    ]
}

/// The entries of the background menu.
pub fn background_menu(has_clipboard: bool) -> (r: Vec<MenuEntry>)
    ensures
        r@ == background_menu_spec(has_clipboard),
{
    let mut r: Vec<MenuEntry> = Vec::new();
    r.push(make_button(MenuAction::NewTab, "Nueva pestaña", "Ctrl + N", "tab-icon", true));
    r.push(MenuEntry::Separator);
    let icon = if has_clipboard { "clipboard" } else { "clipboard-disabled" };
    r.push(make_button(MenuAction::PasteHere, "Pegar aquí", "Ctrl + V", icon, has_clipboard));
    r.push(MenuEntry::Separator);
    r.push(make_button(MenuAction::OpenTerminal, "Abrir terminal aqui", "Alt + T", "terminal", true));
    r.push(MenuEntry::Separator);
    r.push(make_button(MenuAction::NewFolder, "Nueva carpeta", "Ctrl + Shfit + N", "plus-folder", true));
    r.push(make_button(MenuAction::NewFile, "Nuevo archivo", "Ctrl + Shfit + F", "plus-file", true));
    assert(r@ =~= background_menu_spec(has_clipboard));
    r
}

/// What the file menu depends on.
#[derive(Clone, Copy, Debug, PartialEq, Eq, Structural)]
pub struct FileMenuFacts {
    pub is_image: bool,
    pub is_dir: bool,
    pub is_archive: bool,
    pub clipboard_has_files: bool,
    pub is_in_favorites: bool,
}

/// The "Abrir" button: a file offers "Abrir con..." in its popup, a folder
/// "Abrir nueva pestaña".
pub open spec fn open_entry(is_dir: bool) -> MenuEntry {
    if !is_dir {
        MenuEntry::Button(MenuButton {
            action: MenuAction::Open,
            label: "Abrir",
            hint: "Enter",
            icon: "external-link",
            enabled: true,
            alternative: Some((MenuAction::OpenWith, "Abrir con...", "external-link")),
        })
    } else {
        MenuEntry::Button(MenuButton {
            action: MenuAction::Open,
            label: "Abrir",
            hint: "Enter",
            icon: "folder-open",
            enabled: true,
            alternative: Some((MenuAction::OpenInNewTab, "Abrir nueva pestaña", "folder-open")),
        })
    }
}

/// The menu of a file or folder: preview (images), open, paste into a
/// folder, copy, cut, extract (archives), folder color (folders), add to or
/// remove from favorites, move to the trash and rename.
pub open spec fn file_menu_spec(f: FileMenuFacts) -> Seq<MenuEntry> {
    let paste_enabled = f.clipboard_has_files && f.is_dir;
    let preview = if f.is_image {
        seq![button(MenuAction::Preview, "Previsualizar", "", "polaroid", true), MenuEntry::Separator]
    } else {
        seq![]
    };
    let extract = if f.is_archive {
        seq![button(MenuAction::ExtractHere, "Extraer aqui", "", "extract", true)]
    } else {
        seq![]
    };
    let color = if f.is_dir {
        seq![button(MenuAction::FolderColor, "Color de carpeta", "", "palette", true)]
    } else {
        seq![]
    };
    let fav = if !f.is_in_favorites {
        button(MenuAction::AddFavorite, "Agregar a favoritos", "", "star-row", true)
    } else {
        button(MenuAction::RemoveFavorite, "Quitar a favoritos", "", "star-disable", true)
    };
    preview + seq![
        open_entry(f.is_dir),
        button(
            MenuAction::PasteHere,
            "Pegar aquí",
            "",
            if paste_enabled { "clipboard" } else { "clipboard-disable" },
            paste_enabled,
        ),
        button(MenuAction::Copy, "Copiar", "Ctrl + C", "copy", true),
        button(MenuAction::Cut, "Cortar", "Ctrl + X", "scissors", true),
    ] + extract + seq![MenuEntry::Separator] + color + seq![
        fav,
        MenuEntry::Separator,
        button(MenuAction::MoveToTrash, "Mover a Papelera", "Supr", "trash", true),
        button(MenuAction::Rename, "Renombrar", "", "edit", true),
    ]
}

/// The entries of a file's menu.
pub fn file_menu(f: FileMenuFacts) -> (r: Vec<MenuEntry>)
    ensures
        r@ == file_menu_spec(f),
{
    let mut r: Vec<MenuEntry> = Vec::new();
    if f.is_image {
        r.push(make_button(MenuAction::Preview, "Previsualizar", "", "polaroid", true));
        r.push(MenuEntry::Separator);
    }
    if !f.is_dir {
        r.push(MenuEntry::Button(MenuButton {
            action: MenuAction::Open,
            label: "Abrir",
            hint: "Enter",
            icon: "external-link",
            enabled: true,
            alternative: Some((MenuAction::OpenWith, "Abrir con...", "external-link")),
        }));
    } else {
        r.push(MenuEntry::Button(MenuButton {
            action: MenuAction::Open,
            label: "Abrir",
            hint: "Enter",
            icon: "folder-open",
            enabled: true,
            alternative: Some((MenuAction::OpenInNewTab, "Abrir nueva pestaña", "folder-open")),
        }));
    }
    let paste_enabled = f.clipboard_has_files && f.is_dir;
    let paste_icon = if paste_enabled { "clipboard" } else { "clipboard-disable" };
    r.push(make_button(MenuAction::PasteHere, "Pegar aquí", "", paste_icon, paste_enabled));
    r.push(make_button(MenuAction::Copy, "Copiar", "Ctrl + C", "copy", true));
    r.push(make_button(MenuAction::Cut, "Cortar", "Ctrl + X", "scissors", true));
    if f.is_archive {
        r.push(make_button(MenuAction::ExtractHere, "Extraer aqui", "", "extract", true));
    }
    r.push(MenuEntry::Separator);
    if f.is_dir {
        r.push(make_button(MenuAction::FolderColor, "Color de carpeta", "", "palette", true));
    }
    if !f.is_in_favorites {
        r.push(make_button(MenuAction::AddFavorite, "Agregar a favoritos", "", "star-row", true));
    } else {
        r.push(make_button(MenuAction::RemoveFavorite, "Quitar a favoritos", "", "star-disable", true));
    }
    r.push(MenuEntry::Separator);
    r.push(make_button(MenuAction::MoveToTrash, "Mover a Papelera", "Supr", "trash", true));
    r.push(make_button(MenuAction::Rename, "Renombrar", "", "edit", true));
    assert(r@ =~= file_menu_spec(f));
    r
}

/// The text a rename field starts with for a file called `name`: the name
/// itself, so that a rename keeps the original casing of what is not
/// retyped.
pub fn rename_buffer_for(name: &str) -> (r: String)
    ensures
        r@ == name@,
{
    name.to_owned()
}

/// What the new-item field creates.
#[derive(Clone, Copy, Debug, PartialEq, Eq, Structural)]
pub enum NewItemType {
    File,
    Folder,
}

/// The field that names a new file or folder: what is being created, if
/// anything, and the name typed so far.
pub struct NewItemField {
    pub creating_new: Option<NewItemType>,
    pub buffer: String,
}

impl NewItemField {
    /// No item is being created.
    pub fn new() -> (f: Self)
        ensures
            f.creating_new is None,
            f.buffer@.len() == 0,
    {
        NewItemField { creating_new: None, buffer: String::new() }
    }

    /// Opens the field for a new item of type `t`, with its default name.
    pub fn start(&mut self, t: NewItemType)
        ensures
            final(self).creating_new == Some(t),
            final(self).buffer@ == new_item_name(t),
    {
        self.creating_new = Some(t);
        self.buffer = new_item_default_name(t).to_owned();
    }
}

/// The name a new item's field starts with.
pub open spec fn new_item_name(t: NewItemType) -> Seq<char> {
    match t {
        NewItemType::File => "nuevo archivo"@,
        NewItemType::Folder => "nueva carpeta"@,
    }
}

/// The name a new item's field starts with.
pub fn new_item_default_name(t: NewItemType) -> (s: &'static str)
    ensures
        s@ == new_item_name(t),
{
    match t {
        NewItemType::File => "nuevo archivo",
        NewItemType::Folder => "nueva carpeta",
    }
}


/// Whether a menu entry lets `a` be chosen: an enabled button whose action,
/// or the action of whose popup entry, is `a`.
pub open spec fn entry_offers(e: MenuEntry, a: MenuAction) -> bool {
    match e {
        MenuEntry::Button(b) => b.enabled && (b.action == a || (b.alternative matches Some(t) && t.0 == a)),
        MenuEntry::Separator => false,
    }
}

/// Whether some entry of a menu lets `a` be chosen.
pub open spec fn menu_offers(s: Seq<MenuEntry>, a: MenuAction) -> bool {
    exists|i: int| 0 <= i < s.len() && #[trigger] entry_offers(s[i], a)
}

/// Whether some entry of the menu lets `a` be chosen.
pub fn offers(entries: &Vec<MenuEntry>, a: MenuAction) -> (b: bool)
    ensures
        b == menu_offers(entries@, a),
{
    let mut i: usize = 0;
    while i < entries.len()
        invariant
            i <= entries@.len(),
            forall|j: int| 0 <= j < i ==> !#[trigger] entry_offers(entries@[j], a),
        decreases entries@.len() - i,
    {
        let hit = match entries[i] {
            MenuEntry::Button(b) => b.enabled && (b.action == a || match b.alternative {
                Some(t) => t.0 == a,
                None => false,
            }),
            MenuEntry::Separator => false,
        };
        if hit {
            assert(entry_offers(entries@[i as int], a));
            return true;
        }
        i = i + 1;
    }
    false
}

/// What the open menus depend on when an entry is chosen: the drive (has no
/// mount point, is removable, is the system drive), the file and the
/// clipboard, and whether the folder has an id to color it by.
#[derive(Clone, Copy, Debug, PartialEq, Eq, Structural)]
pub struct MenuFacts {
    pub drive_unmounted: bool,
    pub drive_removable: bool,
    pub drive_system: bool,
    pub file: FileMenuFacts,
    pub has_folder_id: bool,
}

/// The entries of the menu of a kind.
pub open spec fn menu_for(kind: ContextMenuKind, f: MenuFacts) -> Seq<MenuEntry> {
    match kind {
        ContextMenuKind::DrivesPanel => drives_menu_spec(f.drive_unmounted, f.drive_removable, f.drive_system),
        ContextMenuKind::FileTrash => trash_menu_spec(),
        ContextMenuKind::BackgroundTrash => trash_menu_spec(),
        ContextMenuKind::BackgroundNormal => background_menu_spec(f.file.clipboard_has_files),
        ContextMenuKind::FileNormal => file_menu_spec(f.file),
        ContextMenuKind::Nothing => seq![],
    }
}

/// The entries of the menu of a kind.
pub fn entries_for(kind: ContextMenuKind, f: MenuFacts) -> (r: Vec<MenuEntry>)
    ensures
        r@ == menu_for(kind, f),
{
    match kind {
        ContextMenuKind::DrivesPanel => drives_menu(f.drive_unmounted, f.drive_removable, f.drive_system),
        ContextMenuKind::FileTrash => trash_menu(),
        ContextMenuKind::BackgroundTrash => trash_menu(),
        ContextMenuKind::BackgroundNormal => background_menu(f.file.clipboard_has_files),
        ContextMenuKind::FileNormal => file_menu(f.file),
        ContextMenuKind::Nothing => Vec::new(),
    }
}

/// What choosing an entry asks the explorer to do.
#[derive(Clone, Copy, Debug, PartialEq, Eq, Structural)]
pub enum MenuEffect {
    /// Nothing is done.
    Nothing,
    MountDrive,
    /// Go to the drive's mount point.
    OpenDrive,
    EjectDrive,
    UnmountDrive,
    /// Send the restoring of the selected files of the trash.
    RestoreSelected,
    /// Ask to confirm deleting the selected files for good.
    ConfirmDeleteSelected,
    CreateTab,
    /// Paste the clipboard into the folder shown.
    PasteInFolderShown,
    /// Paste the clipboard into the folder the menu was opened on.
    PasteInTarget,
    OpenTerminal,
    /// Open the field that names a new item of this type, with its default
    /// name.
    StartNewItem(NewItemType),
    /// Show the image with the other images of the folder.
    ShowPreview,
    /// Go into the folder the menu was opened on.
    NavigateToTarget,
    OpenFile,
    OpenFileWith,
    /// Open the folder in a new tab and refresh.
    OpenInNewTab,
    CopySelected,
    CutSelected,
    /// Extract the archive into the folder shown.
    ExtractInFolderShown,
    ShowFolderColor,
    AddFavorite,
    RemoveFavorite,
    MoveSelectedToTrash,
    /// Open the rename field on the file, starting from its name.
    StartRename,
}

/// What choosing `a` in the menu of kind `kind` does, if the menu offers it.
pub open spec fn action_effect(kind: ContextMenuKind, a: MenuAction, f: MenuFacts) -> MenuEffect {
    match a {
        MenuAction::Mount => MenuEffect::MountDrive,
        MenuAction::Open => if kind == ContextMenuKind::DrivesPanel {
            MenuEffect::OpenDrive
        } else if f.file.is_dir {
            MenuEffect::NavigateToTarget
        } else {
            MenuEffect::OpenFile
        },
        MenuAction::Eject => MenuEffect::EjectDrive,
        MenuAction::Unmount => MenuEffect::UnmountDrive,
        MenuAction::Restore => MenuEffect::RestoreSelected,
        MenuAction::DeleteForever => MenuEffect::ConfirmDeleteSelected,
        MenuAction::NewTab => MenuEffect::CreateTab,
        MenuAction::PasteHere => if kind == ContextMenuKind::FileNormal {
            MenuEffect::PasteInTarget
        } else {
            MenuEffect::PasteInFolderShown
        },
        MenuAction::OpenTerminal => MenuEffect::OpenTerminal,
        MenuAction::NewFolder => MenuEffect::StartNewItem(NewItemType::Folder),
        MenuAction::NewFile => MenuEffect::StartNewItem(NewItemType::File),
        MenuAction::Preview => MenuEffect::ShowPreview,
        MenuAction::OpenWith => MenuEffect::OpenFileWith,
        MenuAction::OpenInNewTab => MenuEffect::OpenInNewTab,
        MenuAction::Copy => MenuEffect::CopySelected,
        MenuAction::Cut => MenuEffect::CutSelected,
        MenuAction::ExtractHere => MenuEffect::ExtractInFolderShown,
        MenuAction::FolderColor => if f.has_folder_id {
            MenuEffect::ShowFolderColor
        } else {
            MenuEffect::Nothing
        },
        MenuAction::AddFavorite => MenuEffect::AddFavorite,
        MenuAction::RemoveFavorite => MenuEffect::RemoveFavorite,
        MenuAction::MoveToTrash => MenuEffect::MoveSelectedToTrash,
        MenuAction::Rename => MenuEffect::StartRename,
    }
}

impl ContextMenuState {
    /// Whether the menu has what it acts on: a drive for the drives menu, a
    /// dispatcher for the trash menus, a file and a dispatcher for the file
    /// menu; the background menu needs nothing.
    pub open spec fn has_targets(&self) -> bool {
        match self.kind {
            ContextMenuKind::DrivesPanel => self.target_drive is Some,
            ContextMenuKind::FileTrash => self.target_sender is Some,
            ContextMenuKind::BackgroundTrash => self.target_sender is Some,
            ContextMenuKind::FileNormal => self.target_file is Some && self.target_sender is Some,
            ContextMenuKind::BackgroundNormal => true,
            ContextMenuKind::Nothing => false,
        }
    }

    /// Whether choosing `a` takes effect: the menu is open, has what it acts
    /// on, and offers `a` (an enabled entry).
    pub open spec fn takes(&self, a: MenuAction, f: MenuFacts) -> bool {
        self.open && self.has_targets() && menu_offers(menu_for(self.kind, f), a)
    }

    /// Whether the menu closes after `a` took effect: it does, but for the
    /// background menu of the trash, which stays open, and for a folder
    /// color asked of a folder with no id.
    pub open spec fn closes_after(&self, a: MenuAction, f: MenuFacts) -> bool {
        self.kind != ContextMenuKind::BackgroundTrash && !(a == MenuAction::FolderColor && !f.has_folder_id)
    }

    /// The user chooses the entry of action `a`. Where the open menu offers
    /// it and has what it acts on, the effect of the action comes back and
    /// the menu closes (see `closes_after`); otherwise nothing is done and
    /// the menu stays as it was.
    pub fn pick(&mut self, a: MenuAction, f: MenuFacts) -> (e: MenuEffect)
        ensures
            old(self).takes(a, f) ==> e == action_effect(old(self).kind, a, f),
            !old(self).takes(a, f) ==> e == MenuEffect::Nothing,
            old(self).takes(a, f) && old(self).closes_after(a, f) ==> {
                &&& !final(self).open
                &&& final(self).kind == ContextMenuKind::Nothing
                &&& final(self).target_file is None
                &&& final(self).target_sender is None
                &&& final(self).target_drive == old(self).target_drive
                &&& final(self).just_opened == old(self).just_opened
            },
            !(old(self).takes(a, f) && old(self).closes_after(a, f)) ==> *final(self) == *old(self),
    {
        let targets = match self.kind {
            ContextMenuKind::DrivesPanel => self.target_drive.is_some(),
            ContextMenuKind::FileTrash => self.target_sender.is_some(),
            ContextMenuKind::BackgroundTrash => self.target_sender.is_some(),
            ContextMenuKind::FileNormal => self.target_file.is_some() && self.target_sender.is_some(),
            ContextMenuKind::BackgroundNormal => true,
            ContextMenuKind::Nothing => false,
        };
        if !self.open || !targets {
            return MenuEffect::Nothing;
        }
        let entries = entries_for(self.kind, f);
        if !offers(&entries, a) {
            return MenuEffect::Nothing;
        }
        let e = match a {
            MenuAction::Mount => MenuEffect::MountDrive,
            MenuAction::Open => if self.kind == ContextMenuKind::DrivesPanel {
                MenuEffect::OpenDrive
            } else if f.file.is_dir {
                MenuEffect::NavigateToTarget
            } else {
                MenuEffect::OpenFile
            },
            MenuAction::Eject => MenuEffect::EjectDrive,
            MenuAction::Unmount => MenuEffect::UnmountDrive,
            MenuAction::Restore => MenuEffect::RestoreSelected,
            MenuAction::DeleteForever => MenuEffect::ConfirmDeleteSelected,
            MenuAction::NewTab => MenuEffect::CreateTab,
            MenuAction::PasteHere => if self.kind == ContextMenuKind::FileNormal {
                MenuEffect::PasteInTarget
            } else {
                MenuEffect::PasteInFolderShown
            },
            MenuAction::OpenTerminal => MenuEffect::OpenTerminal,
            MenuAction::NewFolder => MenuEffect::StartNewItem(NewItemType::Folder),
            MenuAction::NewFile => MenuEffect::StartNewItem(NewItemType::File),
            MenuAction::Preview => MenuEffect::ShowPreview,
            MenuAction::OpenWith => MenuEffect::OpenFileWith,
            MenuAction::OpenInNewTab => MenuEffect::OpenInNewTab,
            MenuAction::Copy => MenuEffect::CopySelected,
            MenuAction::Cut => MenuEffect::CutSelected,
            MenuAction::ExtractHere => MenuEffect::ExtractInFolderShown,
            MenuAction::FolderColor => if f.has_folder_id {
                MenuEffect::ShowFolderColor
            } else {
                MenuEffect::Nothing
            },
            MenuAction::AddFavorite => MenuEffect::AddFavorite,
            MenuAction::RemoveFavorite => MenuEffect::RemoveFavorite,
            MenuAction::MoveToTrash => MenuEffect::MoveSelectedToTrash,
            MenuAction::Rename => MenuEffect::StartRename,
        };
        let stays = self.kind == ContextMenuKind::BackgroundTrash || (a == MenuAction::FolderColor
            && !f.has_folder_id);
        if !stays {
            self.close();
        }
        e
    }
}


/// Each entry does what its label says, whatever menu it is chosen in:
/// "Copiar" copies the selected files and "Cortar" cuts them; "Mover a
/// Papelera" moves them to the trash; "Renombrar" opens the rename field;
/// "Nueva carpeta" and "Nuevo archivo" open the new-item field for a folder
/// and a file; "Restaurar" restores from the trash and "Eliminar" there asks
/// to delete for good; "Abrir con..." opens the file with another program;
/// the favorites entries add and remove; the drive entries mount, eject and
/// unmount.
pub proof fn law_entries_do_what_they_say(kind: ContextMenuKind, f: MenuFacts)
    ensures
        action_effect(kind, MenuAction::Copy, f) == MenuEffect::CopySelected,
        action_effect(kind, MenuAction::Cut, f) == MenuEffect::CutSelected,
        action_effect(kind, MenuAction::MoveToTrash, f) == MenuEffect::MoveSelectedToTrash,
        action_effect(kind, MenuAction::Rename, f) == MenuEffect::StartRename,
        action_effect(kind, MenuAction::NewFolder, f) == MenuEffect::StartNewItem(NewItemType::Folder),
        action_effect(kind, MenuAction::NewFile, f) == MenuEffect::StartNewItem(NewItemType::File),
        action_effect(kind, MenuAction::Restore, f) == MenuEffect::RestoreSelected,
        action_effect(kind, MenuAction::DeleteForever, f) == MenuEffect::ConfirmDeleteSelected,
        action_effect(kind, MenuAction::OpenWith, f) == MenuEffect::OpenFileWith,
        action_effect(kind, MenuAction::OpenInNewTab, f) == MenuEffect::OpenInNewTab,
        action_effect(kind, MenuAction::AddFavorite, f) == MenuEffect::AddFavorite,
        action_effect(kind, MenuAction::RemoveFavorite, f) == MenuEffect::RemoveFavorite,
        action_effect(kind, MenuAction::NewTab, f) == MenuEffect::CreateTab,
        action_effect(kind, MenuAction::OpenTerminal, f) == MenuEffect::OpenTerminal,
        action_effect(kind, MenuAction::Preview, f) == MenuEffect::ShowPreview,
        action_effect(kind, MenuAction::ExtractHere, f) == MenuEffect::ExtractInFolderShown,
        action_effect(kind, MenuAction::Mount, f) == MenuEffect::MountDrive,
        action_effect(kind, MenuAction::Eject, f) == MenuEffect::EjectDrive,
        action_effect(kind, MenuAction::Unmount, f) == MenuEffect::UnmountDrive,
{
}

/// "Abrir" on a drive goes to its mount point; on a folder it goes into the
/// folder and on a file it opens the file. "Pegar aquí" on a folder pastes
/// into that folder, elsewhere into the folder shown. "Color de carpeta"
/// shows the color selector exactly when the folder has an id.
pub proof fn law_entries_that_depend_on_the_target(kind: ContextMenuKind, f: MenuFacts)
    ensures
        kind == ContextMenuKind::DrivesPanel ==> action_effect(kind, MenuAction::Open, f) == MenuEffect::OpenDrive,
        kind != ContextMenuKind::DrivesPanel && f.file.is_dir ==> action_effect(kind, MenuAction::Open, f)
            == MenuEffect::NavigateToTarget,
        kind != ContextMenuKind::DrivesPanel && !f.file.is_dir ==> action_effect(kind, MenuAction::Open, f)
            == MenuEffect::OpenFile,
        kind == ContextMenuKind::FileNormal ==> action_effect(kind, MenuAction::PasteHere, f)
            == MenuEffect::PasteInTarget,
        kind != ContextMenuKind::FileNormal ==> action_effect(kind, MenuAction::PasteHere, f)
            == MenuEffect::PasteInFolderShown,
        (action_effect(kind, MenuAction::FolderColor, f) == MenuEffect::ShowFolderColor) == f.has_folder_id,
        !f.has_folder_id ==> action_effect(kind, MenuAction::FolderColor, f) == MenuEffect::Nothing,
{
}

/// Different entries never do the same thing: whenever two actions chosen
/// in the same menu on the same target have the same effect, other than
/// doing nothing, they are the same action.
pub proof fn law_distinct_entries_distinct_effects(kind: ContextMenuKind, f: MenuFacts, a: MenuAction, b: MenuAction)
    requires
        action_effect(kind, a, f) == action_effect(kind, b, f),
        action_effect(kind, a, f) != MenuEffect::Nothing,
    ensures
        a == b,
{
}

proof fn lemma_offers_concat(a: Seq<MenuEntry>, b: Seq<MenuEntry>, x: MenuAction)
    ensures
        menu_offers(a + b, x) == (menu_offers(a, x) || menu_offers(b, x)),
{
    if menu_offers(a + b, x) {
        let k = choose|k: int| 0 <= k < (a + b).len() && #[trigger] entry_offers((a + b)[k], x);
        if k < a.len() {
            assert(entry_offers(a[k], x));
        } else {
            assert(entry_offers(b[k - a.len()], x));
        }
    }
    if menu_offers(a, x) {
        let k = choose|k: int| 0 <= k < a.len() && #[trigger] entry_offers(a[k], x);
        assert(entry_offers((a + b)[k], x));
    }
    if menu_offers(b, x) {
        let k = choose|k: int| 0 <= k < b.len() && #[trigger] entry_offers(b[k], x);
        assert(entry_offers((a + b)[k + a.len()], x));
    }
}

/// A menu offers an action when one of its entries does.
proof fn lemma_offers_list(s: Seq<MenuEntry>, x: MenuAction)
    ensures
        menu_offers(s, x) == (exists|k: int| 0 <= k < s.len() && #[trigger] entry_offers(s[k], x)),
{
}

/// A file's menu always offers opening, copying, cutting, moving to the
/// trash and renaming; it offers pasting only on a folder when the
/// clipboard holds files, a preview only for images, extracting only
/// archives, a color only for folders, opening with another program only
/// for files and in a new tab only for folders, and exactly one of adding
/// to and removing from favorites; never restoring or a new tab.
pub proof fn law_file_menu_offers(f: FileMenuFacts, x: MenuAction)
    ensures
        menu_offers(file_menu_spec(f), x) == (match x {
            MenuAction::Open | MenuAction::Copy | MenuAction::Cut | MenuAction::MoveToTrash
            | MenuAction::Rename => true,
            MenuAction::PasteHere => f.is_dir && f.clipboard_has_files,
            MenuAction::Preview => f.is_image,
            MenuAction::ExtractHere => f.is_archive,
            MenuAction::FolderColor => f.is_dir,
            MenuAction::OpenWith => !f.is_dir,
            MenuAction::OpenInNewTab => f.is_dir,
            MenuAction::AddFavorite => !f.is_in_favorites,
            MenuAction::RemoveFavorite => f.is_in_favorites,
            _ => false,
        }),
{
    let paste_enabled = f.clipboard_has_files && f.is_dir;
    let preview = if f.is_image {
        seq![button(MenuAction::Preview, "Previsualizar", "", "polaroid", true), MenuEntry::Separator]
    } else {
        seq![]
    };
    let extract = if f.is_archive {
        seq![button(MenuAction::ExtractHere, "Extraer aqui", "", "extract", true)]
    } else {
        seq![]
    };
    let color = if f.is_dir {
        seq![button(MenuAction::FolderColor, "Color de carpeta", "", "palette", true)]
    } else {
        seq![]
    };
    let fav = if !f.is_in_favorites {
        button(MenuAction::AddFavorite, "Agregar a favoritos", "", "star-row", true)
    } else {
        button(MenuAction::RemoveFavorite, "Quitar a favoritos", "", "star-disable", true)
    };
    let mid = seq![
        open_entry(f.is_dir),
        button(
            MenuAction::PasteHere,
            "Pegar aquí",
            "",
            if paste_enabled { "clipboard" } else { "clipboard-disable" },
            paste_enabled,
        ),
        button(MenuAction::Copy, "Copiar", "Ctrl + C", "copy", true),
        button(MenuAction::Cut, "Cortar", "Ctrl + X", "scissors", true),
    ];
    let sep = seq![MenuEntry::Separator];
    let tail = seq![
        fav,
        MenuEntry::Separator,
        button(MenuAction::MoveToTrash, "Mover a Papelera", "Supr", "trash", true),
        button(MenuAction::Rename, "Renombrar", "", "edit", true),
    ];
    assert(file_menu_spec(f) == preview + mid + extract + sep + color + tail);
    lemma_offers_concat(preview + mid + extract + sep + color, tail, x);
    lemma_offers_concat(preview + mid + extract + sep, color, x);
    lemma_offers_concat(preview + mid + extract, sep, x);
    lemma_offers_concat(preview + mid, extract, x);
    lemma_offers_concat(preview, mid, x);
    lemma_offers_list(preview, x);
    lemma_offers_list(mid, x);
    lemma_offers_list(extract, x);
    lemma_offers_list(sep, x);
    lemma_offers_list(color, x);
    lemma_offers_list(tail, x);
    if entry_offers(mid[0], x) {} if entry_offers(mid[1], x) {} if entry_offers(mid[2], x) {} if entry_offers(mid[3], x) {}
    if entry_offers(tail[0], x) {} if entry_offers(tail[2], x) {} if entry_offers(tail[3], x) {}
    if f.is_image { if entry_offers(preview[0], x) {} }
    if f.is_archive { if entry_offers(extract[0], x) {} }
    if f.is_dir { if entry_offers(color[0], x) {} }
}

/// The background menu offers a new tab, a terminal, a new folder and a new
/// file, and pasting exactly when the clipboard holds files; nothing else.
pub proof fn law_background_menu_offers(clip: bool, x: MenuAction)
    ensures
        menu_offers(background_menu_spec(clip), x) == (match x {
            MenuAction::NewTab | MenuAction::OpenTerminal | MenuAction::NewFolder | MenuAction::NewFile => true,
            MenuAction::PasteHere => clip,
            _ => false,
        }),
{
    let m = background_menu_spec(clip);
    lemma_offers_list(m, x);
    if entry_offers(m[0], x) {} if entry_offers(m[2], x) {} if entry_offers(m[4], x) {}
    if entry_offers(m[6], x) {} if entry_offers(m[7], x) {}
}

/// A drive offers mounting (and ejecting, when removable) while unmounted,
/// and opening and unmounting (but for the system drive) while mounted.
pub proof fn law_drive_menu_offers(unmounted: bool, removable: bool, system: bool, x: MenuAction)
    ensures
        menu_offers(drives_menu_spec(unmounted, removable, system), x) == (match x {
            MenuAction::Mount => unmounted,
            MenuAction::Eject => unmounted && removable,
            MenuAction::Open => !unmounted,
            MenuAction::Unmount => !unmounted && !system,
            _ => false,
        }),
{
    let m = drives_menu_spec(unmounted, removable, system);
    lemma_offers_list(m, x);
    if entry_offers(m[0], x) {}
    if m.len() > 1 { if entry_offers(m[1], x) {} }
}

/// The trash menus offer restoring and deleting for good, nothing else.
pub proof fn law_trash_menu_offers(x: MenuAction)
    ensures
        menu_offers(trash_menu_spec(), x) == (x == MenuAction::Restore || x == MenuAction::DeleteForever),
{
    let m = trash_menu_spec();
    lemma_offers_list(m, x);
    if entry_offers(m[0], x) {} if entry_offers(m[2], x) {}
}

} // verus!
