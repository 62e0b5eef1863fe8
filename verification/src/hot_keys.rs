use vstd::prelude::*;
use crate::text::{ascii_lower_char, lower_ascii_char};
use crate::context_menu::{new_item_name, NewItemField, NewItemType};
use crate::folder_sizes::JobMarks;
use crate::selection::{
    after_arrow_down, after_arrow_up, after_enter, after_select_all, enter_row, ListSelection,
    SelectionModel,
};

verus! {

/// The keys and buttons of one frame that the file list reacts to.
#[derive(Clone, Copy, Debug, PartialEq, Eq, Structural)]
pub struct KeyInput {
    pub arrow_up: bool,
    pub arrow_down: bool,
    pub enter: bool,
    pub key_a: bool,
    pub key_f: bool,
    pub key_n: bool,
    pub key_r: bool,
    pub key_t: bool,
    pub key_w: bool,
    pub key_z: bool,
    pub f5: bool,
    pub delete: bool,
    /// The platform's command modifier (Ctrl, or Cmd on macOS).
    pub command: bool,
    pub ctrl: bool,
    pub shift: bool,
    pub alt: bool,
    /// The "back" mouse button.
    pub mouse_back: bool,
    /// The "forward" mouse button.
    pub mouse_forward: bool,
    /// A copy, cut or paste event of the platform.
    pub copy_event: bool,
    pub cut_event: bool,
    pub paste_event: bool,
}

/// What the reaction to keys depends on besides the keys.
#[derive(Clone, Copy, Debug, PartialEq, Eq, Structural)]
pub struct KeyContext {
    pub renaming: bool,
    pub has_clipboard: bool,
    pub in_trash: bool,
    pub has_selection: bool,
    pub search_empty: bool,
    pub search_bar_focused: bool,
    /// The search bar, the menu's search field, the new-item field or the
    /// rename field has the focus.
    pub text_edit_focused: bool,
    pub config_search_focused: bool,
    pub context_menu_open: bool,
}

/// A key of a key event that switches tabs or starts a search.
#[derive(Clone, Copy, Debug, PartialEq, Eq, Structural)]
pub enum KeyName {
    Tab,
    /// The digit keys 1 to 5 (`Num(0)` is the key 1).
    Num(u8),
    ArrowLeft,
    ArrowRight,
    /// A letter key, named by its capital letter.
    Letter(char),
    Other,
}

/// An input event of the frame.
#[derive(Clone, Copy, Debug, PartialEq, Eq, Structural)]
pub enum KeyEvent {
    Key { key: KeyName, pressed: bool, ctrl: bool, shift: bool, alt: bool },
    Other,
}

/// What the keys of a frame ask for, in the order they are carried out.
#[derive(Clone, Copy, Debug, PartialEq, Eq, Structural)]
pub enum HotKeyAction {
    SelectPrevious,
    SelectNext,
    /// Enter: open this row (a folder is entered, a file opened).
    Open(usize),
    /// Cmd+A: select every row.
    SelectAll,
    Refresh,
    Back,
    Forward,
    /// Ask to delete the selected files for good (in the trash).
    ConfirmDelete,
    MoveToTrash,
    Undo,
    Copy,
    Cut,
    Paste,
    NewFolder,
    NewFile,
    OpenTerminal,
    /// Put `rec:` in the search bar and focus it.
    RecursiveSearch,
    NewTab,
    CloseTab,
    PrevTab { refresh: bool },
    NextTab { refresh: bool },
    /// Switch to the tab of that index and refresh.
    SwitchTab(u8),
    /// Start a search with this letter and focus the search bar.
    SearchLetter(char),
}

/// The action `a` when `c` holds, nothing otherwise.
#[verifier::opaque]
pub open spec fn when(c: bool, a: HotKeyAction) -> Seq<HotKeyAction> {
    if c {
        seq![a]
    } else {
        seq![]
    }
}

/// The `Open` action of the row `opened` when `c` holds and there is such a
/// row, nothing otherwise.
#[verifier::opaque]
pub open spec fn when_open(c: bool, opened: Option<usize>) -> Seq<HotKeyAction> {
    match opened {
        Some(i) => if c { seq![HotKeyAction::Open(i)] } else { seq![] },
        None => seq![],
    }
}

/// The actions of the keys held or pressed in the frame, before the key
/// events are looked at.
pub open spec fn key_actions(k: KeyInput, c: KeyContext, free: bool, opened: Option<usize>) -> Seq<
    HotKeyAction,
> {
    Seq::<HotKeyAction>::empty() + when(k.arrow_up && free, HotKeyAction::SelectPrevious)
        + when(k.arrow_down && free, HotKeyAction::SelectNext)
        + when_open(k.enter && free, opened)
        + when(k.command && k.key_a, HotKeyAction::SelectAll)
        + when((k.f5 || (k.command && k.key_r)) && free, HotKeyAction::Refresh)
        + when(k.mouse_back && free, HotKeyAction::Back)
        + when(k.mouse_forward && free, HotKeyAction::Forward)
        + when(k.delete && free && c.has_selection && c.in_trash, HotKeyAction::ConfirmDelete)
        + when(k.delete && free && c.has_selection && !c.in_trash, HotKeyAction::MoveToTrash)
        + when(k.ctrl && k.key_z, HotKeyAction::Undo)
        + when(k.copy_event && free, HotKeyAction::Copy)
        + when(k.cut_event && free, HotKeyAction::Cut)
        + when(k.paste_event && free && c.has_clipboard, HotKeyAction::Paste)
        + when(k.command && k.shift && k.key_n, HotKeyAction::NewFolder)
        + when(k.command && k.shift && k.key_f, HotKeyAction::NewFile)
        + when(k.alt && k.key_t, HotKeyAction::OpenTerminal)
        + when(
        k.alt && k.key_r && (c.search_empty || !c.search_bar_focused),
        HotKeyAction::RecursiveSearch,
    ) + when(k.command && !k.shift && k.key_n && free, HotKeyAction::NewTab)
        + when(k.command && k.key_w, HotKeyAction::CloseTab)
}

/// The actions of the keys that still act while a name is being typed
/// (a rename or a new item): select all, undo, new folder, new file,
/// terminal, recursive search and close tab.
pub open spec fn editing_key_actions(k: KeyInput, c: KeyContext) -> Seq<HotKeyAction> {
    Seq::<HotKeyAction>::empty() + when(k.command && k.key_a, HotKeyAction::SelectAll)
        + when(k.ctrl && k.key_z, HotKeyAction::Undo)
        + when(k.command && k.shift && k.key_n, HotKeyAction::NewFolder)
        + when(k.command && k.shift && k.key_f, HotKeyAction::NewFile)
        + when(k.alt && k.key_t, HotKeyAction::OpenTerminal)
        + when(
        k.alt && k.key_r && (c.search_empty || !c.search_bar_focused),
        HotKeyAction::RecursiveSearch,
    ) + when(k.command && k.key_w, HotKeyAction::CloseTab)
}

/// While a file is renamed or a new item named, the arrows, Enter, refresh,
/// back and forward, Delete, copy, cut, paste and new tab do nothing: only
/// the keys of `editing_key_actions` act.
pub proof fn law_keys_while_editing(k: KeyInput, c: KeyContext, opened: Option<usize>)
    ensures
        key_actions(k, c, false, opened) == editing_key_actions(k, c),
{
    reveal(when);
    reveal(when_open);
    assert(key_actions(k, c, false, opened) =~= editing_key_actions(k, c));
}

/// No key is held or pressed but Delete.
pub open spec fn only_delete(k: KeyInput) -> bool {
    &&& k.delete
    &&& !k.arrow_up && !k.arrow_down && !k.enter
    &&& !k.key_a && !k.key_f && !k.key_n && !k.key_r && !k.key_t && !k.key_w && !k.key_z
    &&& !k.f5 && !k.command && !k.ctrl && !k.shift && !k.alt
    &&& !k.mouse_back && !k.mouse_forward
    &&& !k.copy_event && !k.cut_event && !k.paste_event
}

/// Delete moves the selected files to the trash, or asks to delete them for
/// good when the folder shown is the trash; with nothing selected, or while
/// a name is typed, it does nothing.
pub proof fn law_delete_key(k: KeyInput, c: KeyContext, free: bool, opened: Option<usize>)
    requires
        only_delete(k),
    ensures
        (free && c.has_selection) ==> key_actions(k, c, free, opened) == seq![
            if c.in_trash {
                HotKeyAction::ConfirmDelete
            } else {
                HotKeyAction::MoveToTrash
            },
        ],
        !(free && c.has_selection) ==> key_actions(k, c, free, opened).len() == 0,
{
    reveal(when);
    reveal(when_open);
    if free && c.has_selection {
        assert(key_actions(k, c, free, opened) =~= seq![
            if c.in_trash {
                HotKeyAction::ConfirmDelete
            } else {
                HotKeyAction::MoveToTrash
            },
        ]);
    } else {
        assert(key_actions(k, c, free, opened) =~= Seq::<HotKeyAction>::empty());
    }
}

/// No key is held or pressed, nor mouse button, and no paste came: at most
/// a copy and a cut event of the platform.
pub open spec fn only_copy_cut(k: KeyInput) -> bool {
    &&& !k.delete
    &&& !k.arrow_up && !k.arrow_down && !k.enter
    &&& !k.key_a && !k.key_f && !k.key_n && !k.key_r && !k.key_t && !k.key_w && !k.key_z
    &&& !k.f5 && !k.command && !k.ctrl && !k.shift && !k.alt
    &&& !k.mouse_back && !k.mouse_forward
    &&& !k.paste_event
}

/// The platform's copy event (Ctrl+C) copies the selection and its cut
/// event (Ctrl+X) cuts it, each exactly once, in whatever context, unless a
/// name is being typed, when neither acts. With no key event, these are
/// all the actions of the frame.
pub proof fn law_copy_and_cut_events(
    k: KeyInput,
    c: KeyContext,
    opened: Option<usize>,
    events: Seq<KeyEvent>,
)
    requires
        only_copy_cut(k),
    ensures
        k.copy_event && !k.cut_event ==> key_actions(k, c, true, opened) == seq![HotKeyAction::Copy],
        !k.copy_event && k.cut_event ==> key_actions(k, c, true, opened) == seq![HotKeyAction::Cut],
        k.copy_event && k.cut_event ==> key_actions(k, c, true, opened) == seq![
            HotKeyAction::Copy,
            HotKeyAction::Cut,
        ],
        key_actions(k, c, false, opened).len() == 0,
        k.copy_event && !k.cut_event && events.len() == 0 ==> hot_key_actions(k, c, true, opened, events)
            == seq![HotKeyAction::Copy],
        !k.copy_event && k.cut_event && events.len() == 0 ==> hot_key_actions(k, c, true, opened, events)
            == seq![HotKeyAction::Cut],
{
    reveal(when);
    reveal(when_open);
    assert(key_actions(k, c, false, opened) =~= Seq::<HotKeyAction>::empty());
    if events.len() == 0 {
        assert(events_actions(events, c) =~= Seq::<HotKeyAction>::empty());
    }
    if k.copy_event && !k.cut_event {
        assert(key_actions(k, c, true, opened) =~= seq![HotKeyAction::Copy]);
        assert(hot_key_actions(k, c, true, opened, events) =~= seq![HotKeyAction::Copy] + if c.text_edit_focused {
            seq![]
        } else {
            events_actions(events, c)
        });
    }
    if !k.copy_event && k.cut_event {
        assert(key_actions(k, c, true, opened) =~= seq![HotKeyAction::Cut]);
        assert(hot_key_actions(k, c, true, opened, events) =~= seq![HotKeyAction::Cut] + if c.text_edit_focused {
            seq![]
        } else {
            events_actions(events, c)
        });
    }
    if k.copy_event && k.cut_event {
        assert(key_actions(k, c, true, opened) =~= seq![HotKeyAction::Copy, HotKeyAction::Cut]);
    }
}

/// No key, button or event at all.
pub open spec fn no_keys() -> KeyInput {
    KeyInput {
        arrow_up: false,
        arrow_down: false,
        enter: false,
        key_a: false,
        key_f: false,
        key_n: false,
        key_r: false,
        key_t: false,
        key_w: false,
        key_z: false,
        f5: false,
        delete: false,
        command: false,
        ctrl: false,
        shift: false,
        alt: false,
        mouse_back: false,
        mouse_forward: false,
        copy_event: false,
        cut_event: false,
        paste_event: false,
    }
}

/// What each shortcut of the README does on its own, when no name is being
/// typed: the arrows select the previous and next row, Enter opens the row,
/// F5 and Cmd+R reload, the mouse's back and forward buttons go back and
/// forward, Ctrl+Z undoes, a paste pastes when the clipboard holds files,
/// Cmd+Shift+N and Cmd+Shift+F create a folder and a file, Alt+T opens a
/// terminal, Alt+R starts a recursive search (unless the search bar, focused,
/// holds text), Cmd+N opens a tab, Cmd+W closes it and Cmd+A selects all.
pub proof fn law_single_shortcuts(c: KeyContext, opened: Option<usize>)
    ensures
        key_actions(KeyInput { arrow_up: true, ..no_keys() }, c, true, opened) == seq![HotKeyAction::SelectPrevious],
        key_actions(KeyInput { arrow_down: true, ..no_keys() }, c, true, opened) == seq![HotKeyAction::SelectNext],
        opened matches Some(i) ==> key_actions(KeyInput { enter: true, ..no_keys() }, c, true, opened) == seq![
            HotKeyAction::Open(i),
        ],
        opened is None ==> key_actions(KeyInput { enter: true, ..no_keys() }, c, true, opened).len() == 0,
        key_actions(KeyInput { f5: true, ..no_keys() }, c, true, opened) == seq![HotKeyAction::Refresh],
        key_actions(KeyInput { command: true, key_r: true, ..no_keys() }, c, true, opened) == seq![
            HotKeyAction::Refresh,
        ],
        key_actions(KeyInput { mouse_back: true, ..no_keys() }, c, true, opened) == seq![HotKeyAction::Back],
        key_actions(KeyInput { mouse_forward: true, ..no_keys() }, c, true, opened) == seq![HotKeyAction::Forward],
        key_actions(KeyInput { ctrl: true, key_z: true, ..no_keys() }, c, true, opened) == seq![HotKeyAction::Undo],
        c.has_clipboard ==> key_actions(KeyInput { paste_event: true, ..no_keys() }, c, true, opened) == seq![
            HotKeyAction::Paste,
        ],
        !c.has_clipboard ==> key_actions(KeyInput { paste_event: true, ..no_keys() }, c, true, opened).len() == 0,
        key_actions(KeyInput { command: true, shift: true, key_n: true, ..no_keys() }, c, true, opened) == seq![
            HotKeyAction::NewFolder,
        ],
        key_actions(KeyInput { command: true, shift: true, key_f: true, ..no_keys() }, c, true, opened) == seq![
            HotKeyAction::NewFile,
        ],
        key_actions(KeyInput { alt: true, key_t: true, ..no_keys() }, c, true, opened) == seq![
            HotKeyAction::OpenTerminal,
        ],
        (c.search_empty || !c.search_bar_focused) ==> key_actions(
            KeyInput { alt: true, key_r: true, ..no_keys() },
            c,
            true,
            opened,
        ) == seq![HotKeyAction::RecursiveSearch],
        key_actions(KeyInput { command: true, key_n: true, ..no_keys() }, c, true, opened) == seq![
            HotKeyAction::NewTab,
        ],
        key_actions(KeyInput { command: true, key_w: true, ..no_keys() }, c, true, opened) == seq![
            HotKeyAction::CloseTab,
        ],
        key_actions(KeyInput { command: true, key_a: true, ..no_keys() }, c, true, opened) == seq![
            HotKeyAction::SelectAll,
        ],
        key_actions(no_keys(), c, true, opened).len() == 0,
{
    reveal(when);
    reveal(when_open);
    assert(key_actions(KeyInput { arrow_up: true, ..no_keys() }, c, true, opened) =~= seq![HotKeyAction::SelectPrevious]);
    assert(key_actions(KeyInput { arrow_down: true, ..no_keys() }, c, true, opened) =~= seq![HotKeyAction::SelectNext]);
    match opened {
        Some(i) => {
            assert(key_actions(KeyInput { enter: true, ..no_keys() }, c, true, opened) =~= seq![HotKeyAction::Open(i)]);
        },
        None => {
            assert(key_actions(KeyInput { enter: true, ..no_keys() }, c, true, opened) =~= Seq::<HotKeyAction>::empty());
        },
    }
    assert(key_actions(KeyInput { f5: true, ..no_keys() }, c, true, opened) =~= seq![HotKeyAction::Refresh]);
    assert(key_actions(KeyInput { command: true, key_r: true, ..no_keys() }, c, true, opened) =~= seq![HotKeyAction::Refresh]);
    assert(key_actions(KeyInput { mouse_back: true, ..no_keys() }, c, true, opened) =~= seq![HotKeyAction::Back]);
    assert(key_actions(KeyInput { mouse_forward: true, ..no_keys() }, c, true, opened) =~= seq![HotKeyAction::Forward]);
    assert(key_actions(KeyInput { ctrl: true, key_z: true, ..no_keys() }, c, true, opened) =~= seq![HotKeyAction::Undo]);
    if c.has_clipboard {
        assert(key_actions(KeyInput { paste_event: true, ..no_keys() }, c, true, opened) =~= seq![HotKeyAction::Paste]);
    } else {
        assert(key_actions(KeyInput { paste_event: true, ..no_keys() }, c, true, opened) =~= Seq::<HotKeyAction>::empty());
    }
    assert(key_actions(KeyInput { command: true, shift: true, key_n: true, ..no_keys() }, c, true, opened) =~= seq![HotKeyAction::NewFolder]);
    assert(key_actions(KeyInput { command: true, shift: true, key_f: true, ..no_keys() }, c, true, opened) =~= seq![HotKeyAction::NewFile]);
    assert(key_actions(KeyInput { alt: true, key_t: true, ..no_keys() }, c, true, opened) =~= seq![HotKeyAction::OpenTerminal]);
    if c.search_empty || !c.search_bar_focused {
        assert(key_actions(KeyInput { alt: true, key_r: true, ..no_keys() }, c, true, opened) =~= seq![HotKeyAction::RecursiveSearch]);
    }
    assert(key_actions(KeyInput { command: true, key_n: true, ..no_keys() }, c, true, opened) =~= seq![HotKeyAction::NewTab]);
    assert(key_actions(KeyInput { command: true, key_w: true, ..no_keys() }, c, true, opened) =~= seq![HotKeyAction::CloseTab]);
    assert(key_actions(KeyInput { command: true, key_a: true, ..no_keys() }, c, true, opened) =~= seq![HotKeyAction::SelectAll]);
    assert(key_actions(no_keys(), c, true, opened) =~= Seq::<HotKeyAction>::empty());
}

/// The tab keys: a pressed Ctrl+Tab goes to the next tab and Ctrl+Shift+Tab
/// to the previous one (both refresh), Ctrl+→ and Ctrl+← do the same without
/// refreshing, and Ctrl+1 to Ctrl+5 switch to the first five tabs; without
/// Ctrl none of them acts, and a released key does nothing.
pub proof fn law_tab_keys(c: KeyContext, shift: bool, alt: bool, n: u8)
    ensures
        events_actions(seq![KeyEvent::Key { key: KeyName::Tab, pressed: true, ctrl: true, shift: false, alt }], c)
            == seq![HotKeyAction::NextTab { refresh: true }],
        events_actions(seq![KeyEvent::Key { key: KeyName::Tab, pressed: true, ctrl: true, shift: true, alt }], c)
            == seq![HotKeyAction::PrevTab { refresh: true }],
        events_actions(seq![KeyEvent::Key { key: KeyName::ArrowRight, pressed: true, ctrl: true, shift, alt }], c)
            == seq![HotKeyAction::NextTab { refresh: false }],
        events_actions(seq![KeyEvent::Key { key: KeyName::ArrowLeft, pressed: true, ctrl: true, shift, alt }], c)
            == seq![HotKeyAction::PrevTab { refresh: false }],
        n < 5 ==> events_actions(seq![KeyEvent::Key { key: KeyName::Num(n), pressed: true, ctrl: true, shift, alt }], c)
            == seq![HotKeyAction::SwitchTab(n)],
        n >= 5 ==> events_actions(seq![KeyEvent::Key { key: KeyName::Num(n), pressed: true, ctrl: true, shift, alt }], c)
            .len() == 0,
        events_actions(seq![KeyEvent::Key { key: KeyName::Tab, pressed: true, ctrl: false, shift, alt }], c).len() == 0,
        events_actions(seq![KeyEvent::Key { key: KeyName::Num(n), pressed: true, ctrl: false, shift, alt }], c).len() == 0,
        events_actions(seq![KeyEvent::Key { key: KeyName::ArrowLeft, pressed: true, ctrl: false, shift, alt }], c).len() == 0,
        events_actions(seq![KeyEvent::Key { key: KeyName::ArrowRight, pressed: true, ctrl: false, shift, alt }], c).len() == 0,
        events_actions(seq![KeyEvent::Key { key: KeyName::Tab, pressed: false, ctrl: true, shift, alt }], c).len() == 0,
{
    reveal(when);
    reveal_with_fuel(events_actions, 2);
    let e1 = seq![KeyEvent::Key { key: KeyName::Tab, pressed: true, ctrl: true, shift: false, alt }];
    assert(e1.drop_first() =~= Seq::<KeyEvent>::empty());
    assert(events_actions(e1, c) =~= seq![HotKeyAction::NextTab { refresh: true }]);
    let e2 = seq![KeyEvent::Key { key: KeyName::Tab, pressed: true, ctrl: true, shift: true, alt }];
    assert(e2.drop_first() =~= Seq::<KeyEvent>::empty());
    assert(events_actions(e2, c) =~= seq![HotKeyAction::PrevTab { refresh: true }]);
    let e3 = seq![KeyEvent::Key { key: KeyName::ArrowRight, pressed: true, ctrl: true, shift, alt }];
    assert(e3.drop_first() =~= Seq::<KeyEvent>::empty());
    assert(events_actions(e3, c) =~= seq![HotKeyAction::NextTab { refresh: false }]);
    let e4 = seq![KeyEvent::Key { key: KeyName::ArrowLeft, pressed: true, ctrl: true, shift, alt }];
    assert(e4.drop_first() =~= Seq::<KeyEvent>::empty());
    assert(events_actions(e4, c) =~= seq![HotKeyAction::PrevTab { refresh: false }]);
    let e5 = seq![KeyEvent::Key { key: KeyName::Num(n), pressed: true, ctrl: true, shift, alt }];
    assert(e5.drop_first() =~= Seq::<KeyEvent>::empty());
    if n < 5 {
        assert(events_actions(e5, c) =~= seq![HotKeyAction::SwitchTab(n)]);
    } else {
        assert(events_actions(e5, c) =~= Seq::<HotKeyAction>::empty());
    }
    let e6 = seq![KeyEvent::Key { key: KeyName::Tab, pressed: true, ctrl: false, shift, alt }];
    assert(e6.drop_first() =~= Seq::<KeyEvent>::empty());
    assert(events_actions(e6, c) =~= Seq::<HotKeyAction>::empty());
    let e7 = seq![KeyEvent::Key { key: KeyName::Num(n), pressed: true, ctrl: false, shift, alt }];
    assert(e7.drop_first() =~= Seq::<KeyEvent>::empty());
    assert(events_actions(e7, c) =~= Seq::<HotKeyAction>::empty());
    let e8 = seq![KeyEvent::Key { key: KeyName::ArrowLeft, pressed: true, ctrl: false, shift, alt }];
    assert(e8.drop_first() =~= Seq::<KeyEvent>::empty());
    assert(events_actions(e8, c) =~= Seq::<HotKeyAction>::empty());
    let e9 = seq![KeyEvent::Key { key: KeyName::ArrowRight, pressed: true, ctrl: false, shift, alt }];
    assert(e9.drop_first() =~= Seq::<KeyEvent>::empty());
    assert(events_actions(e9, c) =~= Seq::<HotKeyAction>::empty());
    let e10 = seq![KeyEvent::Key { key: KeyName::Tab, pressed: false, ctrl: true, shift, alt }];
    assert(e10.drop_first() =~= Seq::<KeyEvent>::empty());
    assert(events_actions(e10, c) =~= Seq::<HotKeyAction>::empty());
}

/// Typing a letter with no modifier starts a search with that letter in
/// lowercase, unless the settings search or a context menu is in use or the
/// search bar, focused, already holds text; with Ctrl, Shift or Alt held it
/// does nothing.
pub proof fn law_letters_search(c: KeyContext, l: char, ctrl: bool, shift: bool, alt: bool)
    requires
        'A' <= l <= 'Z',
    ensures
        !c.config_search_focused && !c.context_menu_open && (c.search_empty || !c.search_bar_focused)
            ==> events_actions(
            seq![KeyEvent::Key { key: KeyName::Letter(l), pressed: true, ctrl: false, shift: false, alt: false }],
            c,
        ) == seq![HotKeyAction::SearchLetter(lower_ascii_char(l))],
        ctrl || shift || alt ==> events_actions(
            seq![KeyEvent::Key { key: KeyName::Letter(l), pressed: true, ctrl, shift, alt }],
            c,
        ).len() == 0,
        'a' <= lower_ascii_char(l) <= 'z',
{
    reveal(when);
    reveal_with_fuel(events_actions, 2);
    let e1 = seq![KeyEvent::Key { key: KeyName::Letter(l), pressed: true, ctrl: false, shift: false, alt: false }];
    assert(e1.drop_first() =~= Seq::<KeyEvent>::empty());
    if !c.config_search_focused && !c.context_menu_open && (c.search_empty || !c.search_bar_focused) {
        assert(events_actions(e1, c) =~= seq![HotKeyAction::SearchLetter(lower_ascii_char(l))]);
    }
    let e2 = seq![KeyEvent::Key { key: KeyName::Letter(l), pressed: true, ctrl, shift, alt }];
    assert(e2.drop_first() =~= Seq::<KeyEvent>::empty());
    if ctrl || shift || alt {
        assert(events_actions(e2, c) =~= Seq::<HotKeyAction>::empty());
    }
}

/// The action of one pressed key event.
pub open spec fn event_action(e: KeyEvent, c: KeyContext) -> Seq<HotKeyAction> {
    match e {
        KeyEvent::Key { key, pressed, ctrl, shift, alt } => match key {
            KeyName::Tab => if shift {
                when(ctrl, HotKeyAction::PrevTab { refresh: true })
            } else {
                when(ctrl, HotKeyAction::NextTab { refresh: true })
            },
            KeyName::Num(n) => when(ctrl && n < 5, HotKeyAction::SwitchTab(n)),
            KeyName::ArrowLeft => when(ctrl, HotKeyAction::PrevTab { refresh: false }),
            KeyName::ArrowRight => when(ctrl, HotKeyAction::NextTab { refresh: false }),
            KeyName::Letter(l) => when(
                'A' <= l && l <= 'Z' && !ctrl && !shift && !alt && !c.config_search_focused
                    && !c.context_menu_open && (c.search_empty || !c.search_bar_focused),
                HotKeyAction::SearchLetter(lower_ascii_char(l)),
            ),
            KeyName::Other => seq![],
        },
        KeyEvent::Other => seq![],
    }
}

/// The actions of the key events, in order; released keys and other events
/// are passed over.
pub open spec fn events_actions(events: Seq<KeyEvent>, c: KeyContext) -> Seq<HotKeyAction>
    decreases events.len(),
{
    if events.len() == 0 {
        seq![]
    } else {
        match events[0] {
            KeyEvent::Key { pressed, .. } => if !pressed {
                events_actions(events.drop_first(), c)
            } else {
                event_action(events[0], c) + events_actions(events.drop_first(), c)
            },
            KeyEvent::Other => events_actions(events.drop_first(), c),
        }
    }
}

/// All the actions of a frame: those of the keys, then, unless a text field
/// has the focus, those of the key events.
pub open spec fn hot_key_actions(
    k: KeyInput,
    c: KeyContext,
    free: bool,
    opened: Option<usize>,
    events: Seq<KeyEvent>,
) -> Seq<HotKeyAction> {
    key_actions(k, c, free, opened) + if c.text_edit_focused {
        seq![]
    } else {
        events_actions(events, c)
    }
}

fn push_when(v: &mut Vec<HotKeyAction>, c: bool, a: HotKeyAction)
    ensures
        final(v)@ == old(v)@ + when(c, a),
{
    reveal(when);
    if c {
        v.push(a);
    }
    assert(final(v)@ =~= old(v)@ + when(c, a));
}

fn push_open(v: &mut Vec<HotKeyAction>, c: bool, opened: Option<usize>)
    ensures
        final(v)@ == old(v)@ + when_open(c, opened),
{
    reveal(when_open);
    if c {
        match opened {
            Some(i) => v.push(HotKeyAction::Open(i)),
            None => {},
        }
    }
    assert(final(v)@ =~= old(v)@ + when_open(c, opened));
}

fn event_action_exec(e: KeyEvent, c: KeyContext) -> (r: Option<HotKeyAction>)
    ensures
        match r {
            Some(a) => event_action(e, c) == seq![a],
            None => event_action(e, c) == Seq::<HotKeyAction>::empty(),
        },
{
    reveal(when);
    match e {
        KeyEvent::Key { key, pressed: _, ctrl, shift, alt } => match key {
            KeyName::Tab => if !ctrl {
                None
            } else if shift {
                Some(HotKeyAction::PrevTab { refresh: true })
            } else {
                Some(HotKeyAction::NextTab { refresh: true })
            },
            KeyName::Num(n) => if ctrl && n < 5 {
                Some(HotKeyAction::SwitchTab(n))
            } else {
                None
            },
            KeyName::ArrowLeft => if ctrl {
                Some(HotKeyAction::PrevTab { refresh: false })
            } else {
                None
            },
            KeyName::ArrowRight => if ctrl {
                Some(HotKeyAction::NextTab { refresh: false })
            } else {
                None
            },
            KeyName::Letter(l) => if 'A' <= l && l <= 'Z' && !ctrl && !shift && !alt
                && !c.config_search_focused && !c.context_menu_open && (c.search_empty
                || !c.search_bar_focused) {
                Some(HotKeyAction::SearchLetter(ascii_lower_char(l)))
            } else {
                None
            },
            KeyName::Other => None,
        },
        KeyEvent::Other => None,
    }
}

fn key_actions_exec(k: KeyInput, c: KeyContext, free: bool, opened: Option<usize>) -> (r: Vec<
    HotKeyAction,
>)
    ensures
        r@ == key_actions(k, c, free, opened),
{
    let mut r: Vec<HotKeyAction> = Vec::new();
    push_when(&mut r, k.arrow_up && free, HotKeyAction::SelectPrevious);
    push_when(&mut r, k.arrow_down && free, HotKeyAction::SelectNext);
    push_open(&mut r, k.enter && free, opened);
    push_when(&mut r, k.command && k.key_a, HotKeyAction::SelectAll);
    push_when(&mut r, (k.f5 || (k.command && k.key_r)) && free, HotKeyAction::Refresh);
    push_when(&mut r, k.mouse_back && free, HotKeyAction::Back);
    push_when(&mut r, k.mouse_forward && free, HotKeyAction::Forward);
    push_when(&mut r, k.delete && free && c.has_selection && c.in_trash, HotKeyAction::ConfirmDelete);
    push_when(&mut r, k.delete && free && c.has_selection && !c.in_trash, HotKeyAction::MoveToTrash);
    push_when(&mut r, k.ctrl && k.key_z, HotKeyAction::Undo);
    push_when(&mut r, k.copy_event && free, HotKeyAction::Copy);
    push_when(&mut r, k.cut_event && free, HotKeyAction::Cut);
    push_when(&mut r, k.paste_event && free && c.has_clipboard, HotKeyAction::Paste);
    push_when(&mut r, k.command && k.shift && k.key_n, HotKeyAction::NewFolder);
    push_when(&mut r, k.command && k.shift && k.key_f, HotKeyAction::NewFile);
    push_when(&mut r, k.alt && k.key_t, HotKeyAction::OpenTerminal);
    push_when(
        &mut r,
        k.alt && k.key_r && (c.search_empty || !c.search_bar_focused),
        HotKeyAction::RecursiveSearch,
    );
    push_when(&mut r, k.command && !k.shift && k.key_n && free, HotKeyAction::NewTab);
    push_when(&mut r, k.command && k.key_w, HotKeyAction::CloseTab);
    r
}

fn events_actions_exec(events: &Vec<KeyEvent>, c: KeyContext, r: &mut Vec<HotKeyAction>)
    ensures
        final(r)@ == old(r)@ + events_actions(events@, c),
{
    let ghost base = r@;
    assert(events@.skip(0) =~= events@);
    let mut i: usize = 0;
    while i < events.len()
        invariant
            i <= events@.len(),
            base == old(r)@,
            base + events_actions(events@, c) == r@ + events_actions(events@.skip(i as int), c),
        decreases events@.len() - i,
    {
        let e = events[i];
        assert(events@.skip(i as int).drop_first() =~= events@.skip(i + 1));
        assert(events@.skip(i as int)[0] == e);
        match e {
            KeyEvent::Key { pressed, .. } => {
                if pressed {
                    let ghost before = r@;
                    match event_action_exec(e, c) {
                        Some(a) => r.push(a),
                        None => {},
                    }
                    assert(r@ =~= before + event_action(e, c));
                    assert(before + events_actions(events@.skip(i as int), c) =~= r@ + events_actions(
                        events@.skip(i + 1),
                        c,
                    ));
                }
            },
            KeyEvent::Other => {},
        }
        i = i + 1;
    }
    assert(events@.skip(i as int) =~= Seq::<KeyEvent>::empty());
    assert(r@ + events_actions(events@.skip(i as int), c) =~= r@);
}

/// The selection after the selection keys of a frame, in the order they
/// act: up arrow, down arrow, Enter (only when no name is being typed,
/// `free`), then Cmd+A.
pub open spec fn keys_selection(
    k: KeyInput,
    free: bool,
    s: SelectionModel,
    first_visible: usize,
    last_visible: usize,
) -> SelectionModel {
    let s1 = if k.arrow_up && free { after_arrow_up(s, last_visible) } else { s };
    let s2 = if k.arrow_down && free { after_arrow_down(s1, first_visible) } else { s1 };
    let s3 = if k.enter && free { after_enter(s2) } else { s2 };
    if k.command && k.key_a { after_select_all(s3) } else { s3 }
}

/// The row Enter opens in a frame: the last clicked row once the arrows
/// acted, when it is a row of the list.
pub open spec fn keys_opened(
    k: KeyInput,
    free: bool,
    s: SelectionModel,
    first_visible: usize,
    last_visible: usize,
) -> Option<usize> {
    let s1 = if k.arrow_up && free { after_arrow_up(s, last_visible) } else { s };
    let s2 = if k.arrow_down && free { after_arrow_down(s1, first_visible) } else { s1 };
    if k.enter && free { enter_row(s2) } else { None }
}

/// The new item the keys of a frame start: Cmd+Shift+N a folder, then
/// Cmd+Shift+F a file; `None` when neither is pressed.
pub open spec fn keys_new_item(k: KeyInput) -> Option<NewItemType> {
    if k.command && k.shift && k.key_f {
        Some(NewItemType::File)
    } else if k.command && k.shift && k.key_n {
        Some(NewItemType::Folder)
    } else {
        None
    }
}

/// Cmd+Shift+N opens the field for a new folder named "nueva carpeta" and
/// Cmd+Shift+F the one for a new file named "nuevo archivo"; without Cmd and
/// Shift, or without N or F, no field opens.
pub proof fn law_new_item_keys(k: KeyInput)
    ensures
        k.command && k.shift && k.key_n && !k.key_f ==> keys_new_item(k) == Some(NewItemType::Folder),
        k.command && k.shift && k.key_f ==> keys_new_item(k) == Some(NewItemType::File),
        !(k.command && k.shift && (k.key_n || k.key_f)) ==> keys_new_item(k) is None,
        new_item_name(NewItemType::Folder) == "nueva carpeta"@,
        new_item_name(NewItemType::File) == "nuevo archivo"@,
{
}

/// The selection keys, each alone, when no name is being typed: the up
/// arrow and the down arrow move the single selection, Enter keeps the
/// selection (forgetting a clicked row past the end), Cmd+A selects every
/// row and keeps the rest; while a name is typed the arrows and Enter leave
/// the selection as it was. Enter opens the clicked row when it is a row of
/// the list.
pub proof fn law_selection_keys(s: SelectionModel, fv: usize, lv: usize)
    ensures
        keys_selection(KeyInput { arrow_up: true, ..no_keys() }, true, s, fv, lv) == after_arrow_up(s, lv),
        keys_selection(KeyInput { arrow_down: true, ..no_keys() }, true, s, fv, lv) == after_arrow_down(s, fv),
        keys_selection(KeyInput { arrow_up: true, arrow_down: true, enter: true, ..no_keys() }, false, s, fv, lv) == s,
        keys_selection(KeyInput { enter: true, ..no_keys() }, true, s, fv, lv).flags == s.flags,
        keys_selection(KeyInput { command: true, key_a: true, ..no_keys() }, true, s, fv, lv).flags
            == Seq::new(s.flags.len(), |k: int| true),
        keys_selection(KeyInput { command: true, key_a: true, ..no_keys() }, true, s, fv, lv).last == s.last,
        keys_selection(KeyInput { command: true, key_a: true, ..no_keys() }, false, s, fv, lv).flags
            == Seq::new(s.flags.len(), |k: int| true),
        (s.last matches Some(l) && l < s.flags.len()) ==> keys_opened(
            KeyInput { enter: true, ..no_keys() },
            true,
            s,
            fv,
            lv,
        ) == s.last,
        (s.last matches Some(l) && l >= s.flags.len()) ==> keys_opened(
            KeyInput { enter: true, ..no_keys() },
            true,
            s,
            fv,
            lv,
        ) is None,
        s.last is None ==> keys_opened(KeyInput { enter: true, ..no_keys() }, true, s, fv, lv) is None,
        keys_opened(KeyInput { enter: true, ..no_keys() }, false, s, fv, lv) is None,
{
}

/// Carries out what the keys of a frame do to the file list and returns
/// the actions left to the interface, in order.
///
/// No name is being typed (`free`) when no file is renamed and no new item
/// is named. Then the up and down arrows move the single selection (from
/// the last clicked row, or from the last or first visible row), Enter opens
/// the last clicked row (`Open`) or forgets a row past the end; Cmd+A
/// selects every row. Cmd+Shift+N and Cmd+Shift+F open the new-item field
/// for a folder or a file with its default name. F5 or Cmd+R forgets the
/// computed and pending sizes of the listed folders (`is_dir` marks them),
/// before the interface reloads the folder (`Refresh`).
pub fn hot_keys_logic(
    k: KeyInput,
    c: KeyContext,
    events: &Vec<KeyEvent>,
    selection: &mut ListSelection,
    new_item: &mut NewItemField,
    dir_sizes: &mut JobMarks,
    is_dir: &Vec<bool>,
    first_visible: usize,
    last_visible: usize,
) -> (r: Vec<HotKeyAction>)
    requires
        old(dir_sizes).pending@.len() == is_dir@.len(),
        old(dir_sizes).done@.len() == is_dir@.len(),
    ensures
        ({
            let refresh = (k.f5 || (k.command && k.key_r)) && !c.renaming
                && old(new_item).creating_new is None;
            &&& final(dir_sizes).pending@.len() == is_dir@.len()
            &&& final(dir_sizes).done@.len() == is_dir@.len()
            &&& forall|j: int|
                0 <= j < is_dir@.len() ==> #[trigger] final(dir_sizes).pending@[j] == (old(
                    dir_sizes,
                ).pending@[j] && !(refresh && is_dir@[j]))
            &&& forall|j: int|
                0 <= j < is_dir@.len() ==> #[trigger] final(dir_sizes).done@[j] == (old(
                    dir_sizes,
                ).done@[j] && !(refresh && is_dir@[j]))
        }),
        ({
            let free = !c.renaming && old(new_item).creating_new is None;
            &&& final(selection).model() == keys_selection(
                k,
                free,
                old(selection).model(),
                first_visible,
                last_visible,
            )
            &&& r@ == hot_key_actions(
                k,
                c,
                free,
                keys_opened(k, free, old(selection).model(), first_visible, last_visible),
                events@,
            )
        }),
        match keys_new_item(k) {
            Some(t) => final(new_item).creating_new == Some(t) && final(new_item).buffer@
                == new_item_name(t),
            None => final(new_item).creating_new == old(new_item).creating_new
                && final(new_item).buffer@ == old(new_item).buffer@,
        },
{
    let free = !c.renaming && new_item.creating_new.is_none();
    if k.arrow_up && free {
        selection.arrow_up(last_visible);
    }
    if k.arrow_down && free {
        selection.arrow_down(first_visible);
    }
    let opened = if k.enter && free {
        selection.enter()
    } else {
        None
    };
    if k.command && k.key_a {
        selection.select_all();
    }
    if (k.f5 || (k.command && k.key_r)) && free {
        dir_sizes.forget(is_dir);
    }
    if k.command && k.shift && k.key_n {
        new_item.start(NewItemType::Folder);
    }
    if k.command && k.shift && k.key_f {
        new_item.start(NewItemType::File);
    }
    let mut r = key_actions_exec(k, c, free, opened);
    if c.text_edit_focused {
        assert(r@ =~= hot_key_actions(k, c, free, opened, events@));
        return r;
    }
    events_actions_exec(events, c, &mut r);
    r
}

} // verus!
