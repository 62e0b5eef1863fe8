use blaze_app::context_menu::{NewItemField, NewItemType};
use blaze_app::hot_keys::{hot_keys_logic, HotKeyAction, KeyContext, KeyEvent, KeyInput, KeyName};
use blaze_app::folder_sizes::JobMarks;
use blaze_app::selection::ListSelection;

fn run(k: KeyInput, c: KeyContext, events: &Vec<KeyEvent>) -> Vec<HotKeyAction> {
    let mut sel = ListSelection::new(5);
    let mut item = NewItemField::new();
    hot_keys_logic(k, c, events, &mut sel, &mut item, &mut JobMarks::new(0), &vec![], 0, 4)
}

fn no_keys() -> KeyInput {
    KeyInput {
        arrow_up: false,
        arrow_down: false,
        enter: false,
        key_a: false,
        key_f: false,
        key_n: false,
        key_r: false,
        key_t: false,
        key_w: false,
        key_z: false,
        f5: false,
        delete: false,
        command: false,
        ctrl: false,
        shift: false,
        alt: false,
        mouse_back: false,
        mouse_forward: false,
        copy_event: false,
        cut_event: false,
        paste_event: false,
    }
}

fn idle() -> KeyContext {
    KeyContext {
        renaming: false,
        has_clipboard: false,
        in_trash: false,
        has_selection: false,
        search_empty: true,
        search_bar_focused: false,
        text_edit_focused: false,
        config_search_focused: false,
        context_menu_open: false,
    }
}

fn key(k: KeyName, pressed: bool, ctrl: bool, shift: bool) -> KeyEvent {
    KeyEvent::Key { key: k, pressed, ctrl, shift, alt: false }
}

#[test]
fn nothing_pressed_does_nothing() {
    assert!(run(no_keys(), idle(), &vec![]).is_empty());
}

#[test]
fn arrows_and_enter() {
    let mut k = no_keys();
    k.arrow_down = true;
    k.enter = true;
    assert_eq!(run(k, idle(), &vec![]), vec![HotKeyAction::SelectNext, HotKeyAction::Open(0)]);
}

#[test]
fn navigation_is_off_while_renaming() {
    let mut k = no_keys();
    k.arrow_up = true;
    k.f5 = true;
    k.command = true;
    k.key_a = true;
    let mut c = idle();
    c.renaming = true;
    assert_eq!(run(k, c, &vec![]), vec![HotKeyAction::SelectAll]);
}

#[test]
fn delete_depends_on_the_trash() {
    let mut k = no_keys();
    k.delete = true;
    let mut c = idle();
    assert!(run(k, c, &vec![]).is_empty());
    c.has_selection = true;
    assert_eq!(run(k, c, &vec![]), vec![HotKeyAction::MoveToTrash]);
    c.in_trash = true;
    assert_eq!(run(k, c, &vec![]), vec![HotKeyAction::ConfirmDelete]);
}

#[test]
fn new_tab_versus_new_folder() {
    let mut k = no_keys();
    k.command = true;
    k.key_n = true;
    assert_eq!(run(k, idle(), &vec![]), vec![HotKeyAction::NewTab]);
    k.shift = true;
    assert_eq!(run(k, idle(), &vec![]), vec![HotKeyAction::NewFolder]);
}

#[test]
fn paste_needs_a_clipboard() {
    let mut k = no_keys();
    k.paste_event = true;
    let mut c = idle();
    assert!(run(k, c, &vec![]).is_empty());
    c.has_clipboard = true;
    assert_eq!(run(k, c, &vec![]), vec![HotKeyAction::Paste]);
}

#[test]
fn tab_events() {
    let events = vec![
        key(KeyName::Tab, true, true, false),
        key(KeyName::Tab, true, true, true),
        key(KeyName::Num(2), true, true, false),
        key(KeyName::Num(2), true, false, false),
        key(KeyName::ArrowLeft, true, true, false),
        KeyEvent::Other,
        key(KeyName::ArrowRight, true, true, false),
    ];
    assert_eq!(
        run(no_keys(), idle(), &events),
        vec![
            HotKeyAction::NextTab { refresh: true },
            HotKeyAction::PrevTab { refresh: true },
            HotKeyAction::SwitchTab(2),
            HotKeyAction::PrevTab { refresh: false },
            HotKeyAction::NextTab { refresh: false },
        ]
    );
}

#[test]
fn released_keys_are_passed_over() {
    let events = vec![
        key(KeyName::Tab, true, true, false),
        key(KeyName::Tab, false, true, false),
        key(KeyName::Num(0), true, true, false),
    ];
    assert_eq!(
        run(no_keys(), idle(), &events),
        vec![HotKeyAction::NextTab { refresh: true }, HotKeyAction::SwitchTab(0)]
    );
}

#[test]
fn letters_start_a_search() {
    let events = vec![
        key(KeyName::Letter('D'), true, false, false),
        key(KeyName::Letter('E'), true, true, false),
    ];
    assert_eq!(
        run(no_keys(), idle(), &events),
        vec![HotKeyAction::SearchLetter('d')]
    );
    let mut c = idle();
    c.context_menu_open = true;
    assert!(run(no_keys(), c, &events).is_empty());
}

#[test]
fn focused_text_field_ignores_events() {
    let mut c = idle();
    c.text_edit_focused = true;
    let events = vec![key(KeyName::Tab, true, true, false)];
    assert!(run(no_keys(), c, &events).is_empty());
}

#[test]
fn shortcut_table() {
    let mut k = no_keys();
    k.command = true;
    k.key_a = true;
    assert_eq!(run(k, idle(), &vec![]), vec![HotKeyAction::SelectAll]);

    let mut k = no_keys();
    k.ctrl = true;
    k.key_z = true;
    assert_eq!(run(k, idle(), &vec![]), vec![HotKeyAction::Undo]);

    let mut k = no_keys();
    k.command = true;
    k.key_r = true;
    assert_eq!(run(k, idle(), &vec![]), vec![HotKeyAction::Refresh]);

    let mut k = no_keys();
    k.alt = true;
    k.key_r = true;
    assert_eq!(run(k, idle(), &vec![]), vec![HotKeyAction::RecursiveSearch]);

    let mut k = no_keys();
    k.alt = true;
    k.key_t = true;
    assert_eq!(run(k, idle(), &vec![]), vec![HotKeyAction::OpenTerminal]);

    let mut k = no_keys();
    k.command = true;
    k.key_w = true;
    assert_eq!(run(k, idle(), &vec![]), vec![HotKeyAction::CloseTab]);

    let mut k = no_keys();
    k.command = true;
    k.shift = true;
    k.key_f = true;
    assert_eq!(run(k, idle(), &vec![]), vec![HotKeyAction::NewFile]);

    let mut k = no_keys();
    k.mouse_back = true;
    k.mouse_forward = true;
    assert_eq!(
        run(k, idle(), &vec![]),
        vec![HotKeyAction::Back, HotKeyAction::Forward]
    );

    let events = vec![
        key(KeyName::Tab, true, true, false),
        key(KeyName::Tab, true, true, true),
        key(KeyName::Num(0), true, true, false),
        key(KeyName::Num(4), true, true, false),
        key(KeyName::Num(5), true, true, false),
    ];
    assert_eq!(
        run(no_keys(), idle(), &events),
        vec![
            HotKeyAction::NextTab { refresh: true },
            HotKeyAction::PrevTab { refresh: true },
            HotKeyAction::SwitchTab(0),
            HotKeyAction::SwitchTab(4),
        ]
    );
}

#[test]
fn recursive_search_waits_for_a_typed_search() {
    let mut k = no_keys();
    k.alt = true;
    k.key_r = true;
    let mut c = idle();
    c.search_empty = false;
    c.search_bar_focused = true;
    assert!(run(k, c, &vec![]).is_empty());
    c.search_bar_focused = false;
    assert_eq!(run(k, c, &vec![]), vec![HotKeyAction::RecursiveSearch]);
}

#[test]
fn arrows_move_the_selection() {
    let mut sel = ListSelection::new(5);
    let mut item = NewItemField::new();
    let mut k = no_keys();
    k.arrow_down = true;
    hot_keys_logic(k, idle(), &vec![], &mut sel, &mut item, &mut JobMarks::new(0), &vec![], 2, 4);
    assert_eq!(sel.selected, vec![false, false, true, false, false]);
    assert_eq!(sel.selection_anchor, Some(2));
    assert_eq!(sel.pending_scroll_to, Some(2));
    hot_keys_logic(k, idle(), &vec![], &mut sel, &mut item, &mut JobMarks::new(0), &vec![], 2, 4);
    assert_eq!(sel.last_selected_index, Some(3));
    let mut up = no_keys();
    up.arrow_up = true;
    hot_keys_logic(up, idle(), &vec![], &mut sel, &mut item, &mut JobMarks::new(0), &vec![], 2, 4);
    assert_eq!(sel.selected, vec![false, false, true, false, false]);
    assert_eq!(sel.last_selected_index, Some(2));
}

#[test]
fn arrows_on_an_empty_list_forget_the_rows() {
    let mut sel = ListSelection::new(0);
    let mut item = NewItemField::new();
    let mut k = no_keys();
    k.arrow_down = true;
    hot_keys_logic(k, idle(), &vec![], &mut sel, &mut item, &mut JobMarks::new(0), &vec![], 0, 0);
    assert_eq!(sel.last_selected_index, None);
    assert_eq!(sel.selection_anchor, None);
}

#[test]
fn enter_key_opens_the_last_clicked_row() {
    let mut sel = ListSelection::new(5);
    let mut item = NewItemField::new();
    sel.click(3, false, false);
    let mut k = no_keys();
    k.enter = true;
    assert_eq!(hot_keys_logic(k, idle(), &vec![], &mut sel, &mut item, &mut JobMarks::new(0), &vec![], 0, 4), vec![HotKeyAction::Open(3)]);
    sel.last_selected_index = Some(9);
    assert!(hot_keys_logic(k, idle(), &vec![], &mut sel, &mut item, &mut JobMarks::new(0), &vec![], 0, 4).is_empty());
    assert_eq!(sel.last_selected_index, None);
    let mut none = ListSelection::new(2);
    assert!(hot_keys_logic(k, idle(), &vec![], &mut none, &mut item, &mut JobMarks::new(0), &vec![], 0, 1).is_empty());
}

#[test]
fn cmd_a_selects_every_row_even_when_all_are_selected() {
    let mut sel = ListSelection::new(3);
    let mut item = NewItemField::new();
    let mut k = no_keys();
    k.command = true;
    k.key_a = true;
    hot_keys_logic(k, idle(), &vec![], &mut sel, &mut item, &mut JobMarks::new(0), &vec![], 0, 2);
    assert_eq!(sel.selected, vec![true, true, true]);
    hot_keys_logic(k, idle(), &vec![], &mut sel, &mut item, &mut JobMarks::new(0), &vec![], 0, 2);
    assert_eq!(sel.selected, vec![true, true, true]);
}

#[test]
fn new_folder_and_file_open_the_field() {
    let mut sel = ListSelection::new(3);
    let mut item = NewItemField::new();
    let mut k = no_keys();
    k.command = true;
    k.shift = true;
    k.key_n = true;
    assert_eq!(hot_keys_logic(k, idle(), &vec![], &mut sel, &mut item, &mut JobMarks::new(0), &vec![], 0, 2), vec![HotKeyAction::NewFolder]);
    assert_eq!(item.creating_new, Some(NewItemType::Folder));
    assert_eq!(item.buffer, "nueva carpeta");
    let mut f = no_keys();
    f.command = true;
    f.shift = true;
    f.key_f = true;
    hot_keys_logic(f, idle(), &vec![], &mut sel, &mut item, &mut JobMarks::new(0), &vec![], 0, 2);
    assert_eq!(item.creating_new, Some(NewItemType::File));
    assert_eq!(item.buffer, "nuevo archivo");
}

#[test]
fn keys_wait_while_a_new_item_is_named() {
    let mut sel = ListSelection::new(3);
    let mut item = NewItemField::new();
    item.start(NewItemType::Folder);
    let mut k = no_keys();
    k.arrow_down = true;
    k.enter = true;
    assert!(hot_keys_logic(k, idle(), &vec![], &mut sel, &mut item, &mut JobMarks::new(0), &vec![], 0, 2).is_empty());
    assert_eq!(sel.last_selected_index, None);
}

#[test]
fn tab_without_ctrl_does_not_switch() {
    let events = vec![key(KeyName::Tab, true, false, false), key(KeyName::Tab, true, false, true)];
    assert!(run(no_keys(), idle(), &events).is_empty());
}

#[test]
fn refresh_forgets_the_folder_sizes() {
    let mut sel = ListSelection::new(3);
    let mut item = NewItemField::new();
    let mut sizes = JobMarks::new(3);
    let is_dir = vec![true, false, true];
    sizes.schedule_visible(0, 3, &is_dir);
    sizes.done[0] = true;
    sizes.pending[0] = false;
    sizes.done[1] = true;
    let mut k = no_keys();
    k.f5 = true;
    let r = hot_keys_logic(k, idle(), &vec![], &mut sel, &mut item, &mut sizes, &is_dir, 0, 2);
    assert_eq!(r, vec![HotKeyAction::Refresh]);
    assert_eq!(sizes.pending, vec![false, false, false]);
    assert_eq!(sizes.done, vec![false, true, false]);
}
