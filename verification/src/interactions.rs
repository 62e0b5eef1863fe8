use vstd::prelude::*;
use crate::context_menu::ContextMenuKind;

verus! {

/// Whether a code point is white space in Unicode's sense: it has the
/// property `White_Space` of the Unicode Character Database, which holds of
/// these twenty-five code points and no others.
pub open spec fn white_space_code(u: u32) -> bool {
    ||| 0x9 <= u <= 0xD
    ||| u == 0x20
    ||| u == 0x85
    ||| u == 0xA0
    ||| u == 0x1680
    ||| 0x2000 <= u <= 0x200A
    ||| u == 0x2028
    ||| u == 0x2029
    ||| u == 0x202F
    ||| u == 0x205F
    ||| u == 0x3000
}

/// Whether a character is white space in Unicode's sense, as
/// `char::is_whitespace` of std tells.
pub open spec fn white_space(c: char) -> bool {
    white_space_code(c as u32)
}

/// Whether a character is white space in Unicode's sense (what
/// `char::is_whitespace` answers).
pub fn is_whitespace(c: char) -> (b: bool)
    ensures
        b == white_space(c),
{
    let u = c as u32;
    (0x9 <= u && u <= 0xD) || u == 0x20 || u == 0x85 || u == 0xA0 || u == 0x1680 || (0x2000 <= u
        && u <= 0x200A) || u == 0x2028 || u == 0x2029 || u == 0x202F || u == 0x205F || u == 0x3000
}

/// A string that holds nothing but white space (what `trim` empties).
pub open spec fn blank(s: Seq<char>) -> bool {
    forall|i: int| 0 <= i < s.len() ==> white_space(#[trigger] s[i])
}

/// Whether the string is empty once trimmed: nothing but white space.
pub fn is_blank(s: &str) -> (b: bool)
    ensures
        b == blank(s@),
{
    let n = s.unicode_len();
    let mut i: usize = 0;
    while i < n
        invariant
            n == s@.len(),
            i <= n,
            forall|k: int| 0 <= k < i ==> white_space(#[trigger] s@[k]),
        decreases n - i,
    {
        let c = s.get_char(i);
        if !is_whitespace(c) {
            return false;
        }
        i = i + 1;
    }
    true
}

/// What a frame of the field that names a new file or folder leads to.
#[derive(Clone, Copy, Debug, PartialEq, Eq, Structural)]
pub enum NewItemOutcome {
    /// Enter with a name that is not blank: the item is created.
    Create,
    /// Escape, or the field lost the focus without Enter: the field closes.
    Cancel,
    /// The field stays open.
    Keep,
}

/// The outcome of a frame of the new-item field: Enter with a non-blank
/// name creates the item; otherwise Escape, or losing the focus without
/// Enter, closes the field.
pub open spec fn new_item_outcome_spec(
    enter: bool,
    escape: bool,
    lost_focus: bool,
    name: Seq<char>,
) -> NewItemOutcome {
    if enter && !blank(name) {
        NewItemOutcome::Create
    } else if escape || (lost_focus && !enter) {
        NewItemOutcome::Cancel
    } else {
        NewItemOutcome::Keep
    }
}

/// Enter with a name that is not blank creates the item, even with Escape
/// in the same frame; Enter with a blank name never creates it; Escape
/// without Enter, or losing the focus without Enter, closes the field; with
/// none of the three the field stays open.
pub proof fn law_new_item_field(escape: bool, lost_focus: bool, name: Seq<char>)
    ensures
        !blank(name) ==> new_item_outcome_spec(true, escape, lost_focus, name) == NewItemOutcome::Create,
        blank(name) ==> new_item_outcome_spec(true, escape, lost_focus, name) != NewItemOutcome::Create,
        escape ==> new_item_outcome_spec(false, escape, lost_focus, name) == NewItemOutcome::Cancel,
        lost_focus ==> new_item_outcome_spec(false, escape, lost_focus, name) == NewItemOutcome::Cancel,
        new_item_outcome_spec(false, false, false, name) == NewItemOutcome::Keep,
        blank(Seq::<char>::empty()),
        blank(seq![' ', '\t', '\n']),
        !blank(seq!['a']),
        !blank(seq![' ', 'x', ' ']),
{
    assert(!white_space('x'));
    assert(seq![' ', 'x', ' '][1] == 'x');
    assert(seq!['a'][0] == 'a');
}

/// Decides a frame of the new-item field from the keys pressed, whether the
/// field lost the focus, and the name typed so far.
pub fn new_item_outcome(enter: bool, escape: bool, lost_focus: bool, name: &str) -> (r:
    NewItemOutcome)
    ensures
        r == new_item_outcome_spec(enter, escape, lost_focus, name@),
{
    if enter && !is_blank(name) {
        NewItemOutcome::Create
    } else if escape || (lost_focus && !enter) {
        NewItemOutcome::Cancel
    } else {
        NewItemOutcome::Keep
    }
}

/// What a frame of the rename field leads to.
#[derive(Clone, Copy, Debug, PartialEq, Eq, Structural)]
pub enum RenameOutcome {
    /// Enter while the field has the focus: the file is renamed.
    Commit,
    /// Escape, or the focus left the field while the pointer is elsewhere.
    Cancel,
    /// The field stays open.
    Keep,
}

/// Decides a frame of the rename field.
pub fn rename_outcome(has_focus: bool, enter: bool, escape: bool, lost_focus: bool, hovered: bool)
    -> (r: RenameOutcome)
    ensures
        r == (if has_focus && enter {
            RenameOutcome::Commit
        } else if escape || (lost_focus && !hovered) {
            RenameOutcome::Cancel
        } else {
            RenameOutcome::Keep
        }),
{
    if has_focus && enter {
        RenameOutcome::Commit
    } else if escape || (lost_focus && !hovered) {
        RenameOutcome::Cancel
    } else {
        RenameOutcome::Keep
    }
}

/// What releasing dragged files does.
#[derive(Clone, Copy, Debug, PartialEq, Eq, Structural)]
pub enum DropAction {
    /// Ask to move the selected files into the folder under the pointer.
    MoveToTarget,
    /// Ask to move the selected files into the folder being shown.
    MoveToCwd,
    /// Nothing moves; the drag ends.
    Nothing,
    /// Nothing moves, and the view keeps its dragging state: every file
    /// already lies in the folder being shown.
    NothingStillDragging,
}

/// Decides the end of a drag: outside the file area (the right fifth of the
/// view is the side panel) nothing moves; over a folder the files move
/// there; elsewhere they move into the folder being shown, unless they all
/// lie in it already.
pub fn drop_action(in_file_area: bool, has_target: bool, all_in_cwd: bool) -> (r: DropAction)
    ensures
        r == (if !in_file_area {
            DropAction::Nothing
        } else if has_target {
            DropAction::MoveToTarget
        } else if all_in_cwd {
            DropAction::NothingStillDragging
        } else {
            DropAction::MoveToCwd
        }),
{
    if !in_file_area {
        DropAction::Nothing
    } else if has_target {
        DropAction::MoveToTarget
    } else if all_in_cwd {
        DropAction::NothingStillDragging
    } else {
        DropAction::MoveToCwd
    }
}

/// The context menu that a secondary click opens: on a file or on the
/// background, in the trash or in an ordinary folder.
pub fn menu_kind_for(on_file: bool, in_trash: bool) -> (k: ContextMenuKind)
    ensures
        k == (if on_file {
            if in_trash { ContextMenuKind::FileTrash } else { ContextMenuKind::FileNormal }
        } else {
            if in_trash { ContextMenuKind::BackgroundTrash } else { ContextMenuKind::BackgroundNormal }
        }),
{
    if on_file {
        if in_trash {
            ContextMenuKind::FileTrash
        } else {
            ContextMenuKind::FileNormal
        }
    } else if in_trash {
        ContextMenuKind::BackgroundTrash
    } else {
        ContextMenuKind::BackgroundNormal
    }
}

/// The buttons of the toolbar that act on the folder shown.
#[derive(Clone, Copy, Debug, PartialEq, Eq, Structural)]
pub enum ToolButton {
    NewFolder,
    NewFile,
    Cut,
    Copy,
    Paste,
    Delete,
    SelectAll,
    Refresh,
    ShowHidden,
}

/// Whether a click on a toolbar button acts: cut, copy and delete need a
/// selection, paste needs files in the clipboard, the others always act.
pub fn tool_button_acts(b: ToolButton, has_selection: bool, has_clipboard: bool) -> (r: bool)
    ensures
        r == (match b {
            ToolButton::Cut | ToolButton::Copy | ToolButton::Delete => has_selection,
            ToolButton::Paste => has_clipboard,
            _ => true,
        }),
{
    match b {
        ToolButton::Cut | ToolButton::Copy | ToolButton::Delete => has_selection,
        ToolButton::Paste => has_clipboard,
        _ => true,
    }
}

/// Whether the bar of tabs is shown: only with more than one tab.
pub fn tab_bar_shown(tab_count: usize) -> (r: bool)
    ensures
        r == (tab_count > 1),
{
    tab_count > 1
}

/// The room the file views leave below them for the bar of tabs, in
/// points: 50 when it is shown, none otherwise.
pub fn tab_bar_height(tab_count: usize) -> (h: u8)
    ensures
        h == (if tab_count > 1 { 50u8 } else { 0u8 }),
{
    if tab_bar_shown(tab_count) {
        50
    } else {
        0
    }
}

} // verus!
