use vstd::prelude::*;

verus! {

/// How the files of a folder are laid out.
#[derive(Clone, Copy, Debug, PartialEq, Eq, Structural)]
pub enum LayoutMode {
    Row,
    Compact,
    RowDetailed,
    Grid,
    Miller,
}

/// The files of the folder, or the tag view, in a layout.
#[derive(Clone, Copy, Debug, PartialEq, Eq, Structural)]
pub enum ViewMode {
    Normal(LayoutMode),
    Tags(LayoutMode),
}

/// The layout of a view mode.
pub open spec fn layout_of(m: ViewMode) -> LayoutMode {
    match m {
        ViewMode::Normal(l) => l,
        ViewMode::Tags(l) => l,
    }
}

/// The other of the folder and tag views, with the same layout.
pub open spec fn tags_toggled(m: ViewMode) -> ViewMode {
    match m {
        ViewMode::Normal(l) => ViewMode::Tags(l),
        ViewMode::Tags(l) => ViewMode::Normal(l),
    }
}

/// The tags button: switches between the folder and the tag view, keeping
/// the layout.
pub fn toggle_tags(m: ViewMode) -> (r: ViewMode)
    ensures
        r == tags_toggled(m),
{
    match m {
        ViewMode::Normal(l) => ViewMode::Tags(l),
        ViewMode::Tags(l) => ViewMode::Normal(l),
    }
}

/// What the tag keys of a frame ask for: Ctrl+T switches between the folder
/// and the tag view; Ctrl+Shift+T asks for a new tag and leaves the view as
/// it is; without Ctrl and T nothing happens. The result is the view that
/// follows and whether a tag is to be created.
pub fn tags_key(ctrl: bool, shift: bool, key_t: bool, m: ViewMode) -> (r: (ViewMode, bool))
    ensures
        r == (if ctrl && key_t && shift {
            (m, true)
        } else if ctrl && key_t {
            (tags_toggled(m), false)
        } else {
            (m, false)
        }),
{
    if ctrl && key_t && shift {
        (m, true)
    } else if ctrl && key_t {
        (toggle_tags(m), false)
    } else {
        (m, false)
    }
}

/// The three layout buttons of the toolbar: list, grid and columns.
#[derive(Clone, Copy, Debug, PartialEq, Eq, Structural)]
pub enum LayoutButton {
    List,
    Grid,
    Miller,
}

/// Whether a layout is one of the list layouts, which share the list button.
pub open spec fn is_list_layout(l: LayoutMode) -> bool {
    l == LayoutMode::Row || l == LayoutMode::Compact || l == LayoutMode::RowDetailed
}

/// Whether a layout button is shown as the active one.
pub fn layout_button_active(b: LayoutButton, current: LayoutMode) -> (r: bool)
    ensures
        r == (match b {
            LayoutButton::List => is_list_layout(current),
            LayoutButton::Grid => current == LayoutMode::Grid,
            LayoutButton::Miller => current == LayoutMode::Miller,
        }),
{
    match b {
        LayoutButton::List => match current {
            LayoutMode::Row | LayoutMode::Compact | LayoutMode::RowDetailed => true,
            _ => false,
        },
        LayoutButton::Grid => match current {
            LayoutMode::Grid => true,
            _ => false,
        },
        LayoutButton::Miller => match current {
            LayoutMode::Miller => true,
            _ => false,
        },
    }
}

/// The icon of a layout button: the list button shows the list layout in
/// use.
pub fn layout_button_icon(b: LayoutButton, current: LayoutMode) -> (s: &'static str)
    ensures
        s@ == (match b {
            LayoutButton::List => match current {
                LayoutMode::Compact => "layout-compact"@,
                LayoutMode::RowDetailed => "layout-detailed"@,
                _ => "layout-list"@,
            },
            LayoutButton::Grid => "layout-grid"@,
            LayoutButton::Miller => "layout-miller"@,
        }),
{
    match b {
        LayoutButton::List => match current {
            LayoutMode::Compact => "layout-compact",
            LayoutMode::RowDetailed => "layout-detailed",
            _ => "layout-list",
        },
        LayoutButton::Grid => "layout-grid",
        LayoutButton::Miller => "layout-miller",
    }
}

/// The layout a click on a layout button chooses: the list button steps
/// through row, compact and detailed rows (coming from another layout it
/// starts at rows); the other buttons choose their own layout.
pub open spec fn layout_after_click(b: LayoutButton, current: LayoutMode) -> LayoutMode {
    match b {
        LayoutButton::List => match current {
            LayoutMode::Row => LayoutMode::Compact,
            LayoutMode::Compact => LayoutMode::RowDetailed,
            _ => LayoutMode::Row,
        },
        LayoutButton::Grid => LayoutMode::Grid,
        LayoutButton::Miller => LayoutMode::Miller,
    }
}

/// The view mode after a click on a layout button: the new layout, in the
/// folder or tag view as before.
pub fn click_layout_button(b: LayoutButton, m: ViewMode) -> (r: ViewMode)
    ensures
        r == (match m {
            ViewMode::Normal(l) => ViewMode::Normal(layout_after_click(b, l)),
            ViewMode::Tags(l) => ViewMode::Tags(layout_after_click(b, l)),
        }),
{
    let current = match m {
        ViewMode::Normal(l) => l,
        ViewMode::Tags(l) => l,
    };
    let next = match b {
        LayoutButton::List => match current {
            LayoutMode::Row => LayoutMode::Compact,
            LayoutMode::Compact => LayoutMode::RowDetailed,
            _ => LayoutMode::Row,
        },
        LayoutButton::Grid => LayoutMode::Grid,
        LayoutButton::Miller => LayoutMode::Miller,
    };
    match m {
        ViewMode::Normal(_) => ViewMode::Normal(next),
        ViewMode::Tags(_) => ViewMode::Tags(next),
    }
}

/// The tags button twice gives the view back; a layout click never changes
/// between the folder and the tag view; three clicks on the list button
/// bring a list layout back; the clicked button is then the active one.
pub proof fn law_view_mode_clicks(b: LayoutButton, m: ViewMode, l: LayoutMode)
    ensures
        tags_toggled(tags_toggled(m)) == m,
        layout_of(tags_toggled(m)) == layout_of(m),
        is_list_layout(l) ==> layout_after_click(
            LayoutButton::List,
            layout_after_click(LayoutButton::List, layout_after_click(LayoutButton::List, l)),
        ) == l,
        (match b {
            LayoutButton::List => is_list_layout(layout_after_click(b, l)),
            LayoutButton::Grid => layout_after_click(b, l) == LayoutMode::Grid,
            LayoutButton::Miller => layout_after_click(b, l) == LayoutMode::Miller,
        }),
{
}

/// The tags button always changes between the folder view and the tag
/// view; the list button goes from rows to compact rows, from compact rows
/// to detailed rows, and from any other layout back to rows.
pub proof fn law_tags_and_list_steps(m: ViewMode, l: LayoutMode)
    ensures
        tags_toggled(m) != m,
        m is Normal ==> tags_toggled(m) is Tags,
        m is Tags ==> tags_toggled(m) is Normal,
        layout_after_click(LayoutButton::List, LayoutMode::Row) == LayoutMode::Compact,
        layout_after_click(LayoutButton::List, LayoutMode::Compact) == LayoutMode::RowDetailed,
        l != LayoutMode::Row && l != LayoutMode::Compact ==> layout_after_click(LayoutButton::List, l)
            == LayoutMode::Row,
{
}

} // verus!
