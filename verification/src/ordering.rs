use vstd::prelude::*;
use crate::text::append_str;

verus! {

/// What the file list is sorted by.
#[derive(Clone, Copy, Debug, PartialEq, Eq, Structural)]
pub enum OrderingKind {
    Name,
    Size,
    Date,
}

#[derive(Clone, Copy, Debug, PartialEq, Eq, Structural)]
pub enum OrderingDirection {
    Asc,
    Desc,
}

/// How the file list is sorted.
#[derive(Clone, Copy, Debug, PartialEq, Eq, Structural)]
pub struct OrderingMode {
    pub kind: OrderingKind,
    pub direction: OrderingDirection,
}

/// A column of the detailed view.
#[derive(Clone, Copy, Debug, PartialEq, Eq, Structural)]
pub enum DetailedColumn {
    Name,
    Size,
    Extension,
    Modified,
    Created,
    Accessed,
    Owner,
    Group,
    Permissions,
    Dimensions,
    SymlinkTarget,
}

/// The sort order a column header stands for: name, size and modification
/// date can sort the list, the other columns cannot.
pub open spec fn column_kind(col: DetailedColumn) -> Option<OrderingKind> {
    match col {
        DetailedColumn::Name => Some(OrderingKind::Name),
        DetailedColumn::Size => Some(OrderingKind::Size),
        DetailedColumn::Modified => Some(OrderingKind::Date),
        _ => None,
    }
}

/// Sorting by `kind` from the order `current`: sorting again by the same
/// key in ascending order turns it descending; anything else sorts by the
/// key in ascending order.
pub open spec fn toggled(kind: OrderingKind, current: OrderingMode) -> OrderingMode {
    if current.kind == kind && current.direction == OrderingDirection::Asc {
        OrderingMode { kind, direction: OrderingDirection::Desc }
    } else {
        OrderingMode { kind, direction: OrderingDirection::Asc }
    }
}

/// The sort order of a column header.
pub fn col_ordering_kind(col: DetailedColumn) -> (r: Option<OrderingKind>)
    ensures
        r == column_kind(col),
{
    match col {
        DetailedColumn::Name => Some(OrderingKind::Name),
        DetailedColumn::Size => Some(OrderingKind::Size),
        DetailedColumn::Modified => Some(OrderingKind::Date),
        _ => None,
    }
}

/// The order chosen by a click on the sort button of `kind`.
pub fn toggle_ordering(kind: OrderingKind, current: OrderingMode) -> (r: OrderingMode)
    ensures
        r == toggled(kind, current),
{
    if current.kind == kind && current.direction == OrderingDirection::Asc {
        OrderingMode { kind, direction: OrderingDirection::Desc }
    } else {
        OrderingMode { kind, direction: OrderingDirection::Asc }
    }
}

/// The order chosen by a click on a column header, `None` for a column
/// that does not sort.
pub fn col_handle_sort_click(col: DetailedColumn, order: OrderingMode) -> (r: Option<OrderingMode>)
    ensures
        match column_kind(col) {
            Some(k) => r == Some(toggled(k, order)),
            None => r is None,
        },
{
    match col_ordering_kind(col) {
        Some(kind) => Some(toggle_ordering(kind, order)),
        None => None,
    }
}

/// The key of a column's title in the language files.
pub fn column_label_key(col: DetailedColumn) -> (k: &'static str)
    ensures
        k@ == (match col {
            DetailedColumn::Name => "tools.name"@,
            DetailedColumn::Size => "tools.size"@,
            DetailedColumn::Extension => "tools.extension"@,
            DetailedColumn::Modified => "tools.modified"@,
            DetailedColumn::Created => "tools.created"@,
            DetailedColumn::Accessed => "tools.accessed"@,
            DetailedColumn::Owner => "tools.owner"@,
            DetailedColumn::Group => "tools.group"@,
            DetailedColumn::Permissions => "tools.permissions"@,
            DetailedColumn::Dimensions => "tools.dimensions"@,
            DetailedColumn::SymlinkTarget => "tools.symlink"@,
        }),
{
    match col {
        DetailedColumn::Name => "tools.name",
        DetailedColumn::Size => "tools.size",
        DetailedColumn::Extension => "tools.extension",
        DetailedColumn::Modified => "tools.modified",
        DetailedColumn::Created => "tools.created",
        DetailedColumn::Accessed => "tools.accessed",
        DetailedColumn::Owner => "tools.owner",
        DetailedColumn::Group => "tools.group",
        DetailedColumn::Permissions => "tools.permissions",
        DetailedColumn::Dimensions => "tools.dimensions",
        DetailedColumn::SymlinkTarget => "tools.symlink",
    }
}

/// The arrow shown after the title of the column the list is sorted by.
pub open spec fn direction_arrow(d: OrderingDirection) -> Seq<char> {
    match d {
        OrderingDirection::Asc => "↑"@,
        OrderingDirection::Desc => "↓"@,
    }
}

/// The header of a column: its title `base` in the interface's language, followed by the
/// arrow of the direction when the list is sorted by this column.
pub fn col_sort_label(col: DetailedColumn, order: OrderingMode, base: String) -> (r: String)
    ensures
        r@ == (if column_kind(col) == Some(order.kind) {
            base@ + direction_arrow(order.direction)
        } else {
            base@
        }),
{
    let arrow = match order.direction {
        OrderingDirection::Asc => "↑",
        OrderingDirection::Desc => "↓",
    };
    if col_ordering_kind(col) == Some(order.kind) {
        let mut r = base;
        append_str(&mut r, arrow);
        r
    } else {
        base
    }
}

/// The icon of a sort button: the button's icon name followed by the
/// direction, as `alphabet-asc` or `size-desc`.
pub fn ordering_icon_name(base: &str, mode: OrderingMode) -> (r: String)
    ensures
        r@ == base@ + (match mode.direction {
            OrderingDirection::Asc => "-asc"@,
            OrderingDirection::Desc => "-desc"@,
        }),
{
    let mut r = base.to_owned();
    match mode.direction {
        OrderingDirection::Asc => append_str(&mut r, "-asc"),
        OrderingDirection::Desc => append_str(&mut r, "-desc"),
    }
    r
}

/// Only the name, size and modification-date columns sort the list, each by
/// its own key; a click on the key the list is sorted by ascending turns it
/// descending, and any other click sorts ascending. The arrow points up for
/// the ascending order and down for the descending one.
pub proof fn law_sorting_columns(col: DetailedColumn, kind: OrderingKind, current: OrderingMode)
    ensures
        column_kind(DetailedColumn::Name) == Some(OrderingKind::Name),
        column_kind(DetailedColumn::Size) == Some(OrderingKind::Size),
        column_kind(DetailedColumn::Modified) == Some(OrderingKind::Date),
        col != DetailedColumn::Name && col != DetailedColumn::Size && col != DetailedColumn::Modified
            ==> column_kind(col) is None,
        current.kind == kind && current.direction == OrderingDirection::Asc ==> toggled(kind, current).direction
            == OrderingDirection::Desc,
        !(current.kind == kind && current.direction == OrderingDirection::Asc) ==> toggled(kind, current).direction
            == OrderingDirection::Asc,
        direction_arrow(OrderingDirection::Asc) == "↑"@,
        direction_arrow(OrderingDirection::Desc) == "↓"@,
{
}

/// A sort button always sorts by its own key.
pub proof fn law_toggle_sorts_by_kind(kind: OrderingKind, current: OrderingMode)
    ensures
        toggled(kind, current).kind == kind,
{
}

/// Two clicks on the button of the key the list is sorted by bring the
/// order back; from any other key two clicks give the descending order.
pub proof fn law_sort_toggle_twice(kind: OrderingKind, current: OrderingMode)
    ensures
        current.kind == kind ==> toggled(kind, toggled(kind, current)) == current,
        current.kind != kind ==> toggled(kind, toggled(kind, current)) == (OrderingMode {
            kind,
            direction: OrderingDirection::Desc,
        }),
{
}

} // verus!
