use blaze_app::ordering::{
    col_handle_sort_click, col_ordering_kind, col_sort_label, column_label_key, ordering_icon_name,
    toggle_ordering, DetailedColumn, OrderingDirection, OrderingKind, OrderingMode,
};

fn mode(kind: OrderingKind, direction: OrderingDirection) -> OrderingMode {
    OrderingMode { kind, direction }
}

#[test]
fn sortable_columns() {
    assert_eq!(col_ordering_kind(DetailedColumn::Name), Some(OrderingKind::Name));
    assert_eq!(col_ordering_kind(DetailedColumn::Size), Some(OrderingKind::Size));
    assert_eq!(col_ordering_kind(DetailedColumn::Modified), Some(OrderingKind::Date));
    assert_eq!(col_ordering_kind(DetailedColumn::Owner), None);
    assert_eq!(col_ordering_kind(DetailedColumn::Created), None);
}

#[test]
fn clicking_the_same_key_flips_direction() {
    let asc = mode(OrderingKind::Size, OrderingDirection::Asc);
    let desc = toggle_ordering(OrderingKind::Size, asc);
    assert_eq!(desc, mode(OrderingKind::Size, OrderingDirection::Desc));
    assert_eq!(toggle_ordering(OrderingKind::Size, desc), asc);
    assert_eq!(
        toggle_ordering(OrderingKind::Name, desc),
        mode(OrderingKind::Name, OrderingDirection::Asc)
    );
}

#[test]
fn header_clicks() {
    let cur = mode(OrderingKind::Name, OrderingDirection::Asc);
    assert_eq!(
        col_handle_sort_click(DetailedColumn::Name, cur),
        Some(mode(OrderingKind::Name, OrderingDirection::Desc))
    );
    assert_eq!(
        col_handle_sort_click(DetailedColumn::Modified, cur),
        Some(mode(OrderingKind::Date, OrderingDirection::Asc))
    );
    assert_eq!(col_handle_sort_click(DetailedColumn::Permissions, cur), None);
}

#[test]
fn header_labels() {
    let cur = mode(OrderingKind::Size, OrderingDirection::Desc);
    assert_eq!(col_sort_label(DetailedColumn::Size, cur, "Tamaño".to_string()), "Tamaño↓");
    assert_eq!(col_sort_label(DetailedColumn::Name, cur, "Nombre".to_string()), "Nombre");
    let asc = mode(OrderingKind::Date, OrderingDirection::Asc);
    assert_eq!(col_sort_label(DetailedColumn::Modified, asc, "Fecha".to_string()), "Fecha↑");
    assert_eq!(column_label_key(DetailedColumn::Name), "tools.name");
    assert_eq!(column_label_key(DetailedColumn::SymlinkTarget), "tools.symlink");
}

#[test]
fn sort_button_icons() {
    assert_eq!(
        ordering_icon_name("alphabet", mode(OrderingKind::Name, OrderingDirection::Asc)),
        "alphabet-asc"
    );
    assert_eq!(
        ordering_icon_name("size", mode(OrderingKind::Size, OrderingDirection::Desc)),
        "size-desc"
    );
}
