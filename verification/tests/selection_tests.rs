use blaze_app::selection::{ghost_label, ghost_layers, DropTarget, ListSelection};

fn flags(s: &ListSelection) -> Vec<bool> {
    s.selected.clone()
}

#[test]
fn new_selection_is_empty() {
    let s = ListSelection::new(3);
    assert_eq!(flags(&s), vec![false, false, false]);
    assert_eq!(s.len(), 3);
    assert_eq!(s.last_selected_index, None);
    assert_eq!(s.selected_count(), 0);
    assert_eq!(s.first_selected(), None);
}

#[test]
fn plain_click_selects_only_that_row() {
    let mut s = ListSelection::new(4);
    s.click(1, false, false);
    s.click(2, false, false);
    assert_eq!(flags(&s), vec![false, false, true, false]);
    assert_eq!(s.last_selected_index, Some(2));
    assert_eq!(s.selection_anchor, Some(2));
    assert_eq!(s.selected_count(), 1);
    assert_eq!(s.first_selected(), Some(2));
}

#[test]
fn ctrl_click_toggles_and_moves_the_anchor() {
    let mut s = ListSelection::new(3);
    s.click(0, false, true);
    s.click(2, false, true);
    assert_eq!(flags(&s), vec![true, false, true]);
    assert_eq!(s.selection_anchor, Some(2));
    s.click(0, false, true);
    assert_eq!(flags(&s), vec![false, false, true]);
    assert_eq!(s.last_selected_index, Some(0));
    assert_eq!(s.selection_anchor, Some(0));
}

#[test]
fn shift_click_extends_from_the_anchor() {
    let mut s = ListSelection::new(6);
    s.click(4, false, false);
    s.click(1, true, false);
    assert_eq!(flags(&s), vec![false, true, true, true, true, false]);
    assert_eq!(s.last_selected_index, Some(1));
    assert_eq!(s.selection_anchor, Some(4));
    s.click(5, true, false);
    assert_eq!(flags(&s), vec![false, true, true, true, true, true]);
    assert_eq!(s.selection_anchor, Some(4));
    let mut t = ListSelection::new(3);
    t.click(1, true, false);
    assert_eq!(flags(&t), vec![false, true, false]);
    assert_eq!(t.last_selected_index, Some(1));
    assert_eq!(t.selection_anchor, Some(1));
}

#[test]
fn background_click_clears() {
    let mut s = ListSelection::new(2);
    s.select_all();
    s.background_click();
    assert_eq!(flags(&s), vec![false, false]);
    assert_eq!(s.last_selected_index, None);
}

#[test]
fn secondary_click_flips_or_keeps() {
    let mut s = ListSelection::new(3);
    s.click(0, false, false);
    s.secondary_click(2, true);
    assert_eq!(flags(&s), vec![true, false, true]);
    assert_eq!(s.selection_anchor, Some(0));
    s.secondary_click(0, false);
    assert_eq!(flags(&s), vec![true, false, true]);
    assert_eq!(s.last_selected_index, Some(2));
    s.secondary_click(2, true);
    assert_eq!(flags(&s), vec![true, false, false]);
    s.secondary_click(1, false);
    assert_eq!(flags(&s), vec![false, true, false]);
    assert_eq!(s.selection_anchor, Some(0));
}

#[test]
fn toggling_twice_restores() {
    let mut s = ListSelection::new(3);
    s.click(1, false, false);
    let before = flags(&s);
    s.toggle(2);
    s.toggle(2);
    assert_eq!(flags(&s), before);
    assert_eq!(s.last_selected_index, Some(2));
}

#[test]
fn drag_start_keeps_a_selected_row() {
    let mut s = ListSelection::new(3);
    s.click(0, false, true);
    s.click(1, false, true);
    s.drag_start(1);
    assert_eq!(flags(&s), vec![true, true, false]);
    assert_eq!(s.selection_anchor, Some(1));
    s.drag_start(2);
    assert_eq!(flags(&s), vec![false, false, true]);
    assert_eq!(s.last_selected_index, Some(2));
    assert_eq!(s.selection_anchor, Some(2));
}

#[test]
fn arrows_move_the_single_selection() {
    let mut s = ListSelection::new(5);
    s.arrow_down(2);
    assert_eq!(flags(&s), vec![false, false, true, false, false]);
    assert_eq!(s.selection_anchor, Some(2));
    assert_eq!(s.pending_scroll_to, Some(2));
    s.arrow_down(0);
    assert_eq!(s.last_selected_index, Some(3));
    s.arrow_down(0);
    s.arrow_down(0);
    assert_eq!(s.last_selected_index, Some(4));
    s.arrow_up(0);
    assert_eq!(s.last_selected_index, Some(3));
    let mut t = ListSelection::new(5);
    t.arrow_up(9);
    assert_eq!(t.last_selected_index, Some(4));
    t.click(0, false, false);
    t.arrow_up(9);
    assert_eq!(t.last_selected_index, Some(0));
}

#[test]
fn arrows_on_an_empty_list() {
    let mut s = ListSelection::new(0);
    s.arrow_down(0);
    assert_eq!(s.last_selected_index, None);
    assert_eq!(s.selection_anchor, None);
    s.arrow_up(0);
    assert!(flags(&s).is_empty());
}

#[test]
fn enter_opens_the_last_clicked_row() {
    let mut s = ListSelection::new(3);
    assert_eq!(s.enter(), None);
    s.click(1, false, false);
    assert_eq!(s.enter(), Some(1));
    s.last_selected_index = Some(7);
    assert_eq!(s.enter(), None);
    assert_eq!(s.last_selected_index, None);
}

#[test]
fn select_all_button() {
    let mut s = ListSelection::new(3);
    assert!(!s.all_selected());
    assert_eq!(s.select_all_label(), "Seleccionar todo");
    s.toggle_select_all();
    assert!(s.all_selected());
    assert_eq!(s.selected_count(), 3);
    assert_eq!(s.select_all_label(), "Deseleccionar todo");
    s.toggle_select_all();
    assert_eq!(s.selected_count(), 0);
    let empty = ListSelection::new(0);
    assert!(!empty.all_selected());
}

#[test]
fn selected_size_sums_the_selected_rows() {
    let mut s = ListSelection::new(3);
    s.click(0, false, true);
    s.click(2, false, true);
    assert_eq!(s.selected_size(&vec![10, 20, 30]), 40);
    s.deselect_all();
    assert_eq!(s.selected_size(&vec![10, 20, 30]), 0);
}

#[test]
fn drop_targets() {
    let mut s = ListSelection::new(3);
    s.click(0, false, false);
    let dirs = vec![true, true, false];
    assert_eq!(s.drop_target(Some(1), &dirs), DropTarget::Folder(1));
    assert_eq!(s.drop_target(Some(0), &dirs), DropTarget::Nothing);
    assert_eq!(s.drop_target(Some(2), &dirs), DropTarget::Invalid(2));
    assert_eq!(s.drop_target(Some(5), &dirs), DropTarget::Nothing);
    assert_eq!(s.drop_target(None, &dirs), DropTarget::Nothing);
}

#[test]
fn drag_ghost() {
    assert_eq!(ghost_layers(0), 0);
    assert_eq!(ghost_layers(2), 2);
    assert_eq!(ghost_layers(10), 3);
    assert_eq!(ghost_label(Some("foto.png"), 1), "foto.png");
    assert_eq!(ghost_label(Some("foto.png"), 4), "foto.png y 3 más");
    assert_eq!(ghost_label(None, 2), "archivo y 1 más");
    assert_eq!(ghost_label(None, 0), "archivo");
}

#[test]
fn up_undoes_down() {
    let mut s = ListSelection::new(4);
    s.click(1, false, false);
    s.arrow_down(0);
    assert_eq!(s.last_selected_index, Some(2));
    s.arrow_up(0);
    assert_eq!(s.last_selected_index, Some(1));
    assert_eq!(flags(&s), vec![false, true, false, false]);
}
