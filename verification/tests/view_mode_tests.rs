use blaze_app::view_mode::{
    click_layout_button, layout_button_active, layout_button_icon, toggle_tags, LayoutButton,
    LayoutMode, ViewMode,
};

#[test]
fn tags_button_keeps_the_layout() {
    assert_eq!(toggle_tags(ViewMode::Normal(LayoutMode::Grid)), ViewMode::Tags(LayoutMode::Grid));
    assert_eq!(toggle_tags(ViewMode::Tags(LayoutMode::Row)), ViewMode::Normal(LayoutMode::Row));
    let m = ViewMode::Normal(LayoutMode::Miller);
    assert_eq!(toggle_tags(toggle_tags(m)), m);
}

#[test]
fn list_button_cycles_the_list_layouts() {
    let m = ViewMode::Normal(LayoutMode::Row);
    let m = click_layout_button(LayoutButton::List, m);
    assert_eq!(m, ViewMode::Normal(LayoutMode::Compact));
    let m = click_layout_button(LayoutButton::List, m);
    assert_eq!(m, ViewMode::Normal(LayoutMode::RowDetailed));
    let m = click_layout_button(LayoutButton::List, m);
    assert_eq!(m, ViewMode::Normal(LayoutMode::Row));
    assert_eq!(
        click_layout_button(LayoutButton::List, ViewMode::Tags(LayoutMode::Grid)),
        ViewMode::Tags(LayoutMode::Row)
    );
}

#[test]
fn other_buttons_choose_their_layout() {
    assert_eq!(
        click_layout_button(LayoutButton::Grid, ViewMode::Tags(LayoutMode::Compact)),
        ViewMode::Tags(LayoutMode::Grid)
    );
    assert_eq!(
        click_layout_button(LayoutButton::Miller, ViewMode::Normal(LayoutMode::Grid)),
        ViewMode::Normal(LayoutMode::Miller)
    );
}

#[test]
fn active_buttons_and_icons() {
    assert!(layout_button_active(LayoutButton::List, LayoutMode::RowDetailed));
    assert!(!layout_button_active(LayoutButton::List, LayoutMode::Grid));
    assert!(layout_button_active(LayoutButton::Grid, LayoutMode::Grid));
    assert!(!layout_button_active(LayoutButton::Miller, LayoutMode::Grid));
    assert_eq!(layout_button_icon(LayoutButton::List, LayoutMode::Compact), "layout-compact");
    assert_eq!(layout_button_icon(LayoutButton::List, LayoutMode::RowDetailed), "layout-detailed");
    assert_eq!(layout_button_icon(LayoutButton::List, LayoutMode::Grid), "layout-list");
    assert_eq!(layout_button_icon(LayoutButton::Miller, LayoutMode::Row), "layout-miller");
}

use blaze_app::view_mode::tags_key;

#[test]
fn ctrl_t_toggles_the_tag_view() {
    let m = ViewMode::Normal(LayoutMode::Row);
    assert_eq!(tags_key(true, false, true, m), (ViewMode::Tags(LayoutMode::Row), false));
    assert_eq!(tags_key(false, false, true, m), (m, false));
    assert_eq!(tags_key(true, false, false, m), (m, false));
}

#[test]
fn ctrl_shift_t_asks_for_a_new_tag() {
    let m = ViewMode::Tags(LayoutMode::Grid);
    assert_eq!(tags_key(true, true, true, m), (m, true));
    assert_eq!(tags_key(false, true, true, m), (m, false));
}
