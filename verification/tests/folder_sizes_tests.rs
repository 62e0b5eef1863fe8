use blaze_app::folder_sizes::JobMarks;

#[test]
fn visible_folders_are_asked_for_once() {
    let mut m = JobMarks::new(6);
    let is_dir = vec![true, false, true, true, true, true];
    m.done[3] = true;
    assert_eq!(m.schedule_visible(1, 5, &is_dir), vec![2, 4]);
    assert_eq!(m.pending, vec![false, false, true, false, true, false]);
    assert!(m.schedule_visible(1, 5, &is_dir).is_empty());
    assert_eq!(m.schedule_visible(0, 100, &is_dir), vec![0, 5]);
    assert!(m.schedule_visible(4, 2, &is_dir).is_empty());
}

#[test]
fn forgetting_clears_both_marks() {
    let mut m = JobMarks::new(3);
    m.done[0] = true;
    m.pending[1] = true;
    m.done[2] = true;
    m.forget(&vec![true, true, false]);
    assert_eq!(m.pending, vec![false, false, false]);
    assert_eq!(m.done, vec![false, false, true]);
}
