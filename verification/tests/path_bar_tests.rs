use blaze_app::path_bar::breadcrumbs;

fn parts(v: &[&str]) -> Vec<String> {
    v.iter().map(|s| s.to_string()).collect()
}

#[test]
fn crumbs_lead_to_their_folders() {
    let c = breadcrumbs(&parts(&["/", "home", "ana"]));
    assert_eq!(c.len(), 3);
    assert_eq!(c[0].name, "/");
    assert_eq!(c[0].target.as_deref(), Some("/"));
    assert_eq!(c[1].name, "home");
    assert_eq!(c[1].target.as_deref(), Some("/home"));
    assert_eq!(c[2].name, "ana");
    assert_eq!(c[2].target, None);
}

#[test]
fn empty_components_give_no_crumb() {
    let c = breadcrumbs(&parts(&["/", "", "tmp", ""]));
    assert_eq!(c.len(), 2);
    assert_eq!(c[1].name, "tmp");
    assert_eq!(c[1].target.as_deref(), Some("/tmp"));
    assert!(breadcrumbs(&parts(&[])).is_empty());
}

#[test]
fn push_path_joins_as_pathbuf_does() {
    let cases = [
        ("", "home"),
        ("", "/"),
        ("/", "home"),
        ("/home", "user"),
        ("/home/", "user"),
        ("/home", "/etc"),
        ("a", "b"),
        ("/home", ""),
        ("", ""),
    ];
    for (base, part) in cases {
        let mut p = std::path::PathBuf::from(base);
        p.push(part);
        assert_eq!(
            blaze_app::path_bar::push_path(base, part),
            p.to_string_lossy().into_owned(),
            "{:?} + {:?}",
            base,
            part
        );
    }
}
