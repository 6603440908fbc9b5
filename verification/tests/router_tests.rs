use webgl_practices::router::{default_routes, index_entries, Page, Router};

#[test]
fn default_routes_resolve_every_page() {
    let r = default_routes();
    assert_eq!(r.resolve("#/00-hello_world"), Some(Page::HelloWorld));
    assert_eq!(r.resolve("#/01-webgl/hello"), Some(Page::Hello));
    assert_eq!(r.resolve("#/02-webgl/triangle"), Some(Page::Triangle));
    assert_eq!(r.resolve("#/03-webgl/triangle_lines"), Some(Page::TriangleLines));
    assert_eq!(r.resolve("#/04-webgl/triangle_points"), Some(Page::TrianglePoints));
    assert_eq!(r.resolve("#/05-webgl/cube"), Some(Page::Cube));
    assert_eq!(r.resolve("#/06-webgl/camera"), Some(Page::Camera));
    assert_eq!(r.resolve("#/07-webgl/light"), Some(Page::Light));
}

#[test]
fn unknown_or_empty_hash_falls_back() {
    let r = default_routes();
    assert_eq!(r.resolve("#/no-such-page"), None);
    assert_eq!(r.resolve(""), None);
    assert_eq!(r.resolve("#"), None);
    assert_eq!(r.resolve("#/"), None);
}

#[test]
fn leading_hash_marks_are_all_dropped() {
    let r = default_routes();
    assert_eq!(r.resolve("##/05-webgl/cube"), Some(Page::Cube));
    assert_eq!(r.resolve("/05-webgl/cube"), Some(Page::Cube));
}

#[test]
fn register_replaces_an_existing_path() {
    let mut r = Router::new();
    r.register(String::from("/a"), Page::Cube);
    r.register(String::from("/a"), Page::Light);
    assert_eq!(r.entries.len(), 1);
    assert_eq!(r.resolve("#/a"), Some(Page::Light));
}

#[test]
fn sorted_paths_orders_lexicographically() {
    let mut r = Router::new();
    r.register(String::from("/07-webgl/light"), Page::Light);
    r.register(String::from("/00-hello_world"), Page::HelloWorld);
    r.register(String::from("/05-webgl/cube"), Page::Cube);
    let paths = r.sorted_paths();
    let expected = vec![
        String::from("/00-hello_world"),
        String::from("/05-webgl/cube"),
        String::from("/07-webgl/light"),
    ];
    assert_eq!(paths, expected);
}

#[test]
fn sorted_paths_of_default_routes_keep_page_order() {
    let r = default_routes();
    let paths = r.sorted_paths();
    assert_eq!(paths.len(), 8);
    assert_eq!(paths[0], "/00-hello_world");
    assert_eq!(paths[7], "/07-webgl/light");
    for w in paths.windows(2) {
        assert!(w[0] < w[1]);
    }
}

#[test]
fn index_entries_show_trimmed_text_and_hash_links() {
    let paths = vec![String::from("/00-hello_world"), String::from("/05-webgl/cube")];
    let entries = index_entries(&paths);
    assert_eq!(entries.len(), 2);
    assert_eq!(entries[0].text, "00-hello_world");
    assert_eq!(entries[0].href, "/#/00-hello_world");
    assert_eq!(entries[1].text, "05-webgl cube");
    assert_eq!(entries[1].href, "/#/05-webgl/cube");
}
