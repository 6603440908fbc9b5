use webgl_practices::cache::LocationCache;
use webgl_practices::clear_color::ClearColor;
use webgl_practices::mouse::Mouse;
use webgl_practices::text::{
    drop_leading, replace_slashes, str_eq, str_lex_le, trim_spaces,
};
use webgl_practices::viewport::Viewport;

#[test]
fn cache_answers_only_what_was_stored() {
    let mut c = LocationCache::new();
    assert_eq!(c.get("aVertexPosition"), None);
    c.put(String::from("aVertexPosition"), 0);
    c.put(String::from("aVertexColor"), 1);
    assert_eq!(c.get("aVertexPosition"), Some(0));
    assert_eq!(c.get("aVertexColor"), Some(1));
    assert_eq!(c.get("uModelMatrix"), None);
}

#[test]
fn cache_overwrites_a_stored_name() {
    let mut c = LocationCache::new();
    c.put(String::from("uViewMatrix"), 3);
    c.put(String::from("uViewMatrix"), 7);
    assert_eq!(c.get("uViewMatrix"), Some(7));
    assert_eq!(c.entries.len(), 1);
}

#[test]
fn text_helpers_do_what_the_index_page_needs() {
    assert!(str_eq("abc", "abc"));
    assert!(!str_eq("abc", "abd"));
    assert!(!str_eq("abc", "abcd"));
    assert!(str_lex_le("abc", "abd"));
    assert!(str_lex_le("abc", "abc"));
    assert!(!str_lex_le("b", "abc"));
    assert!(str_lex_le("", "a"));
    assert_eq!(drop_leading("##x#", '#'), "x#");
    assert_eq!(trim_spaces("  spaced out  "), "spaced out");
    assert_eq!(trim_spaces("   "), "");
    assert_eq!(replace_slashes("/05-webgl/cube"), " 05-webgl cube");
}

#[test]
fn viewport_and_color_setters_store_plain_values() {
    let mut v = Viewport::default();
    assert_eq!((v.width(), v.height()), (200, 300));
    v.set(1024, 768);
    assert_eq!((v.width(), v.height()), (1024, 768));

    let mut c = ClearColor::default();
    assert_eq!((c.r, c.g, c.b, c.a), (0, 0, 0, 255));
    c.set(255, 128, 0, 255);
    assert_eq!((c.r, c.g, c.b, c.a), (255, 128, 0, 255));

    let mut m = Mouse::default();
    assert!(!m.pressed());
    m.set_pressed(true);
    m.set_pos(40, 50);
    assert!(m.pressed());
    assert_eq!(m.pos(), (40, 50));
}
