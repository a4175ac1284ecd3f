use dizi::text::{bool_to_string, concat_text, join_path, str_eq};

#[test]
fn booleans_as_text() {
    assert_eq!(bool_to_string(true), "true");
    assert_eq!(bool_to_string(false), "false");
}

#[test]
fn text_helpers() {
    assert_eq!(concat_text("ab", "cd"), "abcd");
    assert!(str_eq("x", "x"));
    assert!(!str_eq("x", "y"));
}

#[test]
fn path_joining() {
    assert_eq!(join_path("/home/u", "a.mp3"), "/home/u/a.mp3");
    assert_eq!(join_path("/home/u/", "a.mp3"), "/home/u/a.mp3");
    assert_eq!(join_path("/home/u", "/abs/a.mp3"), "/abs/a.mp3");
    assert_eq!(join_path("", "a.mp3"), "a.mp3");
    assert_eq!(join_path("/", "tmp"), "/tmp");
}
