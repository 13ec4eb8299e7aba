use iron::extension_of;
use iron::resolve;

#[test]
fn resolve_txt() {
    let media = resolve("txt").unwrap();
    assert_eq!(media.type_, "text");
    assert_eq!(media.subtype, "plain");
}

#[test]
fn resolve_is_stable() {
    assert_eq!(resolve("txt"), resolve("txt"));
    assert_eq!(resolve("json"), resolve("json"));
    assert_eq!(resolve("nope"), resolve("nope"));
}

#[test]
fn resolve_normalizes_case() {
    let media = resolve("TXT").unwrap();
    assert_eq!(media.type_, "text");
    assert_eq!(media.subtype, "plain");
    let media = resolve("Html").unwrap();
    assert_eq!(media.type_, "text");
    assert_eq!(media.subtype, "html");
}

#[test]
fn resolve_unregistered() {
    assert!(resolve("qqqz").is_none());
    assert!(resolve("").is_none());
    assert!(resolve("txt2").is_none());
}

#[test]
fn resolve_common_table_entries() {
    let media = resolve("html").unwrap();
    assert_eq!(media.type_, "text");
    assert_eq!(media.subtype, "html");
    let media = resolve("json").unwrap();
    assert_eq!(media.type_, "application");
    assert_eq!(media.subtype, "json");
    let media = resolve("png").unwrap();
    assert_eq!(media.type_, "image");
    assert_eq!(media.subtype, "png");
    let media = resolve("svg").unwrap();
    assert_eq!(media.type_, "image");
    assert_eq!(media.subtype, "svg+xml");
    let media = resolve("gz").unwrap();
    assert_eq!(media.type_, "application");
    assert_eq!(media.subtype, "gzip");
}

#[test]
fn extension_of_finds_last_dot() {
    assert_eq!(extension_of("test.txt"), Some("txt"));
    assert_eq!(extension_of("archive.tar.gz"), Some("gz"));
    assert_eq!(extension_of("dir/file.html"), Some("html"));
    assert_eq!(extension_of("a.b/c.d/page.htm"), Some("htm"));
}

#[test]
fn extension_of_none_cases() {
    assert_eq!(extension_of("noext"), None);
    assert_eq!(extension_of(".hidden"), None);
    assert_eq!(extension_of("dir/.hidden"), None);
    assert_eq!(extension_of("dir.d/file"), None);
    assert_eq!(extension_of(""), None);
    assert_eq!(extension_of("dir/"), None);
}

#[test]
fn extension_of_trailing_dot_is_empty() {
    assert_eq!(extension_of("x."), Some(""));
    assert!(resolve("").is_none());
}
