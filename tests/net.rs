use tws::net::parse_url;
use tws::request_handlers::resolve_target;
use tws::file::FsEntityStatus;

#[test]
fn separators_normalized() {
    assert_eq!(parse_url(String::from(".\\a\\b")), "./a/b");
    assert_eq!(parse_url(String::from(".//a//b")), "./a/b");
    assert_eq!(parse_url(String::from("./a/b")), "./a/b");
}

#[test]
fn collapse_is_single_pass() {
    assert_eq!(parse_url(String::from("a///b")), "a//b");
    assert_eq!(parse_url(String::from("a\\\\b")), "a/b");
}

#[test]
fn targets_resolved() {
    assert_eq!(resolve_target("/a.txt", FsEntityStatus::IsFile), "./a.txt");
    assert_eq!(resolve_target("/test", FsEntityStatus::IsDir), "./test/index.html");
    assert_eq!(resolve_target("/", FsEntityStatus::IsDir), "./index.html");
    assert_eq!(resolve_target("/missing", FsEntityStatus::NotFound), "./missing");
}
