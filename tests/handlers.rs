use tws::file::{FileError, FsEntityStatus, Lookup};
use tws::message::{Method, Request, Response};
use tws::page::{gen_err_page, gen_trace_body, render_err_page};
use tws::request_handlers::{handle_get, handle_request};

fn request(method: Method, path: &str) -> Request {
    Request {
        method,
        uri: format!("http://[::1]:4000{}", path),
        path: String::from(path),
        version: String::from("HTTP/1.1"),
        headers: vec![
            (String::from("host"), Some(String::from("[::1]:4000"))),
            (String::from("x-raw"), None),
        ],
    }
}

fn file_lookup(bytes: &[u8]) -> Lookup {
    Lookup {
        entity: FsEntityStatus::IsFile,
        target_entity: FsEntityStatus::IsFile,
        content: Ok(bytes.to_vec()),
    }
}

fn missing() -> Lookup {
    Lookup {
        entity: FsEntityStatus::NotFound,
        target_entity: FsEntityStatus::NotFound,
        content: Err(FileError::NotFound),
    }
}

fn page(code: &str, reason: &str) -> Vec<u8> {
    format!("<!DOCTYPE html><body><h1>{}</h1><h2>{}</h2><body>", code, reason).into_bytes()
}

#[test]
fn load_file() {
    let req = request(Method::Get, "/Cargo.toml");
    let mut res = Response::new();
    handle_get(&req, file_lookup(b"[package]\n"), &mut res);
    assert_eq!(res.status, 200);
    assert_eq!(res.content_type.as_deref(), Some("text/x-toml"));
}

#[test]
fn load_dir() {
    let req = request(Method::Get, "/test");
    let mut res = Response::new();
    let look = Lookup {
        entity: FsEntityStatus::IsDir,
        target_entity: FsEntityStatus::IsFile,
        content: Ok(b"<p>hi</p>".to_vec()),
    };
    handle_get(&req, look, &mut res);
    assert_eq!(res.status, 200);
}

#[test]
fn load_nothing() {
    let req = request(Method::Get, "/IDONTEXIST");
    let mut res = Response::new();
    handle_get(&req, missing(), &mut res);
    assert_eq!(res.status / 100, 4);
}

#[test]
fn get_returns_exact_bytes() {
    let res = handle_request(&request(Method::Get, "/a.txt"), file_lookup(b"abc\x00\xff"));
    assert_eq!(res.status, 200);
    assert_eq!(res.body, b"abc\x00\xff".to_vec());
    assert_eq!(res.content_type.as_deref(), Some("text/plain"));
    assert_eq!(res.server.as_deref(), Some("tws/0.1.0"));
    assert_eq!(res.allow_origin.as_deref(), Some("*"));
    assert_eq!(res.cache_control.as_deref(), Some("no-cache"));
}

#[test]
fn get_directory_without_index() {
    let look = Lookup {
        entity: FsEntityStatus::IsDir,
        target_entity: FsEntityStatus::NotFound,
        content: Err(FileError::NotFound),
    };
    let res = handle_request(&request(Method::Get, "/dir"), look);
    assert_eq!(res.status, 404);
}

#[test]
fn get_directory_index_is_html() {
    let look = Lookup {
        entity: FsEntityStatus::IsDir,
        target_entity: FsEntityStatus::IsFile,
        content: Ok(b"<p>index</p>".to_vec()),
    };
    let res = handle_request(&request(Method::Get, "/dir"), look);
    assert_eq!(res.status, 200);
    assert_eq!(res.body, b"<p>index</p>".to_vec());
    assert_eq!(res.content_type.as_deref(), Some("text/html"));
}

#[test]
fn get_missing_has_error_page() {
    let res = handle_request(&request(Method::Get, "/nope"), missing());
    assert_eq!(res.status, 404);
    assert_eq!(res.content_type.as_deref(), Some("text/html"));
    assert_eq!(res.body, page("404", "Not Found"));
}

#[test]
fn get_read_errors() {
    let forbidden = Lookup {
        entity: FsEntityStatus::IsFile,
        target_entity: FsEntityStatus::IsFile,
        content: Err(FileError::PermissionDenied),
    };
    let res = handle_request(&request(Method::Get, "/secret"), forbidden);
    assert_eq!(res.status, 403);
    assert_eq!(res.body, page("403", "Forbidden"));
    let broken = Lookup {
        entity: FsEntityStatus::IsFile,
        target_entity: FsEntityStatus::IsFile,
        content: Err(FileError::Other),
    };
    let res = handle_request(&request(Method::Get, "/broken"), broken);
    assert_eq!(res.status, 500);
    assert_eq!(res.body, page("500", "Internal Server Error"));
}

#[test]
fn head_matches_get_without_body() {
    let get = handle_request(&request(Method::Get, "/a.html"), file_lookup(b"<b>x</b>"));
    let head = handle_request(&request(Method::Head, "/a.html"), file_lookup(b"<b>x</b>"));
    assert_eq!(head.status, get.status);
    assert_eq!(head.content_type, get.content_type);
    assert!(head.body.is_empty());
    let get = handle_request(&request(Method::Get, "/nope"), missing());
    let head = handle_request(&request(Method::Head, "/nope"), missing());
    assert_eq!(head.status, 404);
    assert_eq!(head.status, get.status);
    assert!(head.body.is_empty());
}

#[test]
fn options_lists_methods() {
    let res = handle_request(&request(Method::Options, "/anything"), missing());
    assert_eq!(res.status, 200);
    assert_eq!(res.allow.as_deref(), Some("GET, HEAD, OPTIONS, TRACE"));
    assert!(res.body.is_empty());
}

#[test]
fn trace_echoes_request() {
    let req = request(Method::Trace, "/t");
    let res = handle_request(&req, missing());
    assert_eq!(res.status, 200);
    assert_eq!(res.content_type.as_deref(), Some("message/http"));
    let expected =
        "TRACE http://[::1]:4000/t HTTP/1.1\nhost: [::1]:4000\nx-raw: [BINARY DATA]";
    assert_eq!(res.body, expected.as_bytes().to_vec());
    assert_eq!(gen_trace_body(&req), expected.as_bytes().to_vec());
}

#[test]
fn trace_without_headers() {
    let mut req = request(Method::Other(String::from("BREW")), "/pot");
    req.headers = Vec::new();
    assert_eq!(gen_trace_body(&req), b"BREW http://[::1]:4000/pot HTTP/1.1".to_vec());
}

#[test]
fn post_existing_not_allowed() {
    let res = handle_request(&request(Method::Post, "/a.txt"), file_lookup(b"x"));
    assert_eq!(res.status, 405);
    assert_eq!(res.allow.as_deref(), Some("GET, HEAD, OPTIONS, TRACE"));
    assert_eq!(res.body, page("405", "Method Not Allowed"));
    let res = handle_request(&request(Method::Delete, "/a.txt"), file_lookup(b"x"));
    assert_eq!(res.status, 405);
}

#[test]
fn post_missing_not_found() {
    let res = handle_request(&request(Method::Post, "/nope"), missing());
    assert_eq!(res.status, 404);
    assert_eq!(res.allow, None);
    let res = handle_request(&request(Method::Put, "/nope"), missing());
    assert_eq!(res.status, 404);
}

#[test]
fn unknown_method_not_implemented() {
    let res = handle_request(&request(Method::Other(String::from("BREW")), "/"), missing());
    assert_eq!(res.status, 501);
    assert_eq!(res.body, page("501", "Not Implemented"));
}

#[test]
fn repeated_requests_agree() {
    for method in [Method::Get, Method::Head, Method::Options, Method::Trace] {
        let a = handle_request(&request(method.clone(), "/a.txt"), file_lookup(b"same"));
        let b = handle_request(&request(method, "/a.txt"), file_lookup(b"same"));
        assert_eq!(a.status, b.status);
        assert_eq!(a.content_type, b.content_type);
        assert_eq!(a.allow, b.allow);
        assert_eq!(a.body, b.body);
    }
}

#[test]
fn error_page_with_unknown_reason() {
    assert_eq!(render_err_page(599, None), page("599", "?"));
    assert_eq!(render_err_page(404, Some(String::from("Gone Fishing"))), page("404", "Gone Fishing"));
    assert_eq!(gen_err_page(418), page("418", "I'm a teapot"));
}
