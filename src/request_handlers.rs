use crate::file::{
    error_status, get_mine_type, mime_of, spec_error_status, FsEntityStatus, Lookup,
};
use crate::message::{is_success, Method, Request, Response, ResponseView};
use crate::net::{cleaned, parse_url};
use crate::page::{err_page_text, gen_err_page, gen_trace_body, reason_phrase, trace_text};
use vstd::prelude::*;
use vstd::string::*;
use vstd::utf8::encode_utf8;

verus! {

/// The methods this server answers, as listed in `Allow`.
pub open spec fn allowed_methods() -> Seq<char> {
    "GET, HEAD, OPTIONS, TRACE"@
}

/// The file that serves a request path: the path made relative, rewritten to
/// the directory's `index.html` for a directory, with separators normalized.
pub open spec fn target_of(path: Seq<char>, entity: FsEntityStatus) -> Seq<char> {
    if entity == FsEntityStatus::IsDir {
        cleaned("."@ + path + "/index.html"@)
    } else {
        cleaned("."@ + path)
    }
}

/// Resolves a request path to the file that serves it.
pub fn resolve_target(path: &str, entity: FsEntityStatus) -> (r: String)
    ensures
        r@ == target_of(path@, entity),
{
    let mut p = String::from_str(".");
    p.append(path);
    if entity == FsEntityStatus::IsDir {
        p.append("/index.html");
    }
    parse_url(p)
}

/// The response after the default headers are set.
pub open spec fn with_defaults(v: ResponseView) -> ResponseView {
    ResponseView {
        server: Some(SERVER_NAME@),
        allow_origin: Some("*"@),
        cache_control: Some("no-cache"@),
        ..v
    }
}

/// The `Server` header this server sends.
pub const SERVER_NAME: &'static str = "tws/0.1.0";

/// Sets the headers every response carries.
pub fn set_default_headers(res: &mut Response)
    ensures
        final(res)@ == with_defaults(old(res)@),
{
    res.server = Some(String::from_str(SERVER_NAME));
    res.allow_origin = Some(String::from_str("*"));
    res.cache_control = Some(String::from_str("no-cache"));
}

/// GET: the target's bytes with its content type, or the status that
/// explains why they cannot be served.
pub open spec fn get_outcome(v: ResponseView, path: Seq<char>, look: Lookup) -> ResponseView {
    if look.target_entity != FsEntityStatus::IsFile {
        ResponseView { status: 404, content_type: Some("text/html"@), ..v }
    } else {
        match look.content {
            Ok(b) => ResponseView {
                status: 200,
                content_type: Some(mime_of(target_of(path, look.entity))),
                body: b@,
                ..v
            },
            Err(e) => ResponseView {
                status: spec_error_status(e),
                content_type: Some("text/html"@),
                ..v
            },
        }
    }
}

/// Answers GET.
pub fn handle_get(req: &Request, look: Lookup, res: &mut Response)
    ensures
        final(res)@ == get_outcome(old(res)@, req.path@, look),
{
    if look.target_entity != FsEntityStatus::IsFile {
        res.status = 404;
        res.content_type = Some(String::from_str("text/html"));
    } else {
        match look.content {
            Ok(b) => {
                let target = resolve_target(req.path.as_str(), look.entity);
                res.status = 200;
                res.content_type = Some(get_mine_type(target));
                res.body = b;
            },
            Err(e) => {
                res.status = error_status(e);
                res.content_type = Some(String::from_str("text/html"));
            },
        }
    }
}

/// HEAD: the status and content type that GET would give a readable target,
/// without reading it.
pub open spec fn head_outcome(v: ResponseView, path: Seq<char>, look: Lookup) -> ResponseView {
    if look.target_entity != FsEntityStatus::IsFile {
        ResponseView { status: 404, content_type: Some("text/html"@), ..v }
    } else {
        ResponseView {
            status: 200,
            content_type: Some(mime_of(target_of(path, look.entity))),
            ..v
        }
    }
}

/// Answers HEAD.
pub fn handle_head(req: &Request, look: &Lookup, res: &mut Response)
    ensures
        final(res)@ == head_outcome(old(res)@, req.path@, *look),
{
    if look.target_entity != FsEntityStatus::IsFile {
        res.status = 404;
        res.content_type = Some(String::from_str("text/html"));
    } else {
        let target = resolve_target(req.path.as_str(), look.entity);
        res.status = 200;
        res.content_type = Some(get_mine_type(target));
    }
}

/// OPTIONS: `200` and the list of supported methods.
pub open spec fn options_outcome(v: ResponseView) -> ResponseView {
    ResponseView { status: 200, allow: Some(allowed_methods()), ..v }
}

/// Answers OPTIONS.
pub fn handle_options(res: &mut Response)
    ensures
        final(res)@ == options_outcome(old(res)@),
{
    res.status = 200;
    res.allow = Some(String::from_str("GET, HEAD, OPTIONS, TRACE"));
}

/// TRACE: `200` and the echo of the request.
pub open spec fn trace_outcome(v: ResponseView, req: Request) -> ResponseView {
    ResponseView {
        status: 200,
        content_type: Some("message/http"@),
        body: encode_utf8(trace_text(req)),
        ..v
    }
}

/// Answers TRACE.
pub fn handle_trace(req: &Request, res: &mut Response)
    ensures
        final(res)@ == trace_outcome(old(res)@, *req),
{
    res.status = 200;
    res.content_type = Some(String::from_str("message/http"));
    res.body = gen_trace_body(req);
}

/// A method that would carry a body: `404` where the path is absent, else
/// `405` with the list of supported methods.
pub open spec fn bad_method_outcome(v: ResponseView, entity: FsEntityStatus) -> ResponseView {
    if entity == FsEntityStatus::NotFound {
        ResponseView { status: 404, ..v }
    } else {
        ResponseView { status: 405, allow: Some(allowed_methods()), ..v }
    }
}

/// Answers POST, PUT, DELETE, PATCH and CONNECT.
pub fn handle_bad_method(entity: FsEntityStatus, res: &mut Response)
    ensures
        final(res)@ == bad_method_outcome(old(res)@, entity),
{
    if entity == FsEntityStatus::NotFound {
        res.status = 404;
    } else {
        res.status = 405;
        res.allow = Some(String::from_str("GET, HEAD, OPTIONS, TRACE"));
    }
}

/// Answers any other method: `501`.
pub fn handle_invalid_method(res: &mut Response)
    ensures
        final(res)@ == (ResponseView { status: 501, ..old(res)@ }),
{
    res.status = 501;
}

/// The response a method's handler makes from `v`.
pub open spec fn dispatched(v: ResponseView, req: Request, look: Lookup) -> ResponseView {
    match req.method {
        Method::Get => get_outcome(v, req.path@, look),
        Method::Head => head_outcome(v, req.path@, look),
        Method::Options => options_outcome(v),
        Method::Trace => trace_outcome(v, req),
        Method::Post | Method::Put | Method::Delete | Method::Patch | Method::Connect => {
            bad_method_outcome(v, look.entity)
        },
        Method::Other(_) => ResponseView { status: 501, ..v },
    }
}

/// The last pass: a response outside the success range carries the error
/// page for its status, except an answer to HEAD, which never has a body.
pub open spec fn finished(v: ResponseView, head: bool) -> ResponseView {
    if !is_success(v.status) && !head {
        ResponseView {
            body: encode_utf8(err_page_text(v.status, reason_phrase(v.status))),
            ..v
        }
    } else {
        v
    }
}

/// The whole answer to a request, given what the filesystem reported.
pub open spec fn response_of(req: Request, look: Lookup) -> ResponseView {
    finished(
        dispatched(
            with_defaults(
                ResponseView {
                    status: 200,
                    server: None,
                    allow_origin: None,
                    cache_control: None,
                    content_type: None,
                    allow: None,
                    body: Seq::empty(),
                },
            ),
            req,
            look,
        ),
        req.method is Head,
    )
}

/// Answers a request: default headers, the method's handler, then the
/// error page for a failing status.
pub fn handle_request(req: &Request, look: Lookup) -> (r: Response)
    ensures
        r@ == response_of(*req, look),
{
    let mut res = Response::new();
    set_default_headers(&mut res);
    let head = match &req.method {
        Method::Head => true,
        _ => false,
    };
    match &req.method {
        Method::Get => handle_get(req, look, &mut res),
        Method::Head => handle_head(req, &look, &mut res),
        Method::Options => handle_options(&mut res),
        Method::Trace => handle_trace(req, &mut res),
        Method::Post | Method::Put | Method::Delete | Method::Patch | Method::Connect => {
            handle_bad_method(look.entity, &mut res)
        },
        Method::Other(_) => handle_invalid_method(&mut res),
    }
    if !(200 <= res.status && res.status < 300) && !head {
        res.body = gen_err_page(res.status);
    }
    res
}

} // verus!
