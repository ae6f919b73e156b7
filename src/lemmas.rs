use crate::file::{mime_of, FsEntityStatus, Lookup};
use crate::message::Request;
use crate::page::{code_text, err_page_text, header_line, header_lines, reason_phrase, trace_text};
use crate::net::{cleaned, probe_path_of, replace_all};
use crate::request_handlers::{allowed_methods, response_of, target_of};
use vstd::prelude::*;
use vstd::string::*;
use vstd::utf8::encode_utf8;

verus! {

/// GET on a readable file answers `200` with the file's exact bytes and the
/// content type guessed from the file's path.
pub proof fn get_serves_file_bytes(req: Request, look: Lookup)
    requires
        req.method is Get,
        look.target_entity == FsEntityStatus::IsFile,
        look.content is Ok,
    ensures
        response_of(req, look).status == 200,
        response_of(req, look).body == look.content->Ok_0@,
        response_of(req, look).content_type == Some(mime_of(target_of(req.path@, look.entity))),
{
}

/// GET on a directory serves the directory's `index.html`: its bytes where it
/// is a readable file, `404` where there is no such file.
pub proof fn get_directory_serves_index(req: Request, look: Lookup)
    requires
        req.method is Get,
        look.entity == FsEntityStatus::IsDir,
    ensures
        target_of(req.path@, look.entity) == cleaned("."@ + req.path@ + "/index.html"@),
        look.target_entity != FsEntityStatus::IsFile ==> response_of(req, look).status == 404,
        look.target_entity == FsEntityStatus::IsFile && look.content is Ok ==> {
            &&& response_of(req, look).status == 200
            &&& response_of(req, look).body == look.content->Ok_0@
        },
{
}

/// GET on a missing path answers `404` with the HTML error page, whose text
/// holds the digits `404`.
pub proof fn get_missing_is_not_found(req: Request, look: Lookup)
    requires
        req.method is Get,
        look.target_entity == FsEntityStatus::NotFound,
    ensures
        response_of(req, look).status == 404,
        response_of(req, look).content_type == Some("text/html"@),
        response_of(req, look).body == encode_utf8(err_page_text(404, reason_phrase(404))),
        err_page_text(404, reason_phrase(404)).subrange(25, 28) == "404"@,
{
    reveal_strlit("<!DOCTYPE html><body><h1>");
    reveal_strlit("404");
    assert(code_text(404) =~= seq!['4', '0', '4']);
    assert(err_page_text(404, reason_phrase(404)).subrange(25, 28) =~= "404"@);
}

/// HEAD answers with the status GET gives, wherever reading the file did not
/// fail, and never with a body.
pub proof fn head_status_matches_get(get: Request, head: Request, look: Lookup)
    requires
        get.method is Get,
        head.method is Head,
        head.path@ == get.path@,
        look.target_entity == FsEntityStatus::IsFile ==> look.content is Ok,
    ensures
        response_of(head, look).status == response_of(get, look).status,
        response_of(head, look).body.len() == 0,
{
}

/// OPTIONS answers `200`, lists the supported methods and has no body.
pub proof fn options_lists_methods(req: Request, look: Lookup)
    requires
        req.method is Options,
    ensures
        response_of(req, look).status == 200,
        response_of(req, look).allow == Some(allowed_methods()),
        allowed_methods() == "GET, HEAD, OPTIONS, TRACE"@,
        response_of(req, look).body.len() == 0,
{
}

/// TRACE answers `200` with the echo of the request as its body.
pub proof fn trace_echoes_request(req: Request, look: Lookup)
    requires
        req.method is Trace,
    ensures
        response_of(req, look).status == 200,
        response_of(req, look).content_type == Some("message/http"@),
        response_of(req, look).body == encode_utf8(trace_text(req)),
{
}

/// A body-bearing method answers `404` on a missing path and `405`, with the
/// supported methods, on a present one.
pub proof fn body_methods_not_allowed(req: Request, look: Lookup)
    requires
        req.method is Post || req.method is Put || req.method is Delete || req.method is Patch
            || req.method is Connect,
    ensures
        look.entity == FsEntityStatus::NotFound ==> response_of(req, look).status == 404,
        look.entity != FsEntityStatus::NotFound ==> {
            &&& response_of(req, look).status == 405
            &&& response_of(req, look).allow == Some(allowed_methods())
        },
{
}

/// A method the server does not know answers `501`.
pub proof fn unknown_method_not_implemented(req: Request, look: Lookup)
    requires
        req.method is Other,
    ensures
        response_of(req, look).status == 501,
{
}

/// Asking twice, with the filesystem unchanged, gives the same response: two
/// requests that read alike, met with lookups that report alike, are
/// answered alike, byte for byte.
pub proof fn response_is_repeatable(first: Request, second: Request, look1: Lookup, look2: Lookup)
    requires
        first.method == second.method,
        first.uri@ == second.uri@,
        first.path@ == second.path@,
        first.version@ == second.version@,
        first.headers@ == second.headers@,
        look1.entity == look2.entity,
        look1.target_entity == look2.target_entity,
        look1.content is Ok <==> look2.content is Ok,
        look1.content is Ok ==> look1.content->Ok_0@ == look2.content->Ok_0@,
        look1.content is Err ==> look1.content->Err_0 == look2.content->Err_0,
    ensures
        response_of(first, look1) == response_of(second, look2),
{
}

/// Each header of a request appears, as its own line, in the echo of the
/// header list.
pub proof fn every_header_echoed(hs: Seq<(String, Option<String>)>, i: int)
    requires
        0 <= i < hs.len(),
    ensures
        exists|k: int|
            0 <= k && k + header_line(hs[i]).len() <= header_lines(hs).len()
                && #[trigger] header_lines(hs).subrange(k, k + header_line(hs[i]).len())
                == header_line(hs[i]),
    decreases hs.len(),
{
    let rest = hs.drop_last();
    if i == hs.len() - 1 {
        let k = header_lines(rest).len() as int;
        assert(header_lines(hs).subrange(k, k + header_line(hs[i]).len()) =~= header_line(hs[i]));
    } else {
        every_header_echoed(rest, i);
        assert(rest[i] == hs[i]);
        let k = choose|k: int|
            0 <= k && k + header_line(rest[i]).len() <= header_lines(rest).len()
                && #[trigger] header_lines(rest).subrange(k, k + header_line(rest[i]).len())
                == header_line(rest[i]);
        assert(header_lines(hs).subrange(k, k + header_line(hs[i]).len())
            =~= header_lines(rest).subrange(k, k + header_line(rest[i]).len()));
    }
}

/// Replacing a one-character pattern works character by character, so it
/// distributes over concatenation.
pub proof fn replace_char_distributes(a: Seq<char>, b: Seq<char>, pat: Seq<char>, to: Seq<char>)
    requires
        pat.len() == 1,
    ensures
        replace_all(a + b, pat, to) == replace_all(a, pat, to) + replace_all(b, pat, to),
    decreases a.len(),
{
    if a.len() == 0 {
        assert(a + b =~= b);
        assert(replace_all(a, pat, to) =~= Seq::<char>::empty());
        assert(replace_all(a, pat, to) + replace_all(b, pat, to) =~= replace_all(b, pat, to));
    } else {
        let s = a + b;
        let tail = a.subrange(1, a.len() as int);
        assert(s.subrange(1, s.len() as int) =~= tail + b);
        assert(s.subrange(0, 1) =~= a.subrange(0, 1));
        replace_char_distributes(tail, b, pat, to);
        if a.subrange(0, 1) == pat {
            assert(to + replace_all(tail, pat, to) + replace_all(b, pat, to)
                =~= to + (replace_all(tail, pat, to) + replace_all(b, pat, to)));
        } else {
            assert(s[0] == a[0]);
            assert(seq![a[0]] + replace_all(tail, pat, to) + replace_all(b, pat, to)
                =~= seq![a[0]] + (replace_all(tail, pat, to) + replace_all(b, pat, to)));
        }
    }
}

/// Replacing a one-character pattern in a one-character sequence.
pub proof fn replace_one_char(c: char, pat: Seq<char>, to: Seq<char>)
    requires
        pat.len() == 1,
    ensures
        replace_all(seq![c], pat, to) == (if pat[0] == c { to } else { seq![c] }),
{
    let s = seq![c];
    assert(s.subrange(1, 1) =~= Seq::<char>::empty());
    assert(replace_all(Seq::<char>::empty(), pat, to) =~= Seq::<char>::empty());
    assert(s.subrange(0, 1) =~= s);
    if pat[0] == c {
        assert(pat =~= s);
        assert(to + Seq::<char>::empty() =~= to);
    } else {
        assert(pat != s) by {
            assert(pat[0] != s[0]);
        }
        assert(seq![c] + Seq::<char>::empty() =~= seq![c]);
    }
}

/// A request path is probed at the same place with or without a leading
/// separator.
pub proof fn probe_ignores_leading_separator(x: Seq<char>)
    requires
        x.len() == 0 || (x[0] != '/' && x[0] != '\\'),
    ensures
        probe_path_of("/"@ + x) == probe_path_of(x),
{
    reveal_strlit("./");
    reveal_strlit("/");
    reveal_strlit("\\");
    reveal_strlit("//");
    let bs = "\\"@;
    let sl = "/"@;
    let dd = "//"@;
    let y = replace_all(x, bs, sl);
    // the prefixes hold no backslash
    let p2 = seq!['.', '/'];
    let p3 = seq!['.', '/', '/'];
    replace_one_char('.', bs, sl);
    replace_one_char('/', bs, sl);
    assert(p2 =~= seq!['.'] + seq!['/']);
    replace_char_distributes(seq!['.'], seq!['/'], bs, sl);
    assert(p3 =~= p2 + seq!['/']);
    replace_char_distributes(p2, seq!['/'], bs, sl);
    assert("./"@ + ("/"@ + x) =~= p3 + x);
    assert("./"@ + x =~= p2 + x);
    replace_char_distributes(p3, x, bs, sl);
    replace_char_distributes(p2, x, bs, sl);
    // the first character of y is no slash
    if x.len() > 0 {
        let rest = x.subrange(1, x.len() as int);
        assert(x =~= seq![x[0]] + rest);
        replace_char_distributes(seq![x[0]], rest, bs, sl);
        replace_one_char(x[0], bs, sl);
        assert(y[0] == x[0]);
    }
    // collapsing: ".//" + y and "./" + y both give "./" + the collapse of y
    let s3 = p3 + y;
    let s2 = p2 + y;
    assert(s3.subrange(0, 2) =~= p2);
    assert(p2 != dd);
    assert(s3.subrange(1, s3.len() as int) =~= seq!['/', '/'] + y);
    assert((seq!['/', '/'] + y).subrange(0, 2) =~= dd);
    assert((seq!['/', '/'] + y).subrange(2, (y.len() + 2) as int) =~= y);
    assert(s2.subrange(0, 2) =~= p2);
    assert(s2.subrange(1, s2.len() as int) =~= seq!['/'] + y);
    let t = seq!['/'] + y;
    if y.len() == 0 {
        assert(t.len() < 2);
    } else {
        assert(t.subrange(0, 2) != dd) by {
            assert(t.subrange(0, 2)[1] == y[0]);
        }
        assert(t.subrange(1, t.len() as int) =~= y);
    }
    assert(replace_all(s3.subrange(1, s3.len() as int), dd, sl) == sl + replace_all(y, dd, sl));
    assert(replace_all(s3, dd, sl) =~= seq!['.'] + (sl + replace_all(y, dd, sl)));
    if y.len() == 0 {
        assert(replace_all(y, dd, sl) =~= y);
        assert(replace_all(t, dd, sl) =~= t);
    } else {
        assert(replace_all(t, dd, sl) =~= seq!['/'] + replace_all(y, dd, sl));
    }
    assert(replace_all(s2, dd, sl) =~= seq!['.'] + (seq!['/'] + replace_all(y, dd, sl)));
}

} // verus!
