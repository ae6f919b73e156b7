use crate::message::{method_name, method_text, text_of, Request};
use vstd::prelude::*;
use vstd::string::*;
use vstd::utf8::encode_utf8;

verus! {

/// The decimal digit `d` as a character.
pub open spec fn digit_char(d: int) -> char {
    if d == 0 {
        '0'
    } else if d == 1 {
        '1'
    } else if d == 2 {
        '2'
    } else if d == 3 {
        '3'
    } else if d == 4 {
        '4'
    } else if d == 5 {
        '5'
    } else if d == 6 {
        '6'
    } else if d == 7 {
        '7'
    } else if d == 8 {
        '8'
    } else {
        '9'
    }
}

/// A three-digit status code written in decimal.
pub open spec fn code_text(code: u16) -> Seq<char> {
    seq![
        digit_char(code as int / 100),
        digit_char((code as int / 10) % 10),
        digit_char(code as int % 10),
    ]
}

fn digit_str(d: u16) -> (r: &'static str)
    requires
        d < 10,
    ensures
        r@ == seq![digit_char(d as int)],
{
    proof {
        reveal_strlit("0");
        reveal_strlit("1");
        reveal_strlit("2");
        reveal_strlit("3");
        reveal_strlit("4");
        reveal_strlit("5");
        reveal_strlit("6");
        reveal_strlit("7");
        reveal_strlit("8");
        reveal_strlit("9");
    }
    if d == 0 {
        "0"
    } else if d == 1 {
        "1"
    } else if d == 2 {
        "2"
    } else if d == 3 {
        "3"
    } else if d == 4 {
        "4"
    } else if d == 5 {
        "5"
    } else if d == 6 {
        "6"
    } else if d == 7 {
        "7"
    } else if d == 8 {
        "8"
    } else {
        "9"
    }
}

/// Appends the three digits of `code` to `s`.
fn push_code(s: &mut String, code: u16)
    requires
        100 <= code <= 999,
    ensures
        final(s)@ == old(s)@ + code_text(code),
{
    s.append(digit_str(code / 100));
    s.append(digit_str((code / 10) % 10));
    s.append(digit_str(code % 10));
}

/// The reason phrase that hyper knows for a status code, if any.
pub uninterp spec fn reason_phrase(code: u16) -> Option<Seq<char>>;

/// Relies on `hyper::StatusCode::from_u16` and `StatusCode::canonical_reason`:
/// the standard reason phrase of a code in the valid range, where one exists.
#[verifier::external_body]
fn canonical_reason(code: u16) -> (r: Option<String>)
    requires
        100 <= code <= 999,
    ensures
        r.is_some() == reason_phrase(code).is_some(),
        r.is_some() ==> r.unwrap()@ == reason_phrase(code).unwrap(),
{
    match hyper::StatusCode::from_u16(code) {
        Ok(s) => s.canonical_reason().map(|p| p.to_string()),
        Err(_) => None,
    }
}

/// The reason shown on an error page: the phrase where one is known, else `?`.
pub open spec fn shown_reason(phrase: Option<Seq<char>>) -> Seq<char> {
    match phrase {
        Some(p) => p,
        None => "?"@,
    }
}

/// The HTML error page for a status, as text.
pub open spec fn err_page_text(code: u16, phrase: Option<Seq<char>>) -> Seq<char> {
    "<!DOCTYPE html><body><h1>"@ + code_text(code) + "</h1><h2>"@ + shown_reason(phrase)
        + "</h2><body>"@
}

/// Renders the error page for `status` given the reason phrase looked up
/// for it.
pub fn render_err_page(status: u16, phrase: Option<String>) -> (r: Vec<u8>)
    requires
        100 <= status <= 999,
    ensures
        r@ == encode_utf8(err_page_text(status, text_of(phrase))),
{
    let mut s = String::from_str("<!DOCTYPE html><body><h1>");
    push_code(&mut s, status);
    s.append("</h1><h2>");
    match phrase {
        Some(p) => s.append(p.as_str()),
        None => s.append("?"),
    }
    s.append("</h2><body>");
    vstd::slice::slice_to_vec(s.as_str().as_bytes())
}

/// The HTML error page for a status, with hyper's reason phrase.
pub fn gen_err_page(status: u16) -> (r: Vec<u8>)
    requires
        100 <= status <= 999,
    ensures
        r@ == encode_utf8(err_page_text(status, reason_phrase(status))),
{
    let phrase = canonical_reason(status);
    render_err_page(status, phrase)
}

/// One echoed header line: a line break, the name, `: ` and the value, or a
/// placeholder for a value that is not text.
pub open spec fn header_line(h: (String, Option<String>)) -> Seq<char> {
    "\n"@ + h.0@ + ": "@ + match h.1 {
        Some(v) => v@,
        None => "[BINARY DATA]"@,
    }
}

/// The echoed header lines, in the order of the headers.
pub open spec fn header_lines(hs: Seq<(String, Option<String>)>) -> Seq<char>
    decreases hs.len(),
{
    if hs.len() == 0 {
        Seq::empty()
    } else {
        header_lines(hs.drop_last()) + header_line(hs.last())
    }
}

/// The echo of a request: its request line, then one line per header.
pub open spec fn trace_text(req: Request) -> Seq<char> {
    method_text(req.method) + " "@ + req.uri@ + " "@ + req.version@ + header_lines(req.headers@)
}

/// The body that answers a TRACE request.
pub fn gen_trace_body(req: &Request) -> (r: Vec<u8>)
    ensures
        r@ == encode_utf8(trace_text(*req)),
{
    let name = method_name(&req.method);
    let mut s = name;
    s.append(" ");
    s.append(req.uri.as_str());
    s.append(" ");
    s.append(req.version.as_str());
    let ghost start = s@;
    let mut i: usize = 0;
    while i < req.headers.len()
        invariant
            i <= req.headers@.len(),
            start == method_text(req.method) + " "@ + req.uri@ + " "@ + req.version@,
            s@ == start + header_lines(req.headers@.subrange(0, i as int)),
        decreases req.headers@.len() - i,
    {
        let h = &req.headers[i];
        s.append("\n");
        s.append(h.0.as_str());
        s.append(": ");
        match &h.1 {
            Some(v) => s.append(v.as_str()),
            None => s.append("[BINARY DATA]"),
        }
        proof {
            let hs = req.headers@.subrange(0, i + 1);
            assert(hs.drop_last() =~= req.headers@.subrange(0, i as int));
            assert(hs.last() == req.headers@[i as int]);
        }
        i = i + 1;
    }
    proof {
        assert(req.headers@.subrange(0, i as int) =~= req.headers@);
    }
    vstd::slice::slice_to_vec(s.as_str().as_bytes())
}

} // verus!

