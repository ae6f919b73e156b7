use vstd::prelude::*;
use vstd::string::*;

verus! {

/// Every non-overlapping occurrence of `pat` in `s`, taken from left to right,
/// replaced by `to`.
pub open spec fn replace_all(s: Seq<char>, pat: Seq<char>, to: Seq<char>) -> Seq<char>
    decreases s.len(),
{
    if pat.len() == 0 || s.len() < pat.len() {
        s
    } else if s.subrange(0, pat.len() as int) == pat {
        to + replace_all(s.subrange(pat.len() as int, s.len() as int), pat, to)
    } else {
        seq![s[0]] + replace_all(s.subrange(1, s.len() as int), pat, to)
    }
}

/// A path with every backslash turned into a slash, then every pair of
/// slashes collapsed into one in a single left-to-right pass.
pub open spec fn cleaned(url: Seq<char>) -> Seq<char> {
    replace_all(replace_all(url, "\\"@, "/"@), "//"@, "/"@)
}

/// Relies on `str::replace`: all non-overlapping matches of a non-empty
/// pattern, from left to right, replaced by `to`.
#[verifier::external_body]
fn replace_str(s: &str, pat: &str, to: &str) -> (r: String)
    requires
        pat@.len() > 0,
    ensures
        r@ == replace_all(s@, pat@, to@),
{
    s.replace(pat, to)
}

/// Normalizes separators: backslashes become slashes, doubled slashes collapse.
pub fn parse_url(url: String) -> (r: String)
    ensures
        r@ == cleaned(url@),
{
    proof {
        reveal_strlit("\\");
        reveal_strlit("//");
    }
    let once = replace_str(url.as_str(), "\\", "/");
    replace_str(once.as_str(), "//", "/")
}

/// The path probed on disk for a request path: the path made relative to the
/// served directory, whether or not it starts with a separator.
pub open spec fn probe_path_of(path: Seq<char>) -> Seq<char> {
    cleaned("./"@ + path)
}

/// Builds the relative path under which `path` is looked up on disk.
pub fn probe_path(path: &str) -> (r: String)
    ensures
        r@ == probe_path_of(path@),
{
    let mut p = String::from_str("./");
    p.append(path);
    parse_url(p)
}

} // verus!
