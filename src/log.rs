use crate::message::Method;
use vstd::prelude::*;
use vstd::string::*;

verus! {

/// Console output settings, set once at startup and handed to whatever logs.
#[derive(Clone, Copy, Debug)]
pub struct LogSettings {
    pub quiet: bool,
}

impl LogSettings {
    /// Settings that print everything.
    pub fn new() -> (r: LogSettings)
        ensures
            !r.quiet,
    {
        LogSettings { quiet: false }
    }
}

/// Turns all console output off or on.
pub fn set_quiet(settings: &mut LogSettings, quiet: bool)
    ensures
        final(settings).quiet == quiet,
{
    settings.quiet = quiet;
}

/// Whether console output is off.
pub fn is_quiet(settings: &LogSettings) -> (r: bool)
    ensures
        r == settings.quiet,
{
    settings.quiet
}

/// The label a logged request shows for its method.
pub open spec fn method_tag_text(m: Method) -> Seq<char> {
    match m {
        Method::Get => " GET "@,
        Method::Head => " HEAD "@,
        Method::Post => " POST "@,
        Method::Put => " PUT "@,
        Method::Delete => " DEL "@,
        Method::Connect => " CONN "@,
        Method::Options => " OPT "@,
        Method::Trace => " TRACE "@,
        Method::Patch => " PATCH "@,
        Method::Other(_) => " ??? "@,
    }
}

/// The label for a method in the request log.
pub fn method_tag(m: &Method) -> (r: String)
    ensures
        r@ == method_tag_text(*m),
{
    match m {
        Method::Get => String::from_str(" GET "),
        Method::Head => String::from_str(" HEAD "),
        Method::Post => String::from_str(" POST "),
        Method::Put => String::from_str(" PUT "),
        Method::Delete => String::from_str(" DEL "),
        Method::Connect => String::from_str(" CONN "),
        Method::Options => String::from_str(" OPT "),
        Method::Trace => String::from_str(" TRACE "),
        Method::Patch => String::from_str(" PATCH "),
        Method::Other(_) => String::from_str(" ??? "),
    }
}

/// The class of a status (`4` for `404`), which picks its colour in the log.
pub fn status_class(code: u16) -> (r: u16)
    ensures
        r as int == code as int / 100,
{
    code / 100
}

} // verus!
