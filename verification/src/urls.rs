//! The library's view of URL parsing. Source identifiers and package
//! locations are kept as plain strings; the `url` crate is consulted only to
//! decide whether a string is a well-formed absolute URL.

use vstd::prelude::*;

verus! {

/// Whether `url::Url::parse` accepts the string as an absolute URL. The
/// parser's acceptance depends on the characters of its input alone; the
/// full grammar is not restated here.
pub uninterp spec fn url_parse_ok(s: Seq<char>) -> bool;

/// Relies on `url::Url::parse`: a pure parser whose success or failure is a
/// function of the input string alone.
#[verifier::external_body]
pub(crate) fn url_is_valid(s: &str) -> (r: bool)
    ensures
        r == url_parse_ok(s@),
{
    url::Url::parse(s).is_ok()
}

} // verus!
