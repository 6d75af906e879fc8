//! The URL parser of the `url` crate, as far as the bridge relies on it.
//!
//! Nothing in this file is proved: the contracts say what the verifier takes
//! on trust about the parser. Everything else in the library is verified
//! against them.

use crate::form::form_pairs;
use vstd::prelude::*;

verus! {

/// The parser's own error. The bridge hands it on and never looks inside.
#[verifier::external_type_specification]
#[verifier::external_body]
pub struct ExParseError(url::ParseError);

/// The serialisation of the URL that `url::Url::parse` reads from `input`,
/// or `None` where it refuses the input. A parsed URL is serialised once,
/// when it is parsed, so this is a function of the text alone.
///
/// Nothing is claimed of what the parser makes of its own serialisations:
/// most parse to themselves, and some do not (`file://host//C:/` is written
/// as `file://host/C:/`, and that in turn as `file:///C:/`).
pub uninterp spec fn canonical_form(input: Seq<char>) -> Option<Seq<char>>;

/// Whether it is known where pairs go in a canonical form: it has neither a
/// query nor a fragment, so they follow a `?` at its end, and its end lies
/// within the parser's 32-bit offsets.
pub open spec fn query_free(canonical: Seq<char>) -> bool {
    &&& !canonical.contains('?')
    &&& !canonical.contains('#')
    &&& canonical.len() <= 0x3fff_ffff
}

/// The views of the pairs, in their order.
pub open spec fn pairs_view(pairs: Seq<(String, String)>) -> Seq<(Seq<char>, Seq<char>)> {
    Seq::new(pairs.len(), |i: int| (pairs[i].0@, pairs[i].1@))
}

/// Calls `url::Url::parse` and takes the URL's serialisation.
///
/// Trusted: the result is what `canonical_form` names, the serialisation of
/// the parsed URL, and the call fails exactly where there is none.
#[verifier::external_body]
pub(crate) fn parse_url(input: &str) -> (r: Result<String, url::ParseError>)
    ensures
        r is Ok <==> canonical_form(input@) is Some,
        r matches Ok(s) ==> canonical_form(input@) == Some(s@),
{
    match url::Url::parse(input) {
        Ok(u) => Ok(String::from(u)),
        Err(e) => Err(e),
    }
}

/// Calls `url::Url::parse_with_params` and takes the URL's serialisation.
///
/// Trusted: the call fails exactly where parsing `input` fails; otherwise the
/// function puts `?` behind the canonical form of `input` and then the pairs
/// in `application/x-www-form-urlencoded` syntax. This is the shape of the
/// result only where the canonical form has no query and no fragment, so
/// other inputs are left out; so are those whose canonical form ends beyond
/// the parser's offsets, on which the function panics.
#[verifier::external_body]
pub(crate) fn parse_url_with_params(input: &str, pairs: &Vec<(String, String)>) -> (r: Result<
    String,
    url::ParseError,
>)
    requires
        canonical_form(input@) matches Some(c) ==> query_free(c),
    ensures
        r is Ok <==> canonical_form(input@) is Some,
        r matches Ok(s) ==> s@ == canonical_form(input@)->0 + seq!['?'] + form_pairs(
            pairs_view(pairs@),
        ),
{
    match url::Url::parse_with_params(input, pairs) {
        Ok(u) => Ok(String::from(u)),
        Err(e) => Err(e),
    }
}

} // verus!
