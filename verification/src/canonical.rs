//! Bringing the text of a URL into canonical form.

use crate::error::BridgeError;
use crate::parser::canonical_form;
use crate::parser::parse_url;
use vstd::prelude::*;

verus! {

/// Turns the parser's answer into the bridge's: a serialisation is handed on
/// as it is, and whatever the parser objected to becomes `failure`.
pub fn surface(parsed: Result<String, url::ParseError>, failure: BridgeError) -> (r: Result<
    String,
    BridgeError,
>)
    ensures
        parsed matches Ok(text) ==> r == Ok::<String, BridgeError>(text),
        parsed is Err ==> r == Err::<String, BridgeError>(failure),
{
    match parsed {
        Ok(text) => Ok(text),
        Err(_) => Err(failure),
    }
}

/// What encoding answers for a text: the parser's canonical form of it, and
/// `Parse` where the parser refuses the text.
pub open spec fn encode_outcome(data: Seq<char>) -> Result<Seq<char>, BridgeError> {
    match canonical_form(data) {
        Some(canonical) => Ok(canonical),
        None => Err(BridgeError::Parse),
    }
}

/// Reads `data` as an absolute URL and writes it out again in canonical form.
///
/// The answer is the parser's canonical form of `data`, and `Parse` exactly
/// where the parser refuses the text. Whether encoding the answer again gives
/// the same answer is for `is_canonical` to tell: see `lemma_encode_again`.
pub fn encode_url(data: String) -> (r: Result<String, BridgeError>)
    ensures
        match r {
            Ok(url) => encode_outcome(data@) == Ok::<Seq<char>, BridgeError>(url@),
            Err(e) => encode_outcome(data@) == Err::<Seq<char>, BridgeError>(e),
        },
{
    surface(parse_url(data.as_str()), BridgeError::Parse)
}

/// Whether `text` is a URL in canonical form: the parser accepts it and
/// writes it out unchanged.
pub fn is_canonical(text: &str) -> (b: bool)
    ensures
        b == (canonical_form(text@) == Some(text@)),
{
    match parse_url(text) {
        Ok(canonical) => canonical == text.to_owned(),
        Err(_) => false,
    }
}

/// Encoding answers every text that the parser accepts, and no other.
pub proof fn lemma_encode_succeeds(data: Seq<char>)
    ensures
        encode_outcome(data) is Ok <==> canonical_form(data) is Some,
        encode_outcome(data) is Err ==> encode_outcome(data) == Err::<Seq<char>, BridgeError>(
            BridgeError::Parse,
        ),
{
}

/// Encoding an answer again changes nothing, wherever the parser writes its
/// own answer out unchanged. That is not so of every answer: the parser
/// writes `file://host//C:/` as `file://host/C:/`, and that as `file:///C:/`.
pub proof fn lemma_encode_again(data: Seq<char>)
    requires
        canonical_form(data) matches Some(once) && canonical_form(once) == Some(once),
    ensures
        encode_outcome(data) matches Ok(once) && encode_outcome(once) == encode_outcome(data),
{
}

} // verus!
