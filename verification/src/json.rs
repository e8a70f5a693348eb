//! Reading a reply's body as JSON and laying it out for the user.

use crate::error::{Failure, RunError};
use vstd::prelude::*;

verus! {

/// A parsed JSON document.
#[verifier::external_type_specification]
#[verifier::external_body]
pub struct ExValue(serde_json::Value);

/// Why a text is no JSON document.
#[verifier::external_type_specification]
#[verifier::external_body]
pub struct ExJsonError(serde_json::Error);

/// The pretty form of a document: what `serde_json` writes for it when asked
/// for indented output.
pub uninterp spec fn pretty_text(doc: serde_json::Value) -> Seq<char>;

/// What `serde_json` says of a parse error.
pub uninterp spec fn json_error_text(err: serde_json::Error) -> Seq<char>;

/// How `serde_json` reads `body`: the pretty form of the document it holds,
/// or what the parser says of the first thing that is wrong with it.
pub uninterp spec fn json_reading(body: Seq<u8>) -> Result<Seq<char>, Seq<char>>;

/// `serde_json::from_slice` for `serde_json::Value`: parses the whole of
/// `body` as one JSON document. The contract claims only that the outcome
/// depends on the bytes alone.
#[verifier::external_body]
fn parse_document(body: &[u8]) -> (parsed: Result<serde_json::Value, serde_json::Error>)
    ensures
        (match parsed {
            Ok(doc) => json_reading(body@) matches Ok(text) && text == pretty_text(doc),
            Err(err) => json_reading(body@) matches Err(text) && text == json_error_text(err),
        }),
{
    serde_json::from_slice::<serde_json::Value>(body)
}

/// `Display` of `serde_json::Value` in its alternate form, which writes the
/// document with `serde_json`'s pretty printer.
#[verifier::external_body]
fn show_document(doc: &serde_json::Value) -> (text: String)
    ensures
        text@ == pretty_text(*doc),
{
    format!("{:#}", doc)
}

/// `Display` of `serde_json::Error`: the parser's message with the line and
/// the column where it stopped.
#[verifier::external_body]
fn show_json_error(err: &serde_json::Error) -> (text: String)
    ensures
        text@ == json_error_text(*err),
{
    format!("{}", err)
}

/// What becomes of a body once the parser has spoken: the pretty text of the
/// document, or the failure that holds the parser's words.
pub open spec fn rendering(reading: Result<Seq<char>, Seq<char>>) -> Result<Seq<char>, Failure> {
    match reading {
        Ok(text) => Ok(text),
        Err(detail) => Err(Failure::Body(detail)),
    }
}

/// Reads `body` as a JSON document and returns it pretty-printed. A body that
/// is no JSON document is a failure.
pub fn render_body(body: &[u8]) -> (out: Result<String, RunError>)
    ensures
        (match rendering(json_reading(body@)) {
            Ok(text) => out matches Ok(shown) && shown@ == text,
            Err(failure) => out matches Err(e) && e@ == failure,
        }),
{
    match parse_document(body) {
        Ok(doc) => Ok(show_document(&doc)),
        Err(err) => Err(RunError::Body(show_json_error(&err))),
    }
}

} // verus!
