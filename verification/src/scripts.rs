//! The contract's compiled scripts, as the genesis configuration bundle
//! holds them.

use vstd::prelude::*;

verus! {

/// Key of the bundle's member that holds the compiled validator.
pub const VALIDATOR_KEY: &'static str = "validator";

/// Message of the failure for a bundle without a validator.
pub const VALIDATOR_MISSING: &'static str = "validator not found";

/// A parsed JSON document of `serde_json`.
#[verifier::external_type_specification]
#[verifier::external_body]
pub struct ExJsonValue(serde_json::Value);

/// The reason why `serde_json` rejected a text.
#[verifier::external_type_specification]
#[verifier::external_body]
pub struct ExJsonError(serde_json::Error);

/// The members of the JSON object `document` whose values are strings, by
/// key; empty where `document` is no object.
pub uninterp spec fn text_members(document: serde_json::Value) -> Map<Seq<char>, Seq<char>>;

/// The string members of the JSON document that `text` spells, or `None`
/// where `text` is not one JSON document.
pub uninterp spec fn parsed_text_members(text: Seq<char>) -> Option<Map<Seq<char>, Seq<char>>>;

/// Calls `serde_json::from_str` for a `serde_json::Value`. Trusted: whether
/// the text is accepted, and which string members the document then has,
/// depends on the text alone.
#[verifier::external_body]
fn parse_document(text: &str) -> (parsed: Result<serde_json::Value, serde_json::Error>)
    ensures
        match parsed {
            Ok(document) => parsed_text_members(text@) == Some(text_members(document)),
            Err(_) => parsed_text_members(text@) is None,
        },
{
    serde_json::from_str::<serde_json::Value>(text)
}

/// Calls `serde_json::Value::get` with a string key and
/// `serde_json::Value::as_str` on the member found. Trusted: the result is
/// the member's text where `document` is an object that has a member `key`
/// whose value is a string, and `None` otherwise.
#[verifier::external_body]
fn text_member(document: &serde_json::Value, key: &str) -> (member: Option<String>)
    ensures
        match member {
            Some(text) => text_members(*document).contains_key(key@) && text_members(
                *document,
            )[key@] == text@,
            None => !text_members(*document).contains_key(key@),
        },
{
    document.get(key).and_then(|member| member.as_str()).map(|text| text.to_owned())
}

/// Calls `to_string` on a `serde_json::Error`: the parser's description of
/// what it rejected. Nothing is claimed of the text.
#[verifier::external_body]
fn error_text(error: &serde_json::Error) -> (text: String) {
    error.to_string()
}

/// Why the contract's scripts could not be had.
#[derive(Debug, PartialEq, Eq)]
pub enum ScriptError {
    /// The configuration bundle is malformed or lacks the validator.
    FailedToConstruct(String),
}

/// The compiled scripts of the contract, in hexadecimal CBOR: the spending
/// validator and the minting policy.
pub type ScriptPair = (String, String);

/// Whether `got` is what a bundle with the string members `members` yields:
/// the member `validator` as both scripts, or the failure that names the
/// missing validator.
pub open spec fn scripts_agree(
    got: Result<ScriptPair, ScriptError>,
    validator: Option<Seq<char>>,
) -> bool {
    match validator {
        Some(code) => got matches Ok((spend, mint)) && spend@ == code && mint@ == code,
        None => got matches Err(ScriptError::FailedToConstruct(message)) && message@
            == VALIDATOR_MISSING@,
    }
}

/// Makes the pair of scripts from the bundle's validator member.
pub fn scripts_from_member(validator: Option<String>) -> (scripts: Result<
    ScriptPair,
    ScriptError,
>)
    ensures
        scripts_agree(scripts, crate::token::name_view(validator)),
{
    match validator {
        Some(code) => {
            let mint = code.clone();
            Ok((code, mint))
        },
        None => Err(ScriptError::FailedToConstruct(VALIDATOR_MISSING.to_owned())),
    }
}

/// Reads the contract's scripts out of the genesis configuration bundle
/// `script_values`, a JSON object whose member `validator` holds the compiled
/// validator. The same code serves as spending validator and as minting
/// policy.
pub fn tuna_validators(script_values: &str) -> (scripts: Result<ScriptPair, ScriptError>)
    ensures
        match parsed_text_members(script_values@) {
            Some(members) => scripts_agree(
                scripts,
                if members.contains_key(VALIDATOR_KEY@) {
                    Some(members[VALIDATOR_KEY@])
                } else {
                    None
                },
            ),
            None => scripts matches Err(ScriptError::FailedToConstruct(_)),
        },
{
    match parse_document(script_values) {
        Ok(document) => scripts_from_member(text_member(&document, VALIDATOR_KEY)),
        Err(error) => Err(ScriptError::FailedToConstruct(error_text(&error))),
    }
}

} // verus!
