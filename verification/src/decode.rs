//! The message decoder: from one raw feed message to the text of its price.
//!
//! A feed message is a JSON document. The price travels in the member `p` of
//! the top-level object, as a string that spells a number.

use vstd::prelude::*;

verus! {

/// Why a feed message yields no observation.
#[derive(Clone, Copy, Debug, PartialEq, Eq, Structural)]
pub enum DecodeError {
    /// No price member can be found in the message.
    MissingField,
    /// A price member is there, but it does not spell a number.
    ParseError,
}

/// `serde_json::Value`, a JSON document or a part of one. Nothing is known of
/// its inside; it is carried from one call of `serde_json` to the next.
#[verifier::external_type_specification]
#[verifier::external_body]
pub struct ExJsonValue(serde_json::Value);

/// `serde_json::Error`, the reason why a text is no JSON document. Nothing
/// is known of its inside.
#[verifier::external_type_specification]
#[verifier::external_body]
pub struct ExJsonError(serde_json::Error);

/// The document that `serde_json::from_str` reads from a text, if it reads one.
pub uninterp spec fn parsed_json(text: Seq<char>) -> Option<serde_json::Value>;

/// The member that `serde_json::Value::get` finds under a string key, if any.
pub uninterp spec fn json_member(value: serde_json::Value, key: Seq<char>) -> Option<
    serde_json::Value,
>;

/// The text that `serde_json::Value::as_str` gives for a value, if it is a
/// JSON string.
pub uninterp spec fn json_text(value: serde_json::Value) -> Option<Seq<char>>;

/// Calls `serde_json::from_str` for a `serde_json::Value`. Trusted: the result
/// is a function of the text alone, named `parsed_json`; an error stands for
/// the absence of a document.
#[verifier::external_body]
fn parse_json(text: &str) -> (r: Result<serde_json::Value, serde_json::Error>)
    ensures
        match r {
            Ok(value) => parsed_json(text@) == Some(value),
            Err(_) => parsed_json(text@) is None,
        },
{
    serde_json::from_str::<serde_json::Value>(text)
}

/// Calls `serde_json::Value::get` with a string key. Trusted: the result is a
/// function of the value and the key alone, named `json_member`.
#[verifier::external_body]
fn member<'a>(value: &'a serde_json::Value, key: &str) -> (r: Option<&'a serde_json::Value>)
    ensures
        match r {
            Some(found) => json_member(*value, key@) == Some(*found),
            None => json_member(*value, key@) is None,
        },
{
    value.get(key)
}

/// Calls `serde_json::Value::as_str`. Trusted: the result is a function of the
/// value alone, named `json_text`.
#[verifier::external_body]
fn text_of<'a>(value: &'a serde_json::Value) -> (r: Option<&'a str>)
    ensures
        match r {
            Some(text) => json_text(*value) == Some(text@),
            None => json_text(*value) is None,
        },
{
    value.as_str()
}

/// What looking up one member of a message found.
#[derive(Debug, PartialEq, Eq)]
pub enum FieldLookup {
    /// The message is not a JSON document.
    Malformed,
    /// The document has no such member.
    Absent,
    /// The member is there and is not a JSON string.
    NotText,
    /// The member is a JSON string with this text.
    Text(String),
}

/// Mathematical model of a [`FieldLookup`].
pub ghost enum FieldLookupModel {
    Malformed,
    Absent,
    NotText,
    Text(Seq<char>),
}

impl View for FieldLookup {
    type V = FieldLookupModel;

    open spec fn view(&self) -> FieldLookupModel {
        match self {
            FieldLookup::Malformed => FieldLookupModel::Malformed,
            FieldLookup::Absent => FieldLookupModel::Absent,
            FieldLookup::NotText => FieldLookupModel::NotText,
            FieldLookup::Text(text) => FieldLookupModel::Text(text@),
        }
    }
}

/// What a lookup of `key` in the message `text` finds.
pub open spec fn lookup_spec(text: Seq<char>, key: Seq<char>) -> FieldLookupModel {
    match parsed_json(text) {
        None => FieldLookupModel::Malformed,
        Some(document) => match json_member(document, key) {
            None => FieldLookupModel::Absent,
            Some(found) => match json_text(found) {
                None => FieldLookupModel::NotText,
                Some(content) => FieldLookupModel::Text(content),
            },
        },
    }
}

/// The price text that a lookup stands for, or the reason there is none.
/// A message that cannot be read has no price member to offer.
pub open spec fn price_of_lookup(lookup: FieldLookupModel) -> Result<Seq<char>, DecodeError> {
    match lookup {
        FieldLookupModel::Malformed => Err(DecodeError::MissingField),
        FieldLookupModel::Absent => Err(DecodeError::MissingField),
        FieldLookupModel::NotText => Err(DecodeError::ParseError),
        FieldLookupModel::Text(content) => Ok(content),
    }
}

/// The view of a decoded price text.
pub open spec fn text_view(decoded: Result<String, DecodeError>) -> Result<
    Seq<char>,
    DecodeError,
> {
    match decoded {
        Ok(text) => Ok(text@),
        Err(error) => Err(error),
    }
}

/// Reads the message and looks up the member `key` of its top-level object.
pub fn lookup_field(text: &str, key: &str) -> (found: FieldLookup)
    ensures
        found@ == lookup_spec(text@, key@),
{
    match parse_json(text) {
        Err(_) => FieldLookup::Malformed,
        Ok(document) => match member(&document, key) {
            None => FieldLookup::Absent,
            Some(value) => match text_of(value) {
                None => FieldLookup::NotText,
                Some(content) => FieldLookup::Text(content.to_owned()),
            },
        },
    }
}

/// Turns what a lookup found into the price text or the decode error.
pub fn classify_lookup(lookup: FieldLookup) -> (decoded: Result<String, DecodeError>)
    ensures
        text_view(decoded) == price_of_lookup(lookup@),
{
    match lookup {
        FieldLookup::Malformed => Err(DecodeError::MissingField),
        FieldLookup::Absent => Err(DecodeError::MissingField),
        FieldLookup::NotText => Err(DecodeError::ParseError),
        FieldLookup::Text(content) => Ok(content),
    }
}

/// Extracts the text of the price from one raw feed message.
pub fn price_text(message: &str) -> (decoded: Result<String, DecodeError>)
    ensures
        text_view(decoded) == price_of_lookup(lookup_spec(message@, "p"@)),
{
    classify_lookup(lookup_field(message, "p"))
}

/// What reading the price text as a number makes of the decoding: a text
/// that spells no number is a parse error.
pub open spec fn number_outcome<T>(number: Option<T>) -> Result<T, DecodeError> {
    match number {
        Some(value) => Ok(value),
        None => Err(DecodeError::ParseError),
    }
}

/// Closes the decoding of a price: `number` is what reading the price text as
/// a number gave.
pub fn accept_number<T>(number: Option<T>) -> (decoded: Result<T, DecodeError>)
    ensures
        decoded == number_outcome(number),
{
    match number {
        Some(value) => Ok(value),
        None => Err(DecodeError::ParseError),
    }
}

/// Decodes one raw feed message into a price observation. `read_number` reads
/// a price text as a number and gives nothing for a text that spells none; it
/// is called on the price text of the message, and only when there is one.
pub fn decode<T, F: FnOnce(String) -> Option<T>>(message: &str, read_number: F) -> (decoded:
    Result<T, DecodeError>)
    requires
        forall|text: String| #[trigger] read_number.requires((text,)),
    ensures
        match price_of_lookup(lookup_spec(message@, "p"@)) {
            Err(error) => decoded == Err::<T, DecodeError>(error),
            Ok(price) => exists|text: String, number: Option<T>|
                text@ == price && #[trigger] read_number.ensures((text,), number) && decoded
                    == number_outcome(number),
        },
{
    match price_text(message) {
        Err(error) => Err(error),
        Ok(text) => {
            let ghost given = text;
            let number = read_number(text);
            assert(read_number.ensures((given,), number));
            accept_number(number)
        },
    }
}

} // verus!
