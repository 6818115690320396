//! The credential loader: from the text of a configuration document to the
//! API key stored in it.

use crate::codec::{parse, parsed_text};
use crate::json::{Json, JsonView};
use vstd::prelude::*;

verus! {

/// The member of the configuration document that holds the API key.
pub const API_KEY_FIELD: &'static str = "GROQ_API_KEY";

/// Why no credential could be loaded. The three kinds are kept apart so that
/// a caller can tell them from each other.
#[derive(Debug, PartialEq)]
pub enum ConfigError {
    /// The configuration could not be read at all. The library never makes
    /// this value itself: it is there for the caller that reads the file.
    Unreadable { detail: String },
    /// The configuration is not valid JSON.
    Malformed { detail: String },
    /// The configuration is valid JSON, but the key is absent or its value is
    /// not a string.
    MissingKey,
}

/// The API key that a configuration document holds: the text of its
/// `GROQ_API_KEY` member, when the document is an object, has that member,
/// and the member is a string.
pub open spec fn api_key_of(doc: JsonView) -> Option<Seq<char>> {
    match doc.member(API_KEY_FIELD@) {
        Some(value) => value.text(),
        None => None,
    }
}

/// A document holds no API key when it has no `GROQ_API_KEY` member, and
/// when that member is anything but a string.
pub proof fn lemma_api_key_absent(doc: JsonView)
    requires
        doc.member(API_KEY_FIELD@) is None || !(doc.member(API_KEY_FIELD@)->0 is String),
    ensures
        api_key_of(doc) is None,
{
}

/// A document holds an API key when its `GROQ_API_KEY` member is a string,
/// and the key is that string, character for character.
pub proof fn lemma_api_key_present(doc: JsonView, key: Seq<char>)
    requires
        doc.member(API_KEY_FIELD@) == Some(JsonView::String(key)),
    ensures
        api_key_of(doc) == Some(key),
{
}

/// Takes the API key out of a parsed configuration.
///
/// Fails with `MissingKey`, and with nothing else, exactly when the document
/// holds no key: an empty credential is never made up.
pub fn api_key_in(doc: &Json) -> (r: Result<String, ConfigError>)
    ensures
        match r {
            Ok(key) => api_key_of(doc@) == Some(key@),
            Err(error) => error is MissingKey && api_key_of(doc@) is None,
        },
{
    match doc.get_key(API_KEY_FIELD) {
        Some(value) => match value.as_str() {
            Some(key) => Ok(key.to_owned()),
            None => Err(ConfigError::MissingKey),
        },
        None => Err(ConfigError::MissingKey),
    }
}

/// Loads the API key from the text of a configuration file.
///
/// The text is parsed as JSON and the key is taken out of the document. A
/// text that is not JSON gives `Malformed`; a document without a string under
/// `GROQ_API_KEY` gives `MissingKey`; every other text gives its key,
/// unchanged.
pub fn parse_api_key(content: &str) -> (r: Result<String, ConfigError>)
    ensures
        match r {
            Ok(key) => parsed_text(content@) matches Some(doc) && api_key_of(doc) == Some(key@),
            Err(ConfigError::Malformed { .. }) => parsed_text(content@) is None,
            Err(ConfigError::MissingKey) => parsed_text(content@) matches Some(doc) && api_key_of(
                doc,
            ) is None,
            Err(ConfigError::Unreadable { .. }) => false,
        },
{
    match parse(content) {
        Ok(doc) => api_key_in(&doc),
        Err(error) => Err(ConfigError::Malformed { detail: error.detail }),
    }
}

} // verus!
