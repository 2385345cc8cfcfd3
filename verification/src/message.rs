//! The message line of a reply, one form per outcome.

use vstd::prelude::*;
use vstd::string::*;

verus! {

/// Opens the message of a successful lookup.
pub const FOUND_OPENING: &'static str = "Definition found for '";

/// Joins word and language in the message of a successful lookup.
pub const FOUND_IN: &'static str = "' in ";

/// Opens the message of a lookup that found nothing.
pub const MISSING_OPENING: &'static str = "No definition found for '";

/// Joins word and language in the message of a lookup that found nothing.
pub const MISSING_IN: &'static str = "' in language '";

/// Closes the message of a lookup that found nothing.
pub const MISSING_CLOSING: &'static str = "'";

/// Opens the message of a failed provider call.
pub const PROVIDER_FAILURE_OPENING: &'static str = "Failed to get definition for '";

/// Joins word and error text in the message of a failed provider call.
pub const PROVIDER_FAILURE_CAUSE: &'static str = "': ";

/// The whole message for a provider reply that is not a definition. It
/// names neither the word nor the reason.
pub const PARSE_FAILURE: &'static str = "Failed to parse LLM response";

/// `Definition found for '<word>' in <lang>`.
pub open spec fn found_message(word: Seq<char>, lang: Seq<char>) -> Seq<char> {
    FOUND_OPENING@ + word + FOUND_IN@ + lang
}

/// `No definition found for '<word>' in language '<lang>'`.
pub open spec fn missing_message(word: Seq<char>, lang: Seq<char>) -> Seq<char> {
    MISSING_OPENING@ + word + MISSING_IN@ + lang + MISSING_CLOSING@
}

/// `Failed to get definition for '<word>': <error>`.
pub open spec fn provider_failure_message(word: Seq<char>, error: Seq<char>) -> Seq<char> {
    PROVIDER_FAILURE_OPENING@ + word + PROVIDER_FAILURE_CAUSE@ + error
}

/// Message for a definition found for `word` in `lang`.
pub fn build_found_message(word: &str, lang: &str) -> (message: String)
    ensures
        message@ == found_message(word@, lang@),
{
    let mut message = String::from_str(FOUND_OPENING);
    message.append(word);
    message.append(FOUND_IN);
    message.append(lang);
    message
}

/// Message for no definition of `word` in `lang`.
pub fn build_missing_message(word: &str, lang: &str) -> (message: String)
    ensures
        message@ == missing_message(word@, lang@),
{
    let mut message = String::from_str(MISSING_OPENING);
    message.append(word);
    message.append(MISSING_IN);
    message.append(lang);
    message.append(MISSING_CLOSING);
    message
}

/// Message for a provider call about `word` that failed with `error`.
pub fn build_provider_failure_message(word: &str, error: &str) -> (message: String)
    ensures
        message@ == provider_failure_message(word@, error@),
{
    let mut message = String::from_str(PROVIDER_FAILURE_OPENING);
    message.append(word);
    message.append(PROVIDER_FAILURE_CAUSE);
    message.append(error);
    message
}

} // verus!
