//! The instruction sent to a text-generation provider for one lookup.
//!
//! The text is fixed but for three places each where the word, the language
//! and the difficulty are set in. It shows the provider two worked replies so
//! that it answers with a JSON object of the fields `word`, `definition` and
//! `examples`.

use vstd::prelude::*;
use vstd::string::*;
use crate::model::WordQuery;

verus! {

/// Start of the instruction, up to the first mention of the word.
pub const PROMPT_OPENING: &'static str =
    "You are a Chinese language tutor. Provide a definition for the Chinese word '";

/// Joins the quoted word to the language, both times they are named.
pub const PROMPT_IN: &'static str = "' in ";

/// Leads from the language to the difficulty.
pub const PROMPT_LEVEL: &'static str = " language.\n        \
    Difficulty level: ";

/// The wanted shape of the reply, with one worked reply in English and one
/// in Chinese, up to the second mention of the word.
pub const PROMPT_GUIDANCE: &'static str = "\n        \
    \n        \
    Respond with a JSON object containing:\n        \
    - word: the Chinese character(s)\n        \
    - definition: short definition in the requested language\n        \
    - examples: array of 2 example sentences\n        \
    \n        \
    Example response for the word '你好' in English language with beginner difficulty:\n        \
    {\n            \
    \"word\": \"你好\",\n            \
    \"definition\": \"A common greeting meaning 'hello' or 'hi' in Chinese.\",\n            \
    \"examples\": [\n                \
    \"你好，很高兴见到你。(Hello, nice to meet you.)\",\n                \
    \"老师走进教室说：'你好，同学们！'(The teacher walked into the classroom and said: 'Hello, students!')\"\n            \
    ]\n        \
    }\n\
    \n        \
    Example response for the word '你好' in Chinese language with beginner difficulty:\n        \
    {\n            \
    \"word\": \"你好\",\n            \
    \"definition\": \"打招呼用语\",\n            \
    \"examples\": [\n                \
    \"你好，很高兴见到你。\",\n                \
    \"老师走进教室说：'你好，同学们！'\"\n            \
    ]\n        \
    }\n        \
    \n        \
    Now provide the definition for '";

/// Leads from the language to the difficulty in the closing request.
pub const PROMPT_WITH: &'static str = " language with ";

/// End of the instruction.
pub const PROMPT_CLOSING: &'static str = " difficulty level.\n        \
    Format your response as valid JSON only, no additional text.";

/// The instruction for `word` in `lang` at `difficulty`: the fixed text with
/// the three values set in, each of them twice and unchanged.
pub open spec fn prompt_text(word: Seq<char>, lang: Seq<char>, difficulty: Seq<char>) -> Seq<char> {
    PROMPT_OPENING@ + word + PROMPT_IN@ + lang + PROMPT_LEVEL@ + difficulty + PROMPT_GUIDANCE@
        + word + PROMPT_IN@ + lang + PROMPT_WITH@ + difficulty + PROMPT_CLOSING@
}

/// Builds the instruction for `word` in `lang` at `difficulty`.
pub fn build_prompt(word: &str, lang: &str, difficulty: &str) -> (prompt: String)
    ensures
        prompt@ == prompt_text(word@, lang@, difficulty@),
{
    let mut prompt = String::from_str(PROMPT_OPENING);
    prompt.append(word);
    prompt.append(PROMPT_IN);
    prompt.append(lang);
    prompt.append(PROMPT_LEVEL);
    prompt.append(difficulty);
    prompt.append(PROMPT_GUIDANCE);
    prompt.append(word);
    prompt.append(PROMPT_IN);
    prompt.append(lang);
    prompt.append(PROMPT_WITH);
    prompt.append(difficulty);
    prompt.append(PROMPT_CLOSING);
    prompt
}

/// Builds the instruction for a request, with `en` and `beginner` standing
/// in for a language or difficulty that the request leaves out.
pub fn prompt_for(query: &WordQuery) -> (prompt: String)
    ensures
        prompt@ == prompt_text(query@.word, query@.language(), query@.difficulty_level()),
{
    build_prompt(query.word.as_str(), query.language(), query.difficulty_level())
}

} // verus!
