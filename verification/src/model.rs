//! The records that cross the service boundary: a lookup request, a
//! definition, and the reply that carries one or explains its absence.
//!
//! Each record has a mathematical view over `Seq<char>`; every contract in the
//! crate is stated over these views.

use vstd::prelude::*;
use vstd::string::*;

verus! {

/// Language assumed when a request names none.
pub const DEFAULT_LANGUAGE: &'static str = "en";

/// Difficulty assumed when a request names none.
pub const DEFAULT_DIFFICULTY: &'static str = "beginner";

/// View of an optional string.
pub open spec fn optional_text(text: Option<String>) -> Option<Seq<char>> {
    match text {
        Some(t) => Some(t@),
        None => None,
    }
}

/// A lookup request: the word, and optionally the language of the wanted
/// definition and a difficulty tag.
#[derive(Debug, PartialEq, Eq)]
pub struct WordQuery {
    pub word: String,
    pub lang: Option<String>,
    pub difficulty: Option<String>,
}

/// Mathematical value of a [`WordQuery`].
pub struct WordQueryView {
    pub word: Seq<char>,
    pub lang: Option<Seq<char>>,
    pub difficulty: Option<Seq<char>>,
}

impl WordQueryView {
    /// The language a request resolves to: the one it names, else `en`.
    pub open spec fn language(self) -> Seq<char> {
        match self.lang {
            Some(l) => l,
            None => DEFAULT_LANGUAGE@,
        }
    }

    /// The difficulty a request resolves to: the one it names, else
    /// `beginner`.
    pub open spec fn difficulty_level(self) -> Seq<char> {
        match self.difficulty {
            Some(d) => d,
            None => DEFAULT_DIFFICULTY@,
        }
    }
}

impl View for WordQuery {
    type V = WordQueryView;

    open spec fn view(&self) -> WordQueryView {
        WordQueryView {
            word: self.word@,
            lang: optional_text(self.lang),
            difficulty: optional_text(self.difficulty),
        }
    }
}

impl WordQuery {
    /// The language to resolve in. No normalisation is applied: the text is
    /// handed on exactly as the request gave it.
    pub fn language(&self) -> (lang: &str)
        ensures
            lang@ == self@.language(),
    {
        match &self.lang {
            Some(l) => l.as_str(),
            None => DEFAULT_LANGUAGE,
        }
    }

    /// The difficulty to resolve at.
    pub fn difficulty_level(&self) -> (level: &str)
        ensures
            level@ == self@.difficulty_level(),
    {
        match &self.difficulty {
            Some(d) => d.as_str(),
            None => DEFAULT_DIFFICULTY,
        }
    }
}

/// A word with its definition and example sentences, in order.
#[derive(Debug, PartialEq, Eq)]
pub struct WordDefinition {
    pub word: String,
    pub definition: String,
    pub examples: Vec<String>,
}

/// Mathematical value of a [`WordDefinition`].
pub struct WordDefinitionView {
    pub word: Seq<char>,
    pub definition: Seq<char>,
    pub examples: Seq<Seq<char>>,
}

impl View for WordDefinition {
    type V = WordDefinitionView;

    open spec fn view(&self) -> WordDefinitionView {
        WordDefinitionView {
            word: self.word@,
            definition: self.definition@,
            examples: self.examples.deep_view(),
        }
    }
}

/// The character sequences of `texts`, in order.
pub open spec fn texts_of(texts: Seq<&str>) -> Seq<Seq<char>> {
    Seq::new(texts.len(), |i: int| texts[i]@)
}

impl WordDefinition {
    /// A definition made of borrowed text: the word, what it means, and the
    /// example sentences in the order given.
    pub fn from_texts(word: &str, definition: &str, examples: &[&str]) -> (made: WordDefinition)
        ensures
            made@ == (WordDefinitionView {
                word: word@,
                definition: definition@,
                examples: texts_of(examples@),
            }),
    {
        let mut owned: Vec<String> = Vec::new();
        let mut i: usize = 0;
        while i < examples.len()
            invariant
                i <= examples@.len(),
                owned@.len() == i,
                forall|j: int| 0 <= j < i ==> owned@[j]@ == examples@[j]@,
            decreases examples@.len() - i,
        {
            owned.push(String::from_str(examples[i]));
            i += 1;
        }
        assert(owned.deep_view() =~= texts_of(examples@));
        WordDefinition {
            word: String::from_str(word),
            definition: String::from_str(definition),
            examples: owned,
        }
    }
}

impl Clone for WordDefinition {
    /// An independent copy with the same word, definition and examples.
    fn clone(&self) -> (copy: Self)
        ensures
            copy@ == self@,
    {
        let examples = self.examples.clone();
        assert(examples.deep_view() =~= self.examples.deep_view());
        WordDefinition { word: self.word.clone(), definition: self.definition.clone(), examples }
    }
}

/// View of an optional definition.
pub open spec fn optional_definition(data: Option<WordDefinition>) -> Option<WordDefinitionView> {
    match data {
        Some(d) => Some(d@),
        None => None,
    }
}

/// The reply to a lookup. A reply reports success exactly when it carries a
/// definition; the fields are private so that no reply can say otherwise.
#[derive(Debug, PartialEq, Eq)]
pub struct QueryResponse {
    success: bool,
    data: Option<WordDefinition>,
    message: String,
}

/// Mathematical value of a [`QueryResponse`].
pub struct QueryResponseView {
    pub success: bool,
    pub data: Option<WordDefinitionView>,
    pub message: Seq<char>,
}

impl QueryResponseView {
    /// Success is reported if and only if a definition is present.
    pub open spec fn well_formed(self) -> bool {
        self.success == self.data.is_some()
    }

    /// The successful reply that carries `definition`.
    pub open spec fn found(definition: WordDefinitionView, message: Seq<char>) -> QueryResponseView {
        QueryResponseView { success: true, data: Some(definition), message }
    }

    /// The unsuccessful reply, which carries no definition.
    pub open spec fn failed(message: Seq<char>) -> QueryResponseView {
        QueryResponseView { success: false, data: None, message }
    }
}

impl View for QueryResponse {
    type V = QueryResponseView;

    closed spec fn view(&self) -> QueryResponseView {
        QueryResponseView {
            success: self.success,
            data: optional_definition(self.data),
            message: self.message@,
        }
    }
}

impl QueryResponse {
    #[verifier::type_invariant]
    spec fn consistent(self) -> bool {
        self.success == self.data.is_some()
    }

    /// A successful reply carrying `definition`.
    pub fn found(definition: WordDefinition, message: String) -> (response: QueryResponse)
        ensures
            response@ == QueryResponseView::found(definition@, message@),
            response@.well_formed(),
    {
        QueryResponse { success: true, data: Some(definition), message }
    }

    /// An unsuccessful reply; it carries no definition.
    pub fn failed(message: String) -> (response: QueryResponse)
        ensures
            response@ == QueryResponseView::failed(message@),
            response@.well_formed(),
    {
        QueryResponse { success: false, data: None, message }
    }

    /// Whether the lookup produced a definition.
    pub fn success(&self) -> (success: bool)
        ensures
            success == self@.success,
            success == self@.data.is_some(),
    {
        proof {
            use_type_invariant(self);
        }
        self.success
    }

    /// The definition, present exactly when the reply reports success.
    pub fn data(&self) -> (data: Option<&WordDefinition>)
        ensures
            data.is_some() == self@.success,
            match data {
                Some(d) => self@.data == Some(d@),
                None => self@.data.is_none(),
            },
    {
        proof {
            use_type_invariant(self);
        }
        self.data.as_ref()
    }

    /// The line that explains the outcome.
    pub fn message(&self) -> (message: &str)
        ensures
            message@ == self@.message,
    {
        self.message.as_str()
    }

    /// Takes the reply apart into its three fields, for a caller that has to
    /// hand them to an encoder.
    pub fn into_parts(self) -> (parts: (bool, Option<WordDefinition>, String))
        ensures
            parts.0 == self@.success,
            parts.0 == parts.1.is_some(),
            optional_definition(parts.1) == self@.data,
            parts.2@ == self@.message,
    {
        proof {
            use_type_invariant(&self);
        }
        (self.success, self.data, self.message)
    }
}

} // verus!
