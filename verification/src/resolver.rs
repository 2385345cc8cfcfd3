//! The two ways a request is resolved: against the definition table, or by
//! one exchange with a text-generation provider.
//!
//! A resolver never performs the exchange itself. It says what to do first
//! with a request, either reply at once or put a prompt to the provider, and
//! [`conclude`] turns what came of the exchange into the reply.

use vstd::prelude::*;
use vstd::string::*;
use crate::message::{
    build_found_message, build_missing_message, build_provider_failure_message, found_message,
    missing_message, provider_failure_message, PARSE_FAILURE,
};
use crate::model::{
    QueryResponse, QueryResponseView, WordDefinition, WordDefinitionView, WordQuery, WordQueryView,
    DEFAULT_LANGUAGE,
};
use crate::prompt::{prompt_for, prompt_text};
use crate::table::{DefinitionTable, TableKey};

verus! {

/// What came of the one call to the provider, once its text was decoded.
#[derive(Debug, PartialEq, Eq)]
pub enum Completion {
    /// The call failed; the text is the error as the provider client gave it.
    Failed(String),
    /// The provider answered, but its text is not a definition.
    Malformed,
    /// The provider answered with this definition.
    Definition(WordDefinition),
}

/// Mathematical value of a [`Completion`].
pub enum CompletionView {
    Failed(Seq<char>),
    Malformed,
    Definition(WordDefinitionView),
}

impl View for Completion {
    type V = CompletionView;

    open spec fn view(&self) -> CompletionView {
        match *self {
            Completion::Failed(error) => CompletionView::Failed(error@),
            Completion::Malformed => CompletionView::Malformed,
            Completion::Definition(definition) => CompletionView::Definition(definition@),
        }
    }
}

/// What a resolver does first with a request.
#[derive(Debug, PartialEq, Eq)]
pub enum Step {
    /// The reply is known; send it.
    Reply(QueryResponse),
    /// Put this prompt to the provider and come back with the completion.
    Ask(String),
}

/// Mathematical value of a [`Step`].
pub enum StepView {
    Reply(QueryResponseView),
    Ask(Seq<char>),
}

impl View for Step {
    type V = StepView;

    open spec fn view(&self) -> StepView {
        match *self {
            Step::Reply(response) => StepView::Reply(response@),
            Step::Ask(prompt) => StepView::Ask(prompt@),
        }
    }
}

/// The reply of the table-backed resolver: the stored definition where
/// `table` binds the request's word and language, and a miss everywhere else.
pub open spec fn static_response(
    table: Map<TableKey, WordDefinitionView>,
    query: WordQueryView,
) -> QueryResponseView {
    let key = (query.word, query.language());
    if table.contains_key(key) {
        QueryResponseView::found(table[key], found_message(query.word, query.language()))
    } else {
        QueryResponseView::failed(missing_message(query.word, query.language()))
    }
}

/// The reply of the generative resolver, by what came of the exchange.
pub open spec fn generated_response(
    query: WordQueryView,
    completion: CompletionView,
) -> QueryResponseView {
    match completion {
        CompletionView::Definition(definition) => QueryResponseView::found(
            definition,
            found_message(query.word, query.language()),
        ),
        CompletionView::Malformed => QueryResponseView::failed(PARSE_FAILURE@),
        CompletionView::Failed(error) => QueryResponseView::failed(
            provider_failure_message(query.word, error),
        ),
    }
}

/// The one interface of both resolvers.
pub trait DefinitionResolver {
    /// The first step this resolver takes for `query`.
    spec fn opening(&self, query: WordQueryView) -> StepView;

    /// Takes the first step for `query`.
    fn begin(&self, query: &WordQuery) -> (step: Step)
        ensures
            step@ == self.opening(query@),
    ;
}

/// Resolves against a definition table and nothing else.
pub struct StaticResolver {
    table: DefinitionTable,
}

impl View for StaticResolver {
    type V = Map<TableKey, WordDefinitionView>;

    closed spec fn view(&self) -> Map<TableKey, WordDefinitionView> {
        self.table@
    }
}

impl StaticResolver {
    /// A resolver over `table`.
    pub fn new(table: DefinitionTable) -> (resolver: StaticResolver)
        ensures
            resolver@ == table@,
    {
        StaticResolver { table }
    }

    /// Looks the request up under its word and its language, `en` where it
    /// names none. A hit replies with a copy of the stored definition; a miss
    /// is an ordinary reply without one.
    pub fn resolve(&self, query: &WordQuery) -> (response: QueryResponse)
        ensures
            response@ == static_response(self@, query@),
            response@.well_formed(),
    {
        let word = query.word.as_str();
        let lang = query.language();
        match self.table.lookup(word, lang) {
            Some(definition) => QueryResponse::found(
                definition.clone(),
                build_found_message(word, lang),
            ),
            None => QueryResponse::failed(build_missing_message(word, lang)),
        }
    }
}

impl DefinitionResolver for StaticResolver {
    open spec fn opening(&self, query: WordQueryView) -> StepView {
        StepView::Reply(static_response(self@, query))
    }

    fn begin(&self, query: &WordQuery) -> (step: Step)
        ensures
            step@ == StepView::Reply(static_response(self@, query@)),
    {
        Step::Reply(self.resolve(query))
    }
}

/// Resolves by one exchange with a text-generation provider: its first step
/// is always to ask, and [`conclude`] makes the reply of what comes back.
pub struct GenerativeResolver;

impl DefinitionResolver for GenerativeResolver {
    open spec fn opening(&self, query: WordQueryView) -> StepView {
        StepView::Ask(prompt_text(query.word, query.language(), query.difficulty_level()))
    }

    fn begin(&self, query: &WordQuery) -> (step: Step)
        ensures
            step@ == StepView::Ask(
                prompt_text(query@.word, query@.language(), query@.difficulty_level()),
            ),
    {
        Step::Ask(prompt_for(query))
    }
}

/// Turns what came of the exchange into the reply to `query`. A definition is
/// passed on as it is; a failed call is reported with the provider's error
/// text; an answer that is no definition is reported without detail. Nothing
/// is retried.
pub fn conclude(query: &WordQuery, completion: Completion) -> (response: QueryResponse)
    ensures
        response@ == generated_response(query@, completion@),
        response@.well_formed(),
{
    match completion {
        Completion::Definition(definition) => QueryResponse::found(
            definition,
            build_found_message(query.word.as_str(), query.language()),
        ),
        Completion::Malformed => QueryResponse::failed(String::from_str(PARSE_FAILURE)),
        Completion::Failed(error) => QueryResponse::failed(
            build_provider_failure_message(query.word.as_str(), error.as_str()),
        ),
    }
}

/// Every pair that the table binds resolves to success with exactly the
/// stored definition, examples included, whatever difficulty is asked for.
pub proof fn lemma_bound_pair_resolves_to_stored(
    table: Map<TableKey, WordDefinitionView>,
    word: Seq<char>,
    lang: Seq<char>,
    difficulty: Option<Seq<char>>,
)
    requires
        table.contains_key((word, lang)),
    ensures
        ({
            let response = static_response(
                table,
                WordQueryView { word, lang: Some(lang), difficulty },
            );
            &&& response.success
            &&& response.data == Some(table[(word, lang)])
            &&& response.data.unwrap().examples == table[(word, lang)].examples
            &&& response.message == found_message(word, lang)
        }),
{
}

/// Every pair that the table does not bind resolves to failure without
/// data. Nothing near the pair is tried: not another language, not another
/// spelling.
pub proof fn lemma_unbound_pair_resolves_to_miss(
    table: Map<TableKey, WordDefinitionView>,
    word: Seq<char>,
    lang: Seq<char>,
    difficulty: Option<Seq<char>>,
)
    requires
        !table.contains_key((word, lang)),
    ensures
        ({
            let response = static_response(
                table,
                WordQueryView { word, lang: Some(lang), difficulty },
            );
            &&& !response.success
            &&& response.data.is_none()
            &&& response.message == missing_message(word, lang)
        }),
{
}

/// A request that names no language is resolved exactly as the same request
/// naming `en`: same table reply, same prompt, same reply to every
/// completion.
pub proof fn lemma_absent_language_is_english(
    table: Map<TableKey, WordDefinitionView>,
    word: Seq<char>,
    difficulty: Option<Seq<char>>,
    completion: CompletionView,
)
    ensures
        ({
            let silent = WordQueryView { word, lang: None, difficulty };
            let english = WordQueryView { word, lang: Some(DEFAULT_LANGUAGE@), difficulty };
            &&& static_response(table, silent) == static_response(table, english)
            &&& generated_response(silent, completion) == generated_response(english, completion)
            &&& prompt_text(silent.word, silent.language(), silent.difficulty_level())
                == prompt_text(english.word, english.language(), english.difficulty_level())
        }),
{
}

/// Whatever the table, the request and the completion, a reply reports
/// success if and only if it carries a definition.
pub proof fn lemma_success_iff_data(
    table: Map<TableKey, WordDefinitionView>,
    query: WordQueryView,
    completion: CompletionView,
)
    ensures
        static_response(table, query).well_formed(),
        static_response(table, query).success == static_response(table, query).data.is_some(),
        generated_response(query, completion).well_formed(),
        generated_response(query, completion).success == generated_response(
            query,
            completion,
        ).data.is_some(),
{
}

} // verus!
