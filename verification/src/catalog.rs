//! The definitions the service ships with.

use vstd::prelude::*;
use crate::model::{WordDefinition, WordDefinitionView, DEFAULT_LANGUAGE};
use crate::table::{DefinitionTable, TableKey};

verus! {

/// Language tag of the definitions written in Chinese.
pub const CHINESE: &'static str = "zh";

/// First word of the table.
pub const SKY: &'static str = "天";

/// What 天 means, in English.
pub const SKY_MEANING: &'static str = "Sky, heaven, day";

/// What 天 means, in Chinese.
pub const SKY_MEANING_CHINESE: &'static str = "天空；上天；一昼夜";

/// First example for 天, with an English gloss.
pub const SKY_WEATHER: &'static str = "今天天气很好。(The weather is nice today.)";

/// Second example for 天, with an English gloss.
pub const SKY_BLUE: &'static str = "天空很蓝。(The sky is very blue.)";

/// First example for 天, without a gloss.
pub const SKY_WEATHER_CHINESE: &'static str = "今天天气很好。";

/// Second example for 天, without a gloss.
pub const SKY_BLUE_CHINESE: &'static str = "天空很蓝。";

/// Second word of the table.
pub const HELLO: &'static str = "你好";

/// What 你好 means, in English.
pub const HELLO_MEANING: &'static str = "A common greeting meaning 'hello' or 'hi' in Chinese.";

/// What 你好 means, in Chinese.
pub const HELLO_MEANING_CHINESE: &'static str = "打招呼用语";

/// First example for 你好, with an English gloss.
pub const HELLO_MEETING: &'static str = "你好，很高兴见到你。(Hello, nice to meet you.)";

/// Second example for 你好, with an English gloss.
pub const HELLO_CLASSROOM: &'static str =
    "老师走进教室说：'你好，同学们！'(The teacher walked into the classroom and said: 'Hello, students!')";

/// First example for 你好, without a gloss.
pub const HELLO_MEETING_CHINESE: &'static str = "你好，很高兴见到你。";

/// Second example for 你好, without a gloss.
pub const HELLO_CLASSROOM_CHINESE: &'static str = "老师走进教室说：'你好，同学们！'";

/// A definition with two example sentences.
pub open spec fn definition_view(
    word: Seq<char>,
    definition: Seq<char>,
    first: Seq<char>,
    second: Seq<char>,
) -> WordDefinitionView {
    WordDefinitionView { word, definition, examples: seq![first, second] }
}

/// The shipped table: each word defined once in English and once in
/// Chinese, the Chinese entries with examples that carry no gloss.
pub open spec fn catalog_entries() -> Map<TableKey, WordDefinitionView> {
    Map::<TableKey, WordDefinitionView>::empty().insert(
        (SKY@, DEFAULT_LANGUAGE@),
        definition_view(SKY@, SKY_MEANING@, SKY_WEATHER@, SKY_BLUE@),
    ).insert(
        (SKY@, CHINESE@),
        definition_view(SKY@, SKY_MEANING_CHINESE@, SKY_WEATHER_CHINESE@, SKY_BLUE_CHINESE@),
    ).insert(
        (HELLO@, DEFAULT_LANGUAGE@),
        definition_view(HELLO@, HELLO_MEANING@, HELLO_MEETING@, HELLO_CLASSROOM@),
    ).insert(
        (HELLO@, CHINESE@),
        definition_view(
            HELLO@,
            HELLO_MEANING_CHINESE@,
            HELLO_MEETING_CHINESE@,
            HELLO_CLASSROOM_CHINESE@,
        ),
    )
}

/// The two words of the shipped table differ, and so do its two languages,
/// so its four keys are four different keys.
pub proof fn lemma_catalog_keys_differ()
    ensures
        SKY@ != HELLO@,
        DEFAULT_LANGUAGE@ != CHINESE@,
{
    reveal_strlit("天");
    reveal_strlit("你好");
    reveal_strlit("en");
    reveal_strlit("zh");
    assert(SKY@.len() != HELLO@.len());
    assert(DEFAULT_LANGUAGE@[0] != CHINESE@[0]);
}

/// The shipped table binds its four pairs, each to the definition written
/// for it; no later entry displaces an earlier one.
pub proof fn lemma_catalog_bindings()
    ensures
        catalog_entries().dom() == set![
            (SKY@, DEFAULT_LANGUAGE@),
            (SKY@, CHINESE@),
            (HELLO@, DEFAULT_LANGUAGE@),
            (HELLO@, CHINESE@),
        ],
        catalog_entries()[(SKY@, DEFAULT_LANGUAGE@)] == definition_view(
            SKY@,
            SKY_MEANING@,
            SKY_WEATHER@,
            SKY_BLUE@,
        ),
        catalog_entries()[(SKY@, CHINESE@)] == definition_view(
            SKY@,
            SKY_MEANING_CHINESE@,
            SKY_WEATHER_CHINESE@,
            SKY_BLUE_CHINESE@,
        ),
        catalog_entries()[(HELLO@, DEFAULT_LANGUAGE@)] == definition_view(
            HELLO@,
            HELLO_MEANING@,
            HELLO_MEETING@,
            HELLO_CLASSROOM@,
        ),
        catalog_entries()[(HELLO@, CHINESE@)] == definition_view(
            HELLO@,
            HELLO_MEANING_CHINESE@,
            HELLO_MEETING_CHINESE@,
            HELLO_CLASSROOM_CHINESE@,
        ),
{
    lemma_catalog_keys_differ();
    assert(catalog_entries().dom() =~= set![
        (SKY@, DEFAULT_LANGUAGE@),
        (SKY@, CHINESE@),
        (HELLO@, DEFAULT_LANGUAGE@),
        (HELLO@, CHINESE@),
    ]);
}

/// Adds one entry with two examples to `table`.
fn define(
    table: &mut DefinitionTable,
    word: &'static str,
    lang: &'static str,
    definition: &'static str,
    first: &'static str,
    second: &'static str,
)
    ensures
        final(table)@ == old(table)@.insert(
            (word@, lang@),
            definition_view(word@, definition@, first@, second@),
        ),
{
    let examples = [first, second];
    let made = WordDefinition::from_texts(word, definition, &examples);
    assert(made@.examples =~= seq![first@, second@]);
    table.insert(word.to_owned(), lang.to_owned(), made);
}

/// Builds the shipped table.
pub fn catalog() -> (table: DefinitionTable)
    ensures
        table@ == catalog_entries(),
{
    let mut table = DefinitionTable::new();
    define(&mut table, SKY, DEFAULT_LANGUAGE, SKY_MEANING, SKY_WEATHER, SKY_BLUE);
    define(&mut table, SKY, CHINESE, SKY_MEANING_CHINESE, SKY_WEATHER_CHINESE, SKY_BLUE_CHINESE);
    define(&mut table, HELLO, DEFAULT_LANGUAGE, HELLO_MEANING, HELLO_MEETING, HELLO_CLASSROOM);
    define(
        &mut table,
        HELLO,
        CHINESE,
        HELLO_MEANING_CHINESE,
        HELLO_MEETING_CHINESE,
        HELLO_CLASSROOM_CHINESE,
    );
    table
}

} // verus!
