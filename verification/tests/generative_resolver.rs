use word_query::catalog::catalog;
use word_query::message::{
    build_found_message, build_missing_message, build_provider_failure_message, PARSE_FAILURE,
};
use word_query::model::{WordDefinition, WordQuery};
use word_query::prompt::build_prompt;
use word_query::resolver::{
    conclude, Completion, DefinitionResolver, GenerativeResolver, StaticResolver, Step,
};

fn request(word: &str, lang: Option<&str>, difficulty: Option<&str>) -> WordQuery {
    WordQuery {
        word: word.to_string(),
        lang: lang.map(|l| l.to_string()),
        difficulty: difficulty.map(|d| d.to_string()),
    }
}

fn asked(resolver: &dyn DefinitionResolver, query: &WordQuery) -> String {
    match resolver.begin(query) {
        Step::Ask(prompt) => prompt,
        Step::Reply(response) => panic!("no reply is due yet: {}", response.message()),
    }
}

fn water() -> WordDefinition {
    WordDefinition::from_texts("水", "Water", &["我想喝水。(I want to drink water.)", "水很冷。(The water is cold.)"])
}

#[test]
fn found_message_is_written_out() {
    assert_eq!(build_found_message("天", "en"), "Definition found for '天' in en");
    assert_eq!(build_found_message("", ""), "Definition found for '' in ");
}

#[test]
fn missing_message_is_written_out() {
    assert_eq!(build_missing_message("xyz", "en"), "No definition found for 'xyz' in language 'en'");
    assert_eq!(build_missing_message("", ""), "No definition found for '' in language ''");
}

#[test]
fn provider_failure_message_is_written_out() {
    assert_eq!(
        build_provider_failure_message("天", "connection refused"),
        "Failed to get definition for '天': connection refused"
    );
    assert_eq!(build_provider_failure_message("", ""), "Failed to get definition for '': ");
}

#[test]
fn generative_resolver_asks_first() {
    let resolver = GenerativeResolver;
    match resolver.begin(&request("天", None, None)) {
        Step::Ask(prompt) => assert_eq!(prompt, build_prompt("天", "en", "beginner")),
        Step::Reply(response) => panic!("no reply is due yet: {}", response.message()),
    }
    match resolver.begin(&request("水", Some("zh"), Some("advanced"))) {
        Step::Ask(prompt) => assert_eq!(prompt, build_prompt("水", "zh", "advanced")),
        Step::Reply(response) => panic!("no reply is due yet: {}", response.message()),
    }
}

#[test]
fn definition_from_the_provider_is_passed_on() {
    let response = conclude(&request("水", None, None), Completion::Definition(water()));
    assert!(response.success());
    assert_eq!(response.data(), Some(&water()));
    assert_eq!(response.message(), "Definition found for '水' in en");
}

#[test]
fn definition_is_not_checked_against_the_request() {
    let odd = WordDefinition::from_texts("火", "Fire", &["only one"]);
    let response =
        conclude(&request("水", Some("zh"), None), Completion::Definition(odd.clone()));
    assert!(response.success());
    assert_eq!(response.data(), Some(&odd));
    assert_eq!(response.message(), "Definition found for '水' in zh");
}

#[test]
fn provider_failure_is_reported_with_its_text() {
    let response = conclude(
        &request("水", Some("zh"), None),
        Completion::Failed("ProviderError: quota exceeded".to_string()),
    );
    assert!(!response.success());
    assert_eq!(response.data(), None);
    assert_eq!(
        response.message(),
        "Failed to get definition for '水': ProviderError: quota exceeded"
    );
}

#[test]
fn malformed_answer_is_reported_without_detail() {
    assert_eq!(PARSE_FAILURE, "Failed to parse LLM response");
    for word in ["水", "", "天"] {
        let response = conclude(&request(word, Some("zh"), None), Completion::Malformed);
        assert!(!response.success());
        assert_eq!(response.data(), None);
        assert_eq!(response.message(), "Failed to parse LLM response");
    }
}

#[test]
fn omitting_language_equals_naming_english_for_the_provider() {
    let resolver = GenerativeResolver;
    let silent = request("天", None, Some("advanced"));
    let english = request("天", Some("en"), Some("advanced"));
    assert_eq!(asked(&resolver, &silent), asked(&resolver, &english));
    let left = conclude(&silent, Completion::Definition(water()));
    let right = conclude(&english, Completion::Definition(water()));
    assert_eq!(left.message(), right.message());
    assert_eq!(left.data(), right.data());
    let left = conclude(&silent, Completion::Failed("down".to_string()));
    let right = conclude(&english, Completion::Failed("down".to_string()));
    assert_eq!(left.message(), right.message());
}

#[test]
fn success_goes_with_data_in_every_generated_reply() {
    let query = request("水", None, None);
    let replies = vec![
        conclude(&query, Completion::Definition(water())),
        conclude(&query, Completion::Malformed),
        conclude(&query, Completion::Failed(String::new())),
    ];
    let expected = [true, false, false];
    for (reply, success) in replies.iter().zip(expected) {
        assert_eq!(reply.success(), success);
        assert_eq!(reply.success(), reply.data().is_some());
    }
}

#[test]
fn both_resolvers_stand_behind_the_one_interface() {
    let resolvers: Vec<Box<dyn DefinitionResolver>> = vec![
        Box::new(StaticResolver::new(catalog())),
        Box::new(GenerativeResolver),
    ];
    let query = request("天", None, None);
    let mut replied = 0;
    let mut asked = 0;
    for resolver in resolvers.iter() {
        match resolver.begin(&query) {
            Step::Reply(response) => {
                replied += 1;
                assert_eq!(response.message(), "Definition found for '天' in en");
            }
            Step::Ask(prompt) => {
                asked += 1;
                assert_eq!(prompt, build_prompt("天", "en", "beginner"));
            }
        }
    }
    assert_eq!((replied, asked), (1, 1));
}
