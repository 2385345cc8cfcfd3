use word_query::model::WordQuery;
use word_query::prompt::{build_prompt, prompt_for};

/// The whole prompt for the word 天 in `en` at `beginner`, line by line.
fn sky_prompt_lines() -> Vec<&'static str> {
    vec![
        "You are a Chinese language tutor. Provide a definition for the Chinese word '天' in en language.",
        "        Difficulty level: beginner",
        "        ",
        "        Respond with a JSON object containing:",
        "        - word: the Chinese character(s)",
        "        - definition: short definition in the requested language",
        "        - examples: array of 2 example sentences",
        "        ",
        "        Example response for the word '你好' in English language with beginner difficulty:",
        "        {",
        "            \"word\": \"你好\",",
        "            \"definition\": \"A common greeting meaning 'hello' or 'hi' in Chinese.\",",
        "            \"examples\": [",
        "                \"你好，很高兴见到你。(Hello, nice to meet you.)\",",
        "                \"老师走进教室说：'你好，同学们！'(The teacher walked into the classroom and said: 'Hello, students!')\"",
        "            ]",
        "        }",
        "",
        "        Example response for the word '你好' in Chinese language with beginner difficulty:",
        "        {",
        "            \"word\": \"你好\",",
        "            \"definition\": \"打招呼用语\",",
        "            \"examples\": [",
        "                \"你好，很高兴见到你。\",",
        "                \"老师走进教室说：'你好，同学们！'\"",
        "            ]",
        "        }",
        "        ",
        "        Now provide the definition for '天' in en language with beginner difficulty level.",
        "        Format your response as valid JSON only, no additional text.",
    ]
}

#[test]
fn prompt_for_sky_is_the_written_text() {
    let expected = sky_prompt_lines().join("\n");
    assert_eq!(build_prompt("天", "en", "beginner"), expected);
}

#[test]
fn prompt_has_thirty_lines_and_no_trailing_newline() {
    let prompt = build_prompt("天", "en", "beginner");
    assert_eq!(prompt.lines().count(), 30);
    assert!(!prompt.ends_with('\n'));
    assert!(prompt.ends_with("Format your response as valid JSON only, no additional text."));
}

#[test]
fn prompt_names_each_value_twice() {
    let prompt = build_prompt("WORD", "LANG", "LEVEL");
    assert_eq!(prompt.matches("WORD").count(), 2);
    assert_eq!(prompt.matches("LANG").count(), 2);
    assert_eq!(prompt.matches("LEVEL").count(), 2);
    assert!(prompt.starts_with(
        "You are a Chinese language tutor. Provide a definition for the Chinese word 'WORD' in LANG language.\n        Difficulty level: LEVEL\n"
    ));
    assert!(prompt.contains(
        "Now provide the definition for 'WORD' in LANG language with LEVEL difficulty level.\n"
    ));
}

#[test]
fn prompt_sets_values_in_unchanged() {
    let prompt = build_prompt("a'b\"c", " zh ", "{2}");
    assert!(prompt.contains("Chinese word 'a'b\"c' in  zh  language."));
    assert!(prompt.contains("Difficulty level: {2}\n"));
    assert!(prompt.contains("for 'a'b\"c' in  zh  language with {2} difficulty level."));
}

#[test]
fn prompt_shows_both_worked_replies() {
    let prompt = build_prompt("天", "en", "beginner");
    assert!(prompt.contains("\"definition\": \"A common greeting meaning 'hello' or 'hi' in Chinese.\","));
    assert!(prompt.contains("\"definition\": \"打招呼用语\","));
    assert_eq!(prompt.matches("\"word\": \"你好\",").count(), 2);
    assert_eq!(prompt.matches("\"examples\": [").count(), 2);
}

#[test]
fn prompt_with_empty_values_is_the_fixed_text() {
    let prompt = build_prompt("", "", "");
    assert!(prompt.starts_with(
        "You are a Chinese language tutor. Provide a definition for the Chinese word '' in  language.\n        Difficulty level: \n"
    ));
    assert!(prompt.ends_with(
        "Now provide the definition for '' in  language with  difficulty level.\n        Format your response as valid JSON only, no additional text."
    ));
    let filled = sky_prompt_lines().join("\n");
    let set_in = 2 * ("天".chars().count() + "en".chars().count() + "beginner".chars().count());
    assert_eq!(prompt.chars().count() + set_in, filled.chars().count());
}

#[test]
fn prompt_for_request_uses_defaults() {
    let query = WordQuery { word: "天".to_string(), lang: None, difficulty: None };
    assert_eq!(prompt_for(&query), build_prompt("天", "en", "beginner"));
}

#[test]
fn prompt_for_request_uses_what_it_names() {
    let query = WordQuery {
        word: "水".to_string(),
        lang: Some("zh".to_string()),
        difficulty: Some("advanced".to_string()),
    };
    assert_eq!(prompt_for(&query), build_prompt("水", "zh", "advanced"));
    assert_ne!(prompt_for(&query), build_prompt("水", "en", "advanced"));
    assert_ne!(prompt_for(&query), build_prompt("水", "zh", "beginner"));
}
