use rust_mentor::config::{CodeComplexity, ContentCustomization, ExplanationVerbosity, FocusArea};
use rust_mentor::data::Topic;
use rust_mentor::learning_goal::LearningGoal;
use rust_mentor::llm::{create_prompt, level_description, parse_response, MODULE_PROMPT};
use rust_mentor::prompt_response::{add_line, marker_label, text_after_tag, without_fences};
use rust_mentor::question_generator::{AnswerOption, Question, QuestionSet, QuestionType};
use rust_mentor::question_prompts::{
    create_application_prompt, create_questions_prompt, APPLICATION_PROMPT_TAIL, QUESTIONS_PROMPT,
};
use rust_mentor::template::{filled, same_text, Binding};
use rust_mentor::text::{
    chars_of, copy_range, digit, find_from, has_at, has_prefix, leading_count, mentions,
    push_all, push_decimal, push_str, repeated_prefix_end, split_lines, string_of,
    trailing_bound, trimmed, without, CharClass,
};

fn chars(text: &str) -> Vec<char> {
    text.chars().collect()
}

fn text(row: Vec<char>) -> String {
    row.into_iter().collect()
}

fn strings(rows: Vec<Vec<char>>) -> Vec<String> {
    rows.into_iter().map(text).collect()
}

fn topic() -> Topic {
    Topic { topic: "Traits".to_string(), source: "RBE 16".to_string(), min_level: 2 }
}

#[test]
fn lines_of_a_text() {
    assert_eq!(strings(split_lines(&chars("foo\nbar\n\r\nbaz\r"))), vec!["foo", "bar", "", "baz\r"]);
    assert_eq!(strings(split_lines(&chars("a\n"))), vec!["a"]);
    assert_eq!(strings(split_lines(&chars("a\n\n"))), vec!["a", ""]);
    assert_eq!(strings(split_lines(&chars("\n"))), vec![""]);
    assert_eq!(strings(split_lines(&chars("a\r\nb"))), vec!["a", "b"]);
    assert_eq!(strings(split_lines(&chars("a\r\r\nb"))), vec!["a\r", "b"]);
    assert_eq!(split_lines(&chars("")).len(), 0);
}

#[test]
fn trimming() {
    assert_eq!(text(trimmed(&chars("  \t a b \u{a0}\n"), CharClass::Whitespace)), "a b");
    assert_eq!(text(trimmed(&chars("   "), CharClass::Whitespace)), "");
    assert_eq!(text(trimmed(&chars(""), CharClass::Whitespace)), "");
    assert_eq!(text(trimmed(&chars(">>a>b>>>"), CharClass::Exactly('>'))), "a>b");
    assert_eq!(text(trimmed(&chars("\u{200b}x"), CharClass::Whitespace)), "\u{200b}x");
    assert_eq!(leading_count(&chars("--x-"), CharClass::Exactly('-')), 2);
    assert_eq!(trailing_bound(&chars("ab  "), 0, CharClass::Whitespace), 2);
    assert_eq!(trailing_bound(&chars("    "), 2, CharClass::Whitespace), 2);
    assert!(CharClass::Whitespace.test('\u{3000}'));
    assert!(CharClass::Whitespace.test('\u{85}'));
    assert!(!CharClass::Whitespace.test('\u{180e}'));
    assert!(!CharClass::Whitespace.test('_'));
}

#[test]
fn searching() {
    assert!(has_prefix(&chars("<<<end>>>"), "<<<end"));
    assert!(!has_prefix(&chars("<<"), "<<<"));
    assert!(has_prefix(&chars("x"), ""));
    assert!(has_at(&chars("abcabc"), 3, "abc"));
    assert!(!has_at(&chars("abcabc"), 4, "abc"));
    assert!(!has_at(&chars("abc"), 9, ""));
    assert!(has_at(&chars("abc"), 3, ""));
    assert_eq!(find_from(&chars("a:b:c"), 0, ':'), 1);
    assert_eq!(find_from(&chars("a:b:c"), 2, ':'), 3);
    assert_eq!(find_from(&chars("a:b:c"), 4, ':'), 5);
    assert!(mentions(&chars("a MulTiPle b"), "multiple"));
    assert!(!mentions(&chars("multipl"), "multiple"));
    assert!(mentions(&chars(""), ""));
    assert!(!mentions(&chars("mult\u{130}ple"), "multiple"));
    assert_eq!(repeated_prefix_end(&chars("ababab c"), "ab"), 6);
    assert_eq!(repeated_prefix_end(&chars("xab"), "ab"), 0);
    assert_eq!(repeated_prefix_end(&chars("xab"), ""), 0);
}

#[test]
fn removing() {
    assert_eq!(text(without(&chars("a```b```rust c"), "```")), "abrust c");
    assert_eq!(text(without(&chars("aaaa"), "aa")), "");
    assert_eq!(text(without(&chars("aaa"), "aa")), "a");
    assert_eq!(text(without(&chars("abc"), "")), "abc");
    assert_eq!(text(without_fences(&chars("```rust"))), "");
    assert_eq!(text(without_fences(&chars("``````rust x ```python"))), " x python");
    assert_eq!(text(without_fences(&chars("``` ```rust` ``"))), " ` ``");
}

#[test]
fn copying_and_converting() {
    assert_eq!(text(chars_of("héllo")), "héllo");
    assert_eq!(string_of(&chars("wörld")), "wörld");
    assert_eq!(text(copy_range(&chars("abcdef"), 2, 4)), "cd");
    assert_eq!(text(copy_range(&chars("abcdef"), 3, 3)), "");
    let mut v = chars("ab");
    push_all(&mut v, &chars("cd"));
    push_str(&mut v, "ef");
    push_decimal(&mut v, 0);
    push_decimal(&mut v, 907);
    push_decimal(&mut v, u64::MAX);
    assert_eq!(text(v), "abcdef090718446744073709551615");
    assert_eq!(digit(0), '0');
    assert_eq!(digit(9), '9');
    assert!(same_text(&chars("ab"), &chars("ab")));
    assert!(!same_text(&chars("ab"), &chars("abc")));
    assert!(!same_text(&chars("ab"), &chars("ac")));
}

#[test]
fn parts_of_lines() {
    assert_eq!(text(marker_label(&chars("<<<code_snippet 1: Foo>>>"))), "Foo");
    assert_eq!(text(marker_label(&chars("<<<exercise 2:  A: b > c >>>"))), "A: b > c");
    assert_eq!(text(marker_label(&chars("<<<code_snippet>>>"))), "");
    assert_eq!(text(marker_label(&chars("x:"))), "");
    assert_eq!(text(marker_label(&chars("x: >y> "))), ">y>");
    assert_eq!(text(text_after_tag(&chars("# code snippet:  it adds "), "# code snippet:")), "it adds");
    assert_eq!(text(text_after_tag(&chars("# t:# t:# t: x"), "# t:")), "x");
    let mut body = Vec::new();
    add_line(&mut body, &chars("one"));
    assert_eq!(body.iter().collect::<String>(), "one");
    add_line(&mut body, &chars("two"));
    assert_eq!(body.iter().collect::<String>(), "one\ntwo");
}

#[test]
fn places_are_filled_in_one_pass() {
    let bindings =
        vec![Binding::new("a", "1"), Binding::new("b", "{a}"), Binding::new("a", "shadowed")];
    assert_eq!(filled("{a}+{b}={c} {a", &bindings), "1+{a}={c} {a");
    assert_eq!(filled("", &bindings), "");
    assert_eq!(filled("{}{{a}}", &bindings), "{}{1}");
    assert_eq!(filled("}{a}", &bindings), "}1");
    assert_eq!(filled("{a}", &Vec::new()), "{a}");
}

#[test]
fn the_request_for_a_module() {
    let customization = ContentCustomization {
        code_complexity: CodeComplexity::Simple,
        explanation_verbosity: ExplanationVerbosity::Detailed,
        focus_area: FocusArea::Exercises,
        learning_goal: LearningGoal::General,
    };
    let prompt = create_prompt(&topic(), 1, &customization);
    let expected = MODULE_PROMPT
        .replace("{topic}", "Traits")
        .replace("{level_description}", "Absolute Beginner")
        .replace("{source}", "RBE 16")
        .replace("{verbosity_text}", "highly detailed and comprehensive")
        .replace("{complexity_text}", "simple and straightforward")
        .replace(
            "{focus_instruction}",
            "Focus more on providing exercises than on concepts or code examples.",
        );
    assert_eq!(prompt, expected);
    assert!(prompt.contains("a learning module about the topic 'Traits'"));
    assert!(prompt.contains("<<<code_snippet 1: [code snippets title 1]>>>"));
    assert!(!prompt.contains("{topic}"));
    assert_eq!(level_description(10), "Expert");
    assert_eq!(level_description(4), "Intermediate");
    assert_eq!(level_description(0), "Intermediate");
    assert_eq!(level_description(11), "Intermediate");
    assert_eq!(level_description(7), "Early Advanced");
}

#[test]
fn a_module_from_an_answer() {
    let module = parse_response(
        "<<<explanation: t>>>\nText\n<<<code_snippet 1: S>>>\ncode\n".to_string(),
        &topic(),
    );
    assert_eq!(module.topic, "Traits");
    assert_eq!(module.explanation, "Text");
    assert_eq!(module.code_snippets.len(), 1);
    assert_eq!(module.code_snippets[0].title, "S");
    assert_eq!(module.exercises.len(), 1);
    assert_eq!(module.exercises[0].name, "No exercises provided");
    assert_eq!(module.exercises[0].description, "// No exercises provided");
    assert_eq!(module.exercises[0].code, "// No exercises provided");
    assert!(module.additional_resources.is_none());
    let empty = parse_response(String::new(), &topic());
    assert_eq!(empty.explanation, "");
    assert_eq!(empty.code_snippets.len(), 1);
    assert_eq!(empty.code_snippets[0].title, "No code examples provided");
    assert_eq!(empty.code_snippets[0].description, "// No code examples provided");
    assert_eq!(empty.exercises.len(), 1);
}

#[test]
fn the_request_for_a_quiz() {
    let prompt =
        create_questions_prompt("Lifetimes", &LearningGoal::WebDevelopment, QuestionType::Binary, 12);
    let expected = QUESTIONS_PROMPT
        .replace("{topic}", "Lifetimes")
        .replace("{learning_goal}", "Web Development")
        .replace("{question_type}", "Yes/No")
        .replace("{num_questions}", "12");
    assert_eq!(prompt, expected);
    assert!(prompt.contains("generate `12` with `Yes/No` questions"));
    assert!(prompt.contains("<<<question:1>>>"));
}

#[test]
fn the_request_for_an_application() {
    let set = QuestionSet {
        topic: "Enums".to_string(),
        questions: vec![
            Question {
                id: 0,
                text: "Like it?".to_string(),
                question_type: QuestionType::Binary,
                options: Vec::new(),
                selected_answer: Some("Yes".to_string()),
            },
            Question {
                id: 1,
                text: "Which?".to_string(),
                question_type: QuestionType::Multiple,
                options: vec![
                    AnswerOption { id: "1".to_string(), text: "one".to_string() },
                    AnswerOption { id: "2".to_string(), text: "two".to_string() },
                ],
                selected_answer: Some("2".to_string()),
            },
            Question {
                id: 2,
                text: "Unknown?".to_string(),
                question_type: QuestionType::Multiple,
                options: vec![AnswerOption { id: "1".to_string(), text: "one".to_string() }],
                selected_answer: Some("x".to_string()),
            },
            Question {
                id: 3,
                text: "Open?".to_string(),
                question_type: QuestionType::Binary,
                options: Vec::new(),
                selected_answer: None,
            },
        ],
        current_question_index: 0,
    };
    let expected = format!(
        "You are RustMentor, an AI assistant specialized in teaching Rust programming.\n\nBased on the following questions and answers about Enums, I need you to generate a Rust application that demonstrates the concepts covered.\n\nQuestion: Like it?\nAnswer: Yes\n\nQuestion: Which?\nAnswer: 2 (two)\n\nQuestion: Unknown?\nAnswer: x\n\nQuestion: Open?\n{}",
        APPLICATION_PROMPT_TAIL
    );
    assert_eq!(create_application_prompt(&set), expected);
}
