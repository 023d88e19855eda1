use rust_mentor::question_generator::{
    answer_option_of, has_suffix, kind_of_field, option_of_line, parse_questions_response,
    ParseError, Question, QuestionType,
};

fn parse(text: &str) -> Vec<Question> {
    parse_questions_response(text.to_string()).expect("the text holds questions")
}

fn chars(text: &str) -> Vec<char> {
    text.chars().collect()
}

#[test]
fn one_binary_and_one_multiple_question() {
    let text = "<<<question:1>>>\nDo you like traits?\n[TYPE: binary]\n[YESNO\n(Y) Yes\n(N) No]\n<<<end>>>\n\n<<<question:2>>>\nWhich one\nwould you build?\n[TYPE: multiple]\n[OPTIONS\n(1) A parser\n(2) A server\n(3) A game\n(4) A shell]\n<<<end>>>\n";
    let questions = parse(text);
    assert_eq!(questions.len(), 2);
    assert_eq!(questions[0].id, 0);
    assert_eq!(questions[0].text, "Do you like traits?");
    assert_eq!(questions[0].question_type, QuestionType::Binary);
    assert_eq!(questions[0].options.len(), 0);
    assert!(questions[0].selected_answer.is_none());
    assert_eq!(questions[1].id, 1);
    assert_eq!(questions[1].text, "Which one would you build?");
    assert_eq!(questions[1].question_type, QuestionType::Multiple);
    assert_eq!(questions[1].options.len(), 4);
    assert_eq!(questions[1].options[0].id, "1");
    assert_eq!(questions[1].options[0].text, "A parser");
    assert_eq!(questions[1].options[3].id, "4");
    assert_eq!(questions[1].options[3].text, "A shell");
    assert!(questions[1].selected_answer.is_none());
}

#[test]
fn closing_bracket_on_its_own_line_ends_the_options() {
    let text = "<<<question:1>>>\nPick\n[TYPE: multiple]\n[OPTIONS\n(a) First\n(b) Second\n(c) Third\n(d) Fourth\n]\n(e) Not an option any more\n<<<end>>>\n";
    let questions = parse(text);
    assert_eq!(questions.len(), 1);
    assert_eq!(questions[0].options.len(), 4);
    assert_eq!(questions[0].options[1].id, "b");
    assert_eq!(questions[0].options[1].text, "Second");
    assert_eq!(questions[0].text, "Pick (e) Not an option any more");
}

#[test]
fn a_text_without_questions_has_no_reading() {
    assert_eq!(
        parse_questions_response("nothing here\n<<<end>>>\n".to_string()).err(),
        Some(ParseError::NoRecordsFound)
    );
    assert_eq!(parse_questions_response(String::new()).err(), Some(ParseError::NoRecordsFound));
    assert_eq!(
        parse_questions_response("<<<question:1>>>\n<<<end>>>\n".to_string()).err(),
        Some(ParseError::NoRecordsFound)
    );
    assert_eq!(ParseError::NoRecordsFound.message(), "No valid questions found in response");
}

#[test]
fn a_question_without_end_marker_is_closed_at_the_end_of_the_text() {
    let questions = parse("<<<question:1>>>\nStill open");
    assert_eq!(questions.len(), 1);
    assert_eq!(questions[0].text, "Still open");
    assert_eq!(questions[0].question_type, QuestionType::Binary);
}

#[test]
fn a_new_question_closes_the_one_before() {
    let questions = parse("<<<question:1>>>\nFirst\n<<<question:2>>>\nSecond\n<<<end>>>\n");
    assert_eq!(questions.len(), 2);
    assert_eq!(questions[0].text, "First");
    assert_eq!(questions[1].text, "Second");
    assert_eq!(questions[1].id, 1);
}

#[test]
fn lines_outside_a_question_and_unknown_fields_are_dropped() {
    let questions =
        parse("preamble\n<<<question:1>>>\n[NOTE: skip me]\n  What now?  \n\n```\n<<<end>>>\ntrailer\n");
    assert_eq!(questions.len(), 1);
    assert_eq!(questions[0].text, "What now?");
}

#[test]
fn options_of_a_binary_question_are_not_kept() {
    let questions = parse("<<<question:1>>>\nYes or no?\n[OPTIONS\n(1) One\n(2) Two\n]\n<<<end>>>\n");
    assert_eq!(questions[0].question_type, QuestionType::Binary);
    assert_eq!(questions[0].options.len(), 0);
}

#[test]
fn the_kind_is_read_without_regard_to_ascii_case() {
    assert_eq!(kind_of_field(&chars("[TYPE: MULTIPLE]")), QuestionType::Multiple);
    assert_eq!(kind_of_field(&chars("[TYPE: Multiple choice]")), QuestionType::Multiple);
    assert_eq!(kind_of_field(&chars("[TYPE: binary]")), QuestionType::Binary);
    assert_eq!(kind_of_field(&chars("[TYPE: mult]iple]")), QuestionType::Multiple);
    assert_eq!(kind_of_field(&chars("[TYPE: ]")), QuestionType::Binary);
}

#[test]
fn an_option_line_gives_label_and_text() {
    let option = option_of_line(&chars("(1) Option 1")).expect("an option");
    assert_eq!(option.id, "1");
    assert_eq!(option.text, "Option 1");
    let option = option_of_line(&chars("(b)   spaced   text  ")).expect("an option");
    assert_eq!(option.id, "b");
    assert_eq!(option.text, "spaced   text");
    assert!(option_of_line(&chars("(ab) two letters")).is_none());
    assert!(option_of_line(&chars("(1)no space")).is_none());
    assert!(option_of_line(&chars("(1) ")).is_none());
    assert!(option_of_line(&chars("1) no opening")).is_none());
    assert!(option_of_line(&chars("(-) not a label")).is_none());
}

#[test]
fn capture_groups_become_an_option() {
    let groups = Some(vec![
        Some("(1) x".to_string()),
        Some(" 1 ".to_string()),
        Some("  x  ".to_string()),
    ]);
    let option = answer_option_of(&groups).expect("an option");
    assert_eq!(option.id, "1");
    assert_eq!(option.text, "x");
    assert!(answer_option_of(&None).is_none());
    assert!(answer_option_of(&Some(vec![Some("a".to_string()), Some("b".to_string())])).is_none());
    assert!(
        answer_option_of(&Some(vec![Some("a".to_string()), None, Some("b".to_string())])).is_none()
    );
    assert!(answer_option_of(&Some(vec![
        Some("a".to_string()),
        Some(" ".to_string()),
        Some("b".to_string())
    ]))
    .is_none());
}

#[test]
fn suffix_test() {
    assert!(has_suffix(&chars("abc>>>"), ">>>"));
    assert!(!has_suffix(&chars(">>"), ">>>"));
    assert!(has_suffix(&chars("x"), ""));
}

#[test]
fn reading_questions_twice_gives_equal_records() {
    let text = "<<<question:1>>>\nQ\n[TYPE: multiple]\n[OPTIONS\n(1) a\n(2) b]\n<<<end>>>\n";
    let first = parse(text);
    let second = parse(text);
    assert_eq!(first.len(), second.len());
    assert_eq!(first[0].text, second[0].text);
    assert_eq!(first[0].options.len(), second[0].options.len());
    assert_eq!(first[0].options[1].text, second[0].options[1].text);
}

#[test]
fn questions_written_in_the_grammar_are_read_back() {
    let text = "<<<question:1>>>\nIs <T> a type?\n[TYPE: binary]\n<<<end>>>\n<<<question:2>>>\nWhich one?\n[TYPE: multiple]\n[OPTIONS\n(a) the [very] first\n(B) the second\n]\n<<<end>>>\n<<<question:3>>>\nNo options at all?\n[TYPE: multiple]\n[OPTIONS\n]\n<<<end>>>\n";
    let questions = parse(text);
    assert_eq!(questions.len(), 3);
    assert_eq!(questions[0].id, 0);
    assert_eq!(questions[0].text, "Is <T> a type?");
    assert_eq!(questions[0].question_type, QuestionType::Binary);
    assert_eq!(questions[0].options.len(), 0);
    assert_eq!(questions[1].id, 1);
    assert_eq!(questions[1].text, "Which one?");
    assert_eq!(questions[1].question_type, QuestionType::Multiple);
    assert_eq!(questions[1].options.len(), 2);
    assert_eq!(questions[1].options[0].id, "a");
    assert_eq!(questions[1].options[0].text, "the [very] first");
    assert_eq!(questions[1].options[1].id, "B");
    assert_eq!(questions[1].options[1].text, "the second");
    assert_eq!(questions[2].id, 2);
    assert_eq!(questions[2].question_type, QuestionType::Multiple);
    assert_eq!(questions[2].options.len(), 0);
    assert!(questions.iter().all(|q| q.selected_answer.is_none()));
}

#[test]
fn an_option_that_ends_with_the_closing_bracket_ends_the_options() {
    let text = "<<<question:1>>>\nWhich?\n[TYPE: multiple]\n[OPTIONS\n(a) first [of all]\n(b) second\n<<<end>>>\n";
    let questions = parse(text);
    assert_eq!(questions[0].options.len(), 1);
    assert_eq!(questions[0].options[0].text, "first [of all");
    assert_eq!(questions[0].text, "Which? (b) second");
}
