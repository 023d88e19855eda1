use rust_mentor::prompt_response::CodeSnippet;
use rust_mentor::question_generator::{
    parse_application_response, parse_questions_response, AnswerOption, GeneratedApplication,
    Question, QuestionType,
};
use rust_mentor::quiz_round_trip::questions_to_grammar_text;

fn application() -> GeneratedApplication {
    GeneratedApplication {
        name: "Word Count".to_string(),
        description: "Counts words.\nFast.".to_string(),
        features: vec!["reads files".to_string(), String::new(), "prints a table".to_string()],
        code_snippets: vec![
            CodeSnippet {
                title: "Main Code".to_string(),
                description: String::new(),
                code: "fn main() {\n    run();\n}".to_string(),
            },
            CodeSnippet {
                title: "counting: the core".to_string(),
                description: String::new(),
                code: "pub fn run() {}".to_string(),
            },
        ],
    }
}

fn questions() -> Vec<Question> {
    vec![
        Question {
            id: 0,
            text: "Is <T> a type?".to_string(),
            question_type: QuestionType::Binary,
            options: Vec::new(),
            selected_answer: None,
        },
        Question {
            id: 1,
            text: "Which one?".to_string(),
            question_type: QuestionType::Multiple,
            options: vec![
                AnswerOption { id: "a".to_string(), text: "the [very] first".to_string() },
                AnswerOption { id: "B".to_string(), text: "the second".to_string() },
                AnswerOption { id: "3".to_string(), text: "(the) third".to_string() },
            ],
            selected_answer: None,
        },
        Question {
            id: 2,
            text: "No options at all?".to_string(),
            question_type: QuestionType::Multiple,
            options: Vec::new(),
            selected_answer: None,
        },
    ]
}

#[test]
fn an_application_is_written_in_the_grammar() {
    assert_eq!(
        application().to_grammar_text(),
        "<<<application_name>>>\nWord Count\n<<<end>>>\n<<<application_description>>>\nCounts words.\nFast.\n<<<end>>>\n<<<application_features>>>\n- reads files\n- \n- prints a table\n<<<end>>>\n<<<code_snippet: Main Code>>>\nfn main() {\n    run();\n}\n<<<end>>>\n<<<code_snippet: counting: the core>>>\npub fn run() {}\n<<<end>>>\n"
    );
    let bare = GeneratedApplication {
        name: String::new(),
        description: String::new(),
        features: Vec::new(),
        code_snippets: Vec::new(),
    };
    assert_eq!(
        bare.to_grammar_text(),
        "<<<application_name>>>\n<<<end>>>\n<<<application_description>>>\n<<<end>>>\n<<<application_features>>>\n<<<end>>>\n"
    );
}

#[test]
fn an_application_that_is_written_is_read_back() {
    let written = application();
    let back = parse_application_response(written.to_grammar_text(), "some topic");
    assert_eq!(back.name, written.name);
    assert_eq!(back.description, written.description);
    assert_eq!(back.features, written.features);
    assert_eq!(back.code_snippets.len(), written.code_snippets.len());
    for (x, y) in back.code_snippets.iter().zip(written.code_snippets.iter()) {
        assert_eq!(x.title, y.title);
        assert_eq!(x.description, y.description);
        assert_eq!(x.code, y.code);
    }
}

#[test]
fn an_application_without_a_name_is_not_read_back() {
    let mut written = application();
    written.name = String::new();
    let back = parse_application_response(written.to_grammar_text(), "Sets");
    assert_eq!(back.name, "Rust Sets Application");
}

#[test]
fn questions_are_written_in_the_grammar() {
    assert_eq!(
        questions_to_grammar_text(&questions()),
        "<<<question:1>>>\nIs <T> a type?\n[TYPE: binary]\n<<<end>>>\n<<<question:2>>>\nWhich one?\n[TYPE: multiple]\n[OPTIONS\n(a) the [very] first\n(B) the second\n(3) (the) third\n]\n<<<end>>>\n<<<question:3>>>\nNo options at all?\n[TYPE: multiple]\n[OPTIONS\n]\n<<<end>>>\n"
    );
    assert_eq!(questions_to_grammar_text(&Vec::new()), "");
}

#[test]
fn questions_that_are_written_are_read_back() {
    let written = questions();
    let back = parse_questions_response(questions_to_grammar_text(&written))
        .expect("the text holds questions");
    assert_eq!(back.len(), written.len());
    for (x, y) in back.iter().zip(written.iter()) {
        assert_eq!(x.id, y.id);
        assert_eq!(x.text, y.text);
        assert_eq!(x.question_type, y.question_type);
        assert!(x.selected_answer.is_none());
        assert_eq!(x.options.len(), y.options.len());
        for (o, p) in x.options.iter().zip(y.options.iter()) {
            assert_eq!(o.id, p.id);
            assert_eq!(o.text, p.text);
        }
    }
}

#[test]
fn an_option_with_a_long_label_is_not_read_back() {
    let mut written = questions();
    written[1].options[0].id = "ab".to_string();
    let back = parse_questions_response(questions_to_grammar_text(&written))
        .expect("the text holds questions");
    assert_eq!(back[1].options.len(), 2);
    assert_eq!(back[1].options[0].id, "B");
}
