use rust_mentor::app::{App, AppState, Effect, Key};
use rust_mentor::config::Config;
use rust_mentor::question_generator::{
    lower_code_of, GeneratedApplication, Question, QuestionSet, QuestionType,
};
use rust_mentor::round_trip::{push_body, push_line};

fn quiz() -> QuestionSet {
    QuestionSet::new(
        "t".to_string(),
        vec![
            Question {
                id: 0,
                text: "first".to_string(),
                question_type: QuestionType::Binary,
                options: Vec::new(),
                selected_answer: None,
            },
            Question {
                id: 1,
                text: "second".to_string(),
                question_type: QuestionType::Binary,
                options: Vec::new(),
                selected_answer: None,
            },
        ],
    )
}

#[test]
fn keys_on_the_quiz() {
    let mut app = App::new("k".to_string(), Config::default());
    assert!(matches!(app.handle_question_answering_keys(Key::Char('y')), Effect::Nothing));
    assert!(app.question_set.is_none());

    app.current_state = AppState::QuestionAnswering;
    app.question_set = Some(quiz());
    app.handle_question_answering_keys(Key::Char('y'));
    app.handle_question_answering_keys(Key::Right);
    app.handle_question_answering_keys(Key::Right);
    app.handle_question_answering_keys(Key::Tab);
    let set = app.question_set.as_ref().expect("the quiz");
    assert_eq!(set.current_question_index, 1);
    assert_eq!(set.questions[0].selected_answer.as_deref(), Some("Yes"));
    assert!(matches!(app.handle_question_answering_keys(Key::Enter), Effect::Nothing));
    app.handle_question_answering_keys(Key::Char('N'));
    match app.handle_question_answering_keys(Key::Enter) {
        Effect::Submit { prompt, .. } => {
            assert!(prompt.contains("Question: first\nAnswer: Yes\n\nQuestion: second\nAnswer: No\n\n"))
        }
        other => panic!("expected a request, got {:?}", other),
    }
    assert_eq!(app.current_state, AppState::ApplicationGeneration);
}

#[test]
fn keys_on_the_generated_application() {
    let mut app = App::new("k".to_string(), Config::default());
    app.current_state = AppState::ApplicationDisplay;
    assert!(matches!(app.handle_application_display_keys(Key::Enter), Effect::Nothing));
    app.generated_application = Some(GeneratedApplication {
        name: "n".to_string(),
        description: String::new(),
        features: Vec::new(),
        code_snippets: Vec::new(),
    });
    assert!(matches!(app.handle_application_display_keys(Key::Down), Effect::Nothing));
    assert!(matches!(
        app.handle_application_display_keys(Key::Enter),
        Effect::CreateApplicationProject
    ));
    assert_eq!(app.current_state, AppState::ApplicationDisplay);
    assert!(matches!(app.handle_application_display_keys(Key::Esc), Effect::Nothing));
    assert_eq!(app.current_state, AppState::Learning);
}

#[test]
fn further_reading_by_the_learners_settings() {
    let mut app = App::new("k".to_string(), Config::default());
    let all = app.generate_additional_resources("Pattern matching").expect("further reading");
    assert_eq!(all.official_docs.len(), 5);
    assert_eq!(all.crates_io.len(), 3);
    app.config_service.toggle_crates_io();
    let fewer = app.generate_additional_resources("Pattern matching").expect("further reading");
    assert_eq!(fewer.crates_io.len(), 0);
    assert_eq!(fewer.github_repos.len(), 3);
}

#[test]
fn ascii_letters_compare_without_regard_to_case() {
    assert_eq!(lower_code_of('A'), 'a' as u32);
    assert_eq!(lower_code_of('Z'), 'z' as u32);
    assert_eq!(lower_code_of('a'), 'a' as u32);
    assert_eq!(lower_code_of('1'), '1' as u32);
    assert_eq!(lower_code_of('Ä'), 'Ä' as u32);
    assert_eq!(lower_code_of('['), '[' as u32);
    assert_eq!(lower_code_of('@'), '@' as u32);
}

#[test]
fn lines_and_bodies_are_closed_by_a_line_feed() {
    let mut out: Vec<char> = Vec::new();
    push_line(&mut out, "one");
    push_line(&mut out, "");
    push_body(&mut out, "");
    push_body(&mut out, "two\nthree");
    assert_eq!(out.iter().collect::<String>(), "one\n\ntwo\nthree\n");
}
