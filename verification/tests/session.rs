use rust_mentor::app::{
    App, AppState, Delivery, Effect, Grammar, IndexType, Key, Outcome, SettingsSection,
};
use rust_mentor::config::{CodeComplexity, Config};
use rust_mentor::data::Topic;
use rust_mentor::learning_goal::LearningGoal;
use rust_mentor::question_generator::QuestionType;

fn session() -> App {
    App::new("key".to_string(), Config::default())
}

fn topic() -> Topic {
    Topic { topic: "Ownership basics".to_string(), source: "The Book Ch 4.1".to_string(), min_level: 1 }
}

fn submitted(effect: Effect, grammar: Grammar) -> (u64, String) {
    match effect {
        Effect::Submit { request, grammar: g, prompt } => {
            assert_eq!(g, grammar);
            (request, prompt)
        }
        other => panic!("expected a request, got {:?}", other),
    }
}

/// A session that awaits a module, with the number of the request.
fn loading() -> (App, u64) {
    let mut app = session();
    app.current_state = AppState::Learning;
    let effect = app.handle_key_event(Key::Char('n'), 0);
    assert!(matches!(effect, Effect::SupplyTopic { level: 5, index: IndexType::Random }));
    assert_eq!(app.current_state, AppState::Loading);
    assert!(app.pending_request.is_none());
    let (request, prompt) = submitted(app.topic_supplied(Ok(topic())), Grammar::Tutoring);
    assert!(prompt.contains("'Ownership basics'"));
    assert!(prompt.contains("'Solid Intermediate'"));
    assert!(prompt.contains("Source of this topic: The Book Ch 4.1"));
    assert_eq!(app.pending_request, Some(request));
    (app, request)
}

const QUIZ: &str = "<<<question:1>>>\nDo you like traits?\n[TYPE: binary]\n<<<end>>>\n<<<question:2>>>\nWhich?\n[TYPE: multiple]\n[OPTIONS\n(1) a\n(2) b\n(3) c\n(4) d]\n<<<end>>>\n";

/// A session on the quiz, with two questions.
fn answering() -> App {
    let mut app = session();
    app.handle_key_event(Key::Enter, 0);
    app.handle_key_event(Key::Down, 0);
    let (request, _) = submitted(app.handle_key_event(Key::Enter, 0), Grammar::QuestionSet);
    let effect =
        app.tick(1, Some(Delivery { request, outcome: Outcome::Arrived(QUIZ.to_string()) }));
    assert!(matches!(effect, Effect::Nothing));
    assert_eq!(app.current_state, AppState::QuestionAnswering);
    app
}

#[test]
fn a_new_session_shows_the_welcome_screen() {
    let app = session();
    assert!(app.is_running);
    assert_eq!(app.current_state, AppState::Welcome);
    assert_eq!(app.selected_level, 5);
    assert_eq!(app.selected_index, IndexType::Random);
    assert_eq!(app.api_key, "key");
    assert!(app.current_module.is_none());
    assert!(app.pending_request.is_none());
    assert_eq!(app.get_learning_goal(), LearningGoal::General);
    assert!(app.get_learning_resources().show_crates_io);
    assert_eq!(app.get_content_customization().code_complexity, CodeComplexity::Moderate);
    assert_eq!(app.get_question_generator_settings().num_questions, 5);
}

#[test]
fn a_closed_channel_while_loading_shows_a_communication_error() {
    let (mut app, request) = loading();
    let effect = app.tick(1, Some(Delivery { request, outcome: Outcome::Closed }));
    assert!(matches!(effect, Effect::Nothing));
    assert_eq!(app.current_state, AppState::Learning);
    assert!(app.pending_request.is_none());
    let module = app.current_module.expect("a module that reports the error");
    assert_eq!(module.topic, "Communication Error");
    assert!(!module.explanation.is_empty());
    assert!(module
        .explanation
        .contains("There was an error communicating with the content generation service."));
    assert_eq!(
        module.explanation,
        "There was an error communicating with the content generation service.\n\nPlease try again or select a different level."
    );
    assert_eq!(module.code_snippets.len(), 1);
    assert_eq!(module.exercises.len(), 1);
}

#[test]
fn a_failed_module_request_shows_the_error() {
    let (mut app, request) = loading();
    app.tick(1, Some(Delivery { request, outcome: Outcome::Failed("quota".to_string()) }));
    assert_eq!(app.current_state, AppState::Learning);
    let module = app.current_module.expect("a module that reports the error");
    assert_eq!(module.topic, "Error Generating Content");
    assert_eq!(
        module.explanation,
        "There was an error generating content: quota\n\nPlease try again or select a different level."
    );
    assert!(module.additional_resources.is_none());
}

#[test]
fn a_module_that_arrives_is_read_and_shown() {
    let (mut app, request) = loading();
    app.scroll_offset = 7;
    let text = "<<<explanation: X>>>\nHello\n<<<exercise 1: Ex>>>\n# exercise description: d\nfn main(){}\n";
    let effect =
        app.tick(1, Some(Delivery { request, outcome: Outcome::Arrived(text.to_string()) }));
    assert!(matches!(effect, Effect::CreateModuleProject));
    assert_eq!(app.current_state, AppState::Learning);
    assert_eq!(app.scroll_offset, 0);
    assert!(app.pending_request.is_none());
    assert!(app.pending_topic.is_none());
    let module = app.current_module.expect("the module");
    assert_eq!(module.topic, "Ownership basics");
    assert_eq!(module.explanation, "Hello");
    assert_eq!(module.code_snippets.len(), 1);
    assert_eq!(module.code_snippets[0].title, "No code examples provided");
    assert_eq!(module.code_snippets[0].code, "// No code examples provided");
    assert_eq!(module.exercises.len(), 1);
    assert_eq!(module.exercises[0].name, "Ex");
    let resources = module.additional_resources.expect("further reading");
    assert_eq!(resources.official_docs.len(), 5);
    assert_eq!(resources.github_repos.len(), 3);
}

#[test]
fn nothing_drained_changes_nothing() {
    let (mut app, request) = loading();
    assert!(matches!(app.tick(1, None), Effect::Nothing));
    assert_eq!(app.current_state, AppState::Loading);
    assert_eq!(app.pending_request, Some(request));
}

#[test]
fn a_late_answer_to_a_request_that_was_given_up_is_dropped() {
    let (mut app, first) = loading();
    app.handle_key_event(Key::Char('s'), 0);
    assert_eq!(app.current_state, AppState::Settings);
    assert!(app.pending_request.is_none());
    app.tick(1, Some(Delivery { request: first, outcome: Outcome::Failed("late".to_string()) }));
    assert_eq!(app.current_state, AppState::Settings);
    assert!(app.current_module.is_none());

    app.current_state = AppState::Learning;
    app.handle_key_event(Key::Char('n'), 0);
    let (second, _) = submitted(app.topic_supplied(Ok(topic())), Grammar::Tutoring);
    assert_ne!(first, second);
    app.tick(2, Some(Delivery { request: first, outcome: Outcome::Failed("late".to_string()) }));
    assert_eq!(app.current_state, AppState::Loading);
    assert_eq!(app.pending_request, Some(second));
    assert!(app.current_module.is_none());
}

#[test]
fn a_topic_counts_only_while_a_module_is_awaited() {
    let mut app = session();
    assert!(matches!(app.topic_supplied(Ok(topic())), Effect::Nothing));
    assert_eq!(app.current_state, AppState::Welcome);
    assert!(app.pending_request.is_none());
    let (mut app, request) = loading();
    assert!(matches!(app.topic_supplied(Ok(topic())), Effect::Nothing));
    assert_eq!(app.pending_request, Some(request));
}

#[test]
fn without_a_topic_the_learner_is_told_so() {
    let mut app = session();
    app.current_state = AppState::Learning;
    app.selected_level = 10;
    app.handle_key_event(Key::Char('n'), 0);
    let effect = app.topic_supplied(Err("no file".to_string()));
    assert!(matches!(effect, Effect::Nothing));
    assert_eq!(app.current_state, AppState::Learning);
    let module = app.current_module.expect("a module that reports the error");
    assert_eq!(module.topic, "Error Loading Topic");
    assert_eq!(
        module.explanation,
        "There was an error loading a topic for level 10. Please try again."
    );
}

#[test]
fn without_a_key_no_request_goes_out() {
    let mut app = App::new(String::new(), Config::default());
    app.current_state = AppState::Learning;
    app.handle_key_event(Key::Char('n'), 0);
    let effect = app.topic_supplied(Ok(topic()));
    assert!(matches!(effect, Effect::Nothing));
    assert_eq!(app.current_state, AppState::Learning);
    assert!(app.pending_request.is_none());
    let module = app.current_module.expect("a module that reports the error");
    assert_eq!(module.topic, "Error Generating Content");
    assert!(module.explanation.contains("OpenRouter API key is not set."));
}

#[test]
fn the_level_moves_between_one_and_ten() {
    let mut app = session();
    for _ in 0..20 {
        app.handle_key_event(Key::Down, 0);
    }
    assert_eq!(app.selected_level, 10);
    for _ in 0..20 {
        app.handle_key_event(Key::Char('k'), 0);
    }
    assert_eq!(app.selected_level, 1);
    app.handle_key_event(Key::Char('j'), 0);
    assert_eq!(app.selected_level, 2);
    app.handle_key_event(Key::Up, 0);
    assert_eq!(app.selected_level, 1);
}

#[test]
fn the_popup_goes_after_three_seconds() {
    let mut app = session();
    app.selected_level = 2;
    app.handle_key_event(Key::Enter, 100);
    assert_eq!(app.current_state, AppState::IndexSelection);
    let effect = app.handle_key_event(Key::Enter, 100);
    assert!(matches!(effect, Effect::Nothing));
    assert_eq!(app.current_state, AppState::LevelTooLowPopup);
    assert_eq!(app.selected_index, IndexType::RustLibrary);
    assert_eq!(app.popup_start_time, Some(100));
    app.tick(102, None);
    assert_eq!(app.current_state, AppState::LevelTooLowPopup);
    app.handle_key_event(Key::Enter, 102);
    assert_eq!(app.current_state, AppState::LevelTooLowPopup);
    app.tick(103, None);
    assert_eq!(app.current_state, AppState::Welcome);
    assert!(app.popup_start_time.is_none());
}

#[test]
fn the_list_of_indexes_has_four_places() {
    let mut app = session();
    app.handle_key_event(Key::Enter, 0);
    app.handle_key_event(Key::Up, 0);
    assert_eq!(app.index_selection_cursor, 0);
    for _ in 0..9 {
        app.handle_key_event(Key::Char('j'), 0);
    }
    assert_eq!(app.index_selection_cursor, 3);
    app.handle_key_event(Key::Char('k'), 0);
    assert_eq!(app.index_selection_cursor, 2);
    let (request, prompt) = submitted(app.handle_key_event(Key::Enter, 0), Grammar::QuestionSet);
    assert_eq!(app.selected_index, IndexType::RustProgrammingLanguage);
    assert_eq!(app.current_state, AppState::QuestionGeneration);
    assert_eq!(app.pending_request, Some(request));
    assert!(prompt.contains("generate `5` with `Multiple Choice` questions"));
    assert!(prompt.contains("about `Rust programming` in the context of `General`"));
    app.handle_key_event(Key::Esc, 0);
    assert_eq!(app.current_state, AppState::QuestionGeneration);
}

#[test]
fn the_library_index_opens_at_level_three() {
    let mut app = session();
    app.selected_level = 3;
    app.handle_key_event(Key::Enter, 0);
    submitted(app.handle_key_event(Key::Enter, 0), Grammar::QuestionSet);
    assert_eq!(app.selected_index, IndexType::RustLibrary);
    assert_eq!(app.current_state, AppState::QuestionGeneration);
}

#[test]
fn a_quiz_that_arrives_is_read_and_shown() {
    let app = answering();
    let set = app.question_set.expect("the quiz");
    assert_eq!(set.topic, "Rust programming");
    assert_eq!(set.questions.len(), 2);
    assert_eq!(set.current_question_index, 0);
    assert_eq!(set.questions[0].question_type, QuestionType::Binary);
    assert_eq!(set.questions[0].options.len(), 0);
    assert_eq!(set.questions[1].options.len(), 4);
}

#[test]
fn a_quiz_without_questions_is_shown_as_an_error() {
    let mut app = session();
    app.current_state = AppState::Learning;
    let (request, _) = submitted(app.handle_key_event(Key::Char('w'), 0), Grammar::QuestionSet);
    app.tick(1, Some(Delivery { request, outcome: Outcome::Arrived("nothing".to_string()) }));
    assert_eq!(app.current_state, AppState::Learning);
    assert!(app.question_set.is_none());
    let module = app.current_module.expect("a module that reports the error");
    assert_eq!(module.topic, "Error Generating Questions");
    assert_eq!(
        module.explanation,
        "There was an error generating questions: No valid questions found in response\n\nPlease try again or select a different level."
    );
}

#[test]
fn a_failed_or_closed_quiz_request_leads_to_the_learning_screen() {
    let mut app = session();
    app.current_state = AppState::Learning;
    let (request, _) = submitted(app.handle_key_event(Key::Char('w'), 0), Grammar::QuestionSet);
    app.tick(1, Some(Delivery { request, outcome: Outcome::Failed("boom".to_string()) }));
    assert_eq!(app.current_state, AppState::Learning);
    assert!(app.current_module.as_ref().expect("module").explanation.contains("boom"));
    let (request, _) = submitted(app.handle_key_event(Key::Char('w'), 0), Grammar::QuestionSet);
    app.tick(2, Some(Delivery { request, outcome: Outcome::Closed }));
    assert_eq!(app.current_state, AppState::Learning);
    assert_eq!(app.current_module.as_ref().expect("module").topic, "Communication Error");
}

#[test]
fn the_application_is_asked_for_only_when_every_question_is_answered() {
    let mut app = answering();
    assert!(matches!(app.handle_key_event(Key::Enter, 0), Effect::Nothing));
    assert_eq!(app.current_state, AppState::QuestionAnswering);
    app.handle_key_event(Key::Char('y'), 0);
    assert!(matches!(app.handle_key_event(Key::Enter, 0), Effect::Nothing));
    app.handle_key_event(Key::Right, 0);
    app.handle_key_event(Key::Char('9'), 0);
    assert!(matches!(app.handle_key_event(Key::Enter, 0), Effect::Nothing));
    app.handle_key_event(Key::Char('3'), 0);
    app.handle_key_event(Key::Char('l'), 0);
    assert_eq!(app.question_set.as_ref().expect("quiz").current_question_index, 1);
    app.handle_key_event(Key::Char('h'), 0);
    assert_eq!(app.question_set.as_ref().expect("quiz").current_question_index, 0);
    app.handle_key_event(Key::Left, 0);
    assert_eq!(app.question_set.as_ref().expect("quiz").current_question_index, 0);
    let (request, prompt) = submitted(app.handle_key_event(Key::Enter, 0), Grammar::Application);
    assert_eq!(app.current_state, AppState::ApplicationGeneration);
    assert_eq!(app.pending_request, Some(request));
    assert!(prompt.contains("Question: Do you like traits?\nAnswer: Yes\n\n"));
    assert!(prompt.contains("Question: Which?\nAnswer: 3 (c)\n\n"));

    let text = "<<<application_name>>>\nTool\n<<<end>>>\n<<<code_snippet:Main>>>\nfn main() {}\n<<<end>>>\n";
    app.tick(5, Some(Delivery { request, outcome: Outcome::Arrived(text.to_string()) }));
    assert_eq!(app.current_state, AppState::ApplicationDisplay);
    let application = app.generated_application.as_ref().expect("the application");
    assert_eq!(application.name, "Tool");
    assert_eq!(application.code_snippets.len(), 1);
    assert!(matches!(app.handle_key_event(Key::Enter, 6), Effect::CreateApplicationProject));
    app.project_created(false);
    assert_eq!(app.current_state, AppState::ApplicationDisplay);
    app.project_created(true);
    assert_eq!(app.current_state, AppState::Learning);
}

#[test]
fn a_failed_application_request_leads_back_to_the_quiz() {
    let mut app = answering();
    app.handle_key_event(Key::Char('n'), 0);
    app.handle_key_event(Key::Right, 0);
    app.handle_key_event(Key::Char('1'), 0);
    let (request, _) = submitted(app.handle_key_event(Key::Enter, 0), Grammar::Application);
    app.tick(1, Some(Delivery { request, outcome: Outcome::Failed("down".to_string()) }));
    assert_eq!(app.current_state, AppState::QuestionAnswering);
    assert!(app.pending_request.is_none());
    let placeholder = app.generated_application.as_ref().expect("a record of the error");
    assert_eq!(placeholder.name, "Error Generating Application");
    assert_eq!(
        placeholder.description,
        "There was an error generating the application: down\n\nPlease try again or select a different level."
    );
    let (request, _) = submitted(app.handle_key_event(Key::Enter, 0), Grammar::Application);
    app.tick(2, Some(Delivery { request, outcome: Outcome::Closed }));
    assert_eq!(app.current_state, AppState::QuestionAnswering);
    assert_eq!(app.generated_application.as_ref().expect("record").name, "Communication Error");
}

#[test]
fn the_quiz_is_discarded_when_the_learner_leaves_it() {
    let mut app = answering();
    app.handle_key_event(Key::Char('y'), 0);
    assert!(app.question_set.is_some());
    app.handle_key_event(Key::Esc, 0);
    assert_eq!(app.current_state, AppState::Learning);
    assert!(app.question_set.is_none());

    let mut app = answering();
    app.handle_key_event(Key::Char('s'), 0);
    assert_eq!(app.current_state, AppState::Settings);
    assert!(app.question_set.is_none());
}

#[test]
fn help_and_the_question_whether_to_quit_take_the_keys() {
    let mut app = session();
    app.handle_key_event(Key::Char('?'), 0);
    assert!(app.show_help);
    app.handle_key_event(Key::Down, 0);
    assert_eq!(app.selected_level, 5);
    app.handle_key_event(Key::Esc, 0);
    assert!(!app.show_help);

    app.handle_key_event(Key::Char('q'), 0);
    assert!(app.show_quit_confirmation);
    app.handle_key_event(Key::Enter, 0);
    assert!(!app.show_quit_confirmation);
    assert!(app.is_running);
    app.handle_key_event(Key::Char('q'), 0);
    app.handle_key_event(Key::Left, 0);
    assert!(app.quit_confirmation_selected);
    app.handle_key_event(Key::Char('l'), 0);
    assert!(!app.quit_confirmation_selected);
    app.handle_key_event(Key::Right, 0);
    app.handle_key_event(Key::Enter, 0);
    assert!(!app.is_running);
}

#[test]
fn the_settings_are_stepped_and_have_to_be_written() {
    let mut app = session();
    app.handle_key_event(Key::Char('s'), 0);
    assert_eq!(app.current_state, AppState::Settings);
    assert_eq!(app.settings_section, SettingsSection::LearningResources);
    assert!(matches!(app.handle_key_event(Key::Right, 0), Effect::SaveConfig));
    assert!(!app.get_learning_resources().show_official_docs);
    for _ in 0..5 {
        app.handle_key_event(Key::Down, 0);
    }
    assert_eq!(app.settings_cursor, 3);
    assert!(matches!(app.handle_key_event(Key::Left, 0), Effect::SaveConfig));
    assert!(!app.get_learning_resources().show_github_repos);
    assert!(matches!(app.handle_key_event(Key::Tab, 0), Effect::Nothing));
    assert_eq!(app.settings_section, SettingsSection::ContentCustomization);
    assert_eq!(app.settings_cursor, 0);
    app.handle_key_event(Key::Char('k'), 0);
    assert_eq!(app.get_content_customization().code_complexity, CodeComplexity::Complex);
    app.handle_key_event(Key::Char('j'), 0);
    app.handle_key_event(Key::Char('j'), 0);
    assert_eq!(app.get_content_customization().code_complexity, CodeComplexity::Simple);
    app.handle_key_event(Key::Tab, 0);
    assert_eq!(app.settings_section, SettingsSection::LearningGoals);
    app.handle_key_event(Key::Right, 0);
    assert_eq!(app.get_learning_goal(), LearningGoal::Graphics);
    app.handle_key_event(Key::Left, 0);
    app.handle_key_event(Key::Left, 0);
    assert_eq!(app.get_learning_goal(), LearningGoal::GPU);
    app.handle_key_event(Key::Tab, 0);
    assert_eq!(app.settings_section, SettingsSection::QuestionGenerator);
    for _ in 0..9 {
        assert!(matches!(app.handle_key_event(Key::Right, 0), Effect::SaveConfig));
    }
    assert_eq!(app.get_question_generator_settings().num_questions, 10);
    for _ in 0..9 {
        app.handle_key_event(Key::Left, 0);
    }
    assert_eq!(app.get_question_generator_settings().num_questions, 3);
    app.handle_key_event(Key::Char('m'), 0);
    app.handle_key_event(Key::Char('m'), 0);
    assert_eq!(app.settings_cursor, 1);
    app.handle_key_event(Key::Right, 0);
    assert_eq!(app.get_question_generator_settings().default_question_type, QuestionType::Binary);
    app.handle_key_event(Key::Char('i'), 0);
    assert_eq!(app.settings_cursor, 0);
    app.handle_key_event(Key::Tab, 0);
    assert_eq!(app.settings_section, SettingsSection::LearningResources);
    assert!(matches!(app.handle_key_event(Key::Esc, 0), Effect::Nothing));
    assert_eq!(app.current_state, AppState::Welcome);
}

#[test]
fn the_learning_screen_scrolls_and_leads_on() {
    let mut app = session();
    app.current_state = AppState::Learning;
    app.handle_key_event(Key::Up, 0);
    assert_eq!(app.scroll_offset, 0);
    app.handle_key_event(Key::Down, 0);
    app.handle_key_event(Key::Char('j'), 0);
    assert_eq!(app.scroll_offset, 2);
    app.handle_key_event(Key::Char('k'), 0);
    assert_eq!(app.scroll_offset, 1);
    app.scroll_offset = u16::MAX;
    app.handle_key_event(Key::Down, 0);
    assert_eq!(app.scroll_offset, u16::MAX);
    app.handle_key_event(Key::Other, 0);
    assert_eq!(app.current_state, AppState::Learning);
    app.handle_key_event(Key::Esc, 0);
    assert_eq!(app.current_state, AppState::Welcome);
}

#[test]
fn request_numbers_follow_one_another() {
    let mut app = session();
    app.next_request = u64::MAX;
    let (first, _) = submitted(app.generate_questions(), Grammar::QuestionSet);
    let (second, _) = submitted(app.generate_questions(), Grammar::QuestionSet);
    assert_eq!(first, u64::MAX);
    assert_eq!(second, 0);
    assert_eq!(app.pending_request, Some(0));
    assert!(matches!(app.generate_application(), Effect::Nothing));
    assert!(matches!(app.generate_learning_module(), Effect::SupplyTopic { .. }));
    assert!(app.pending_request.is_none());
}
