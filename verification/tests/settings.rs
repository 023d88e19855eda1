use rust_mentor::config::{
    CodeComplexity, Config, ConfigService, ContentCustomization, ExplanationVerbosity, FocusArea,
    LearningResources, QuestionGeneratorSettings, MAX_QUESTIONS, MIN_QUESTIONS,
};
use rust_mentor::learning_goal::{LearningGoal, GOAL_COUNT};
use rust_mentor::question_generator::QuestionType;

fn service() -> ConfigService {
    ConfigService::new(Config::default())
}

#[test]
fn default_settings() {
    let config = Config::default();
    assert_eq!(config.model, "google/gemma-3n-e4b-it:free");
    assert!(config.learning_resources.show_official_docs);
    assert!(config.learning_resources.show_community_resources);
    assert!(config.learning_resources.show_crates_io);
    assert!(config.learning_resources.show_github_repos);
    assert_eq!(config.content_customization.code_complexity, CodeComplexity::Moderate);
    assert_eq!(config.content_customization.explanation_verbosity, ExplanationVerbosity::Moderate);
    assert_eq!(config.content_customization.focus_area, FocusArea::Balanced);
    assert_eq!(config.content_customization.learning_goal, LearningGoal::General);
    assert_eq!(config.question_generator_settings.num_questions, 5);
    assert_eq!(config.question_generator_settings.default_question_type, QuestionType::Multiple);
    assert!(config.question_generator_settings.enable_application_generation);
}

#[test]
fn toggles_flip_one_setting_each() {
    let mut s = service();
    s.toggle_official_docs();
    assert_eq!(
        *s.get_learning_resources(),
        LearningResources {
            show_official_docs: false,
            show_community_resources: true,
            show_crates_io: true,
            show_github_repos: true
        }
    );
    s.toggle_community_resources();
    s.toggle_crates_io();
    s.toggle_github_repos();
    s.toggle_official_docs();
    assert_eq!(
        *s.get_learning_resources(),
        LearningResources {
            show_official_docs: true,
            show_community_resources: false,
            show_crates_io: false,
            show_github_repos: false
        }
    );
    s.toggle_application_generation();
    assert!(!s.get_question_generator_settings().enable_application_generation);
    assert_eq!(s.get_config().model, "google/gemma-3n-e4b-it:free");
}

#[test]
fn updates_replace_what_they_name() {
    let mut s = service();
    s.update_model("other/model".to_string());
    assert_eq!(s.get_config().model, "other/model");
    s.update_learning_resources(LearningResources {
        show_official_docs: false,
        show_community_resources: true,
        show_crates_io: false,
        show_github_repos: true,
    });
    assert!(!s.get_learning_resources().show_crates_io);
    s.update_content_customization(ContentCustomization {
        code_complexity: CodeComplexity::Simple,
        explanation_verbosity: ExplanationVerbosity::Detailed,
        focus_area: FocusArea::Exercises,
        learning_goal: LearningGoal::TUI,
    });
    assert_eq!(s.get_content_customization().learning_goal, LearningGoal::TUI);
    s.update_code_complexity(CodeComplexity::Complex);
    s.update_explanation_verbosity(ExplanationVerbosity::Concise);
    s.update_focus_area(FocusArea::Concepts);
    assert_eq!(
        *s.get_content_customization(),
        ContentCustomization {
            code_complexity: CodeComplexity::Complex,
            explanation_verbosity: ExplanationVerbosity::Concise,
            focus_area: FocusArea::Concepts,
            learning_goal: LearningGoal::TUI,
        }
    );
    s.update_question_generator_settings(QuestionGeneratorSettings {
        num_questions: 7,
        default_question_type: QuestionType::Binary,
        enable_application_generation: false,
    });
    s.update_num_questions(42);
    s.update_default_question_type(QuestionType::Multiple);
    assert_eq!(
        *s.get_question_generator_settings(),
        QuestionGeneratorSettings {
            num_questions: 42,
            default_question_type: QuestionType::Multiple,
            enable_application_generation: false,
        }
    );
}

#[test]
fn the_number_of_questions_steps_between_its_bounds() {
    let mut s = service();
    for _ in 0..20 {
        s.increment_num_questions();
    }
    assert_eq!(s.get_question_generator_settings().num_questions, MAX_QUESTIONS);
    assert_eq!(MAX_QUESTIONS, 10);
    for _ in 0..20 {
        s.decrement_num_questions();
    }
    assert_eq!(s.get_question_generator_settings().num_questions, MIN_QUESTIONS);
    assert_eq!(MIN_QUESTIONS, 3);
    s.update_num_questions(1);
    s.decrement_num_questions();
    assert_eq!(s.get_question_generator_settings().num_questions, 1);
    s.increment_num_questions();
    assert_eq!(s.get_question_generator_settings().num_questions, 2);
    s.update_num_questions(50);
    s.increment_num_questions();
    assert_eq!(s.get_question_generator_settings().num_questions, 50);
    s.decrement_num_questions();
    assert_eq!(s.get_question_generator_settings().num_questions, 49);
}

#[test]
fn cycles_go_round() {
    let mut s = service();
    s.cycle_code_complexity();
    assert_eq!(s.get_content_customization().code_complexity, CodeComplexity::Complex);
    s.cycle_code_complexity();
    assert_eq!(s.get_content_customization().code_complexity, CodeComplexity::Simple);
    s.cycle_code_complexity_reverse();
    assert_eq!(s.get_content_customization().code_complexity, CodeComplexity::Complex);
    s.cycle_explanation_verbosity();
    assert_eq!(s.get_content_customization().explanation_verbosity, ExplanationVerbosity::Detailed);
    s.cycle_explanation_verbosity();
    assert_eq!(s.get_content_customization().explanation_verbosity, ExplanationVerbosity::Concise);
    s.cycle_explanation_verbosity_reverse();
    assert_eq!(s.get_content_customization().explanation_verbosity, ExplanationVerbosity::Detailed);
    s.cycle_focus_area();
    assert_eq!(s.get_content_customization().focus_area, FocusArea::Concepts);
    s.cycle_focus_area();
    assert_eq!(s.get_content_customization().focus_area, FocusArea::CodeExamples);
    s.cycle_focus_area_reverse();
    s.cycle_focus_area_reverse();
    assert_eq!(s.get_content_customization().focus_area, FocusArea::Balanced);
    s.cycle_question_type();
    assert_eq!(s.get_question_generator_settings().default_question_type, QuestionType::Binary);
    s.cycle_question_type();
    assert_eq!(s.get_question_generator_settings().default_question_type, QuestionType::Multiple);
    assert_eq!(FocusArea::Exercises.next(), FocusArea::Balanced);
    assert_eq!(FocusArea::Exercises.previous(), FocusArea::CodeExamples);
    assert_eq!(CodeComplexity::Moderate.previous(), CodeComplexity::Simple);
    assert_eq!(ExplanationVerbosity::Moderate.previous(), ExplanationVerbosity::Concise);
}

#[test]
fn the_learning_goals_form_one_cycle() {
    let mut s = service();
    s.cycle_learning_goal();
    assert_eq!(s.get_content_customization().learning_goal, LearningGoal::Graphics);
    s.cycle_learning_goal_reverse();
    s.cycle_learning_goal_reverse();
    assert_eq!(s.get_content_customization().learning_goal, LearningGoal::GPU);

    assert_eq!(GOAL_COUNT, 44);
    assert_eq!(LearningGoal::ARVR.index(), 0);
    assert_eq!(LearningGoal::WebDevelopment.index(), 43);
    assert_eq!(LearningGoal::WebDevelopment.next(), LearningGoal::ARVR);
    assert_eq!(LearningGoal::ARVR.previous(), LearningGoal::WebDevelopment);
    assert_eq!(LearningGoal::ARVR.next(), LearningGoal::AsyncProgramming);
    assert_eq!(LearningGoal::Cybersecurity.next(), LearningGoal::DICOM);
    assert_eq!(LearningGoal::DICOM.next(), LearningGoal::DataScience);
    assert_eq!(LearningGoal::from_index(21), LearningGoal::General);
    assert_eq!(LearningGoal::from_index(200), LearningGoal::WebDevelopment);
    let mut goal = LearningGoal::General;
    let mut seen = Vec::new();
    for _ in 0..44 {
        assert!(!seen.contains(&goal));
        seen.push(goal);
        assert_eq!(goal.next().previous(), goal);
        assert_eq!(LearningGoal::from_index(goal.index()), goal);
        goal = goal.next();
    }
    assert_eq!(goal, LearningGoal::General);
}

#[test]
fn the_learning_goals_have_names() {
    assert_eq!(LearningGoal::ARVR.name(), "AR/VR");
    assert_eq!(LearningGoal::General.name(), "General");
    assert_eq!(LearningGoal::MicroServices.name(), "Microservices");
    assert_eq!(LearningGoal::NaturalLanguageProcessing.name(), "Natural Language Processing");
    assert_eq!(LearningGoal::WebDevelopment.name(), "Web Development");
    assert_eq!(LearningGoal::EthicalAI.name(), "Ethical AI");
}
