//! The session: which screen is shown, what the learner has chosen, and
//! which request is in flight.
//!
//! The session never waits. Every event (a key, a tick of the clock with
//! what was drained from the channel, a topic that was supplied) is one
//! call that returns at once with the new state and with what the caller
//! has to do next: submit a request, supply a topic, write files.

use crate::config::{
    other_question_type, Config, ConfigService, ContentCustomization, LearningResources,
    QuestionGeneratorSettings, MAX_QUESTIONS, MIN_QUESTIONS,
};
use crate::data::{Topic, TopicView};
pub use crate::learning_goal::LearningGoal;
pub use crate::learning_module::{AdditionalResources, LearningModule, Resource};
use crate::learning_module::{
    additional_resources_for, generate_additional_resources, optional_resources,
    LearningModuleView,
};
use crate::llm::{
    create_prompt, module_from, module_prompt, parse_response, placeholder_exercise,
    placeholder_snippet, COMMENT_HEAD, MISSING_KEY_MESSAGE, NO_EXERCISES, NO_SNIPPETS,
};
use crate::prompt_response::{
    exercise_views, parse_tutoring, snippet_views, CodeSnippet, CodeSnippetView, Exercise,
};
use crate::question_generator::{
    parse_application, parse_application_response, parse_questions, parse_questions_response,
    texts, GeneratedApplication, GeneratedApplicationView, QuestionSet, QuestionSetView,
};
use crate::question_prompts::{
    application_prompt, create_application_prompt, create_questions_prompt, questions_prompt,
};
use crate::session_laws::{
    lemma_key_keeps_well_formed, lemma_project_keeps_well_formed, lemma_tick_keeps_well_formed,
    lemma_topic_keeps_well_formed,
};
use crate::text::{decimal_text, push_decimal, push_str, string_of};
use vstd::prelude::*;

verus! {

/// The screen that is shown.
#[derive(Debug, Clone, Copy, PartialEq, Eq, Structural)]
pub enum AppState {
    Welcome,
    IndexSelection,
    Learning,
    Loading,
    LevelTooLowPopup,
    Settings,
    QuestionGeneration,
    QuestionAnswering,
    ApplicationGeneration,
    ApplicationDisplay,
}

/// The index that topics are drawn from.
#[derive(Debug, Clone, Copy, PartialEq, Eq, Structural)]
pub enum IndexType {
    RustLibrary,
    RustByExample,
    RustProgrammingLanguage,
    Random,
}

/// The part of the settings screen that is shown.
#[derive(Debug, Clone, Copy, PartialEq, Eq, Structural)]
pub enum SettingsSection {
    LearningResources,
    ContentCustomization,
    LearningGoals,
    QuestionGenerator,
}

/// A key that the learner pressed.
#[derive(Debug, Clone, Copy, PartialEq, Eq, Structural)]
pub enum Key {
    Char(char),
    Enter,
    Esc,
    Tab,
    Up,
    Down,
    Left,
    Right,
    /// Any other key.
    Other,
}

/// The grammar in which the answer to a request is read.
#[derive(Debug, Clone, Copy, PartialEq, Eq, Structural)]
pub enum Grammar {
    Tutoring,
    QuestionSet,
    Application,
}

/// What the caller has to do after an event.
#[derive(Debug, Clone)]
pub enum Effect {
    /// Nothing.
    Nothing,
    /// Supply a topic from `index` that suits `level`, and hand it to
    /// `topic_supplied`.
    SupplyTopic { level: u8, index: IndexType },
    /// Submit `prompt` in the background, and hand what comes back to
    /// `tick` under the number `request`.
    Submit { request: u64, grammar: Grammar, prompt: String },
    /// Write the files of the current module.
    CreateModuleProject,
    /// Write the files of the generated application, and tell
    /// `project_created` how it went.
    CreateApplicationProject,
    /// Write the settings.
    SaveConfig,
}

/// What came back for a request.
#[derive(Debug, Clone)]
pub enum Outcome {
    /// The text that was generated.
    Arrived(String),
    /// The error that the request ended with.
    Failed(String),
    /// The channel was closed without a message.
    Closed,
}

/// What was drained from the channel of a request.
#[derive(Debug, Clone)]
pub struct Delivery {
    pub request: u64,
    pub outcome: Outcome,
}

/// Mathematical value of an `Effect`.
pub enum EffectView {
    Nothing,
    SupplyTopic { level: u8, index: IndexType },
    Submit { request: u64, grammar: Grammar, prompt: Seq<char> },
    CreateModuleProject,
    CreateApplicationProject,
    SaveConfig,
}

/// Mathematical value of an `Outcome`.
pub enum OutcomeView {
    Arrived(Seq<char>),
    Failed(Seq<char>),
    Closed,
}

/// Mathematical value of a `Delivery`.
pub struct DeliveryView {
    pub request: u64,
    pub outcome: OutcomeView,
}

impl View for Effect {
    type V = EffectView;

    open spec fn view(&self) -> EffectView {
        match *self {
            Effect::Nothing => EffectView::Nothing,
            Effect::SupplyTopic { level, index } => EffectView::SupplyTopic { level, index },
            Effect::Submit { request, grammar, prompt } => EffectView::Submit {
                request,
                grammar,
                prompt: prompt@,
            },
            Effect::CreateModuleProject => EffectView::CreateModuleProject,
            Effect::CreateApplicationProject => EffectView::CreateApplicationProject,
            Effect::SaveConfig => EffectView::SaveConfig,
        }
    }
}

impl View for Outcome {
    type V = OutcomeView;

    open spec fn view(&self) -> OutcomeView {
        match *self {
            Outcome::Arrived(text) => OutcomeView::Arrived(text@),
            Outcome::Failed(error) => OutcomeView::Failed(error@),
            Outcome::Closed => OutcomeView::Closed,
        }
    }
}

impl View for Delivery {
    type V = DeliveryView;

    open spec fn view(&self) -> DeliveryView {
        DeliveryView { request: self.request, outcome: self.outcome@ }
    }
}

/// The value of an optional delivery.
pub open spec fn optional_delivery(d: Option<Delivery>) -> Option<DeliveryView> {
    match d {
        Some(d) => Some(d@),
        None => None,
    }
}

/// The value of an optional module.
pub open spec fn optional_module(m: Option<LearningModule>) -> Option<LearningModuleView> {
    match m {
        Some(m) => Some(m@),
        None => None,
    }
}

/// The value of an optional question set.
pub open spec fn optional_question_set(q: Option<QuestionSet>) -> Option<QuestionSetView> {
    match q {
        Some(q) => Some(q@),
        None => None,
    }
}

/// The value of an optional application.
pub open spec fn optional_application(a: Option<GeneratedApplication>) -> Option<
    GeneratedApplicationView,
> {
    match a {
        Some(a) => Some(a@),
        None => None,
    }
}

/// The value of an optional topic.
pub open spec fn optional_topic(t: Option<Topic>) -> Option<TopicView> {
    match t {
        Some(t) => Some(t@),
        None => None,
    }
}

/// The value of a topic that was supplied, or of the error in its place.
pub open spec fn supplied_topic(t: Result<Topic, String>) -> Result<TopicView, Seq<char>> {
    match t {
        Ok(t) => Ok(t@),
        Err(e) => Err(e@),
    }
}

/// The session.
pub struct App {
    pub is_running: bool,
    pub current_state: AppState,
    pub selected_level: u8,
    pub selected_index: IndexType,
    pub index_selection_cursor: usize,
    pub settings_cursor: usize,
    pub settings_section: SettingsSection,
    pub show_help: bool,
    pub show_quit_confirmation: bool,
    pub quit_confirmation_selected: bool,
    pub api_key: String,
    pub scroll_offset: u16,
    pub current_module: Option<LearningModule>,
    /// When the popup appeared, in seconds of the caller's clock.
    pub popup_start_time: Option<u64>,
    pub question_set: Option<QuestionSet>,
    pub generated_application: Option<GeneratedApplication>,
    /// Number of the request whose answer is awaited, if one is in flight.
    pub pending_request: Option<u64>,
    /// Topic of the module that was asked for.
    pub pending_topic: Option<Topic>,
    /// Number that the next request gets.
    pub next_request: u64,
    /// The settings, and the one way to change them.
    pub config_service: ConfigService,
}

/// Mathematical value of the session.
pub struct AppView {
    pub is_running: bool,
    pub current_state: AppState,
    pub selected_level: u8,
    pub selected_index: IndexType,
    pub index_selection_cursor: usize,
    pub settings_cursor: usize,
    pub settings_section: SettingsSection,
    pub show_help: bool,
    pub show_quit_confirmation: bool,
    pub quit_confirmation_selected: bool,
    pub api_key: Seq<char>,
    pub scroll_offset: u16,
    pub current_module: Option<LearningModuleView>,
    pub popup_start_time: Option<u64>,
    pub question_set: Option<QuestionSetView>,
    pub generated_application: Option<GeneratedApplicationView>,
    pub pending_request: Option<u64>,
    pub pending_topic: Option<TopicView>,
    pub next_request: u64,
    pub config: Config,
}

impl View for App {
    type V = AppView;

    open spec fn view(&self) -> AppView {
        AppView {
            is_running: self.is_running,
            current_state: self.current_state,
            selected_level: self.selected_level,
            selected_index: self.selected_index,
            index_selection_cursor: self.index_selection_cursor,
            settings_cursor: self.settings_cursor,
            settings_section: self.settings_section,
            show_help: self.show_help,
            show_quit_confirmation: self.show_quit_confirmation,
            quit_confirmation_selected: self.quit_confirmation_selected,
            api_key: self.api_key@,
            scroll_offset: self.scroll_offset,
            current_module: optional_module(self.current_module),
            popup_start_time: self.popup_start_time,
            question_set: optional_question_set(self.question_set),
            generated_application: optional_application(self.generated_application),
            pending_request: self.pending_request,
            pending_topic: optional_topic(self.pending_topic),
            next_request: self.next_request,
            config: self.config_service@,
        }
    }
}

/// A state and what the caller has to do.
pub struct Step {
    pub app: AppView,
    pub effect: EffectView,
}

/// Lowest level.
pub const MIN_LEVEL: u8 = 1;

/// Highest level.
pub const MAX_LEVEL: u8 = 10;

/// Level that a learner starts with.
pub const DEFAULT_LEVEL: u8 = 5;

/// Lowest level at which the index of libraries opens.
pub const LIBRARY_LEVEL: u8 = 3;

/// Seconds for which the popup stays.
pub const POPUP_SECONDS: u64 = 3;

/// Last place of the cursor on the list of indexes.
pub const LAST_INDEX_CHOICE: usize = 3;

/// Topic of a quiz where no module is loaded.
pub const DEFAULT_QUIZ_TOPIC: &'static str = "Rust programming";

/// Topic of the module shown where no topic could be supplied.
pub const TOPIC_ERROR_TITLE: &'static str = "Error Loading Topic";

/// Topic of the module shown where the module request failed.
pub const CONTENT_ERROR_TITLE: &'static str = "Error Generating Content";

/// Topic of the module shown where the quiz request failed.
pub const QUESTIONS_ERROR_TITLE: &'static str = "Error Generating Questions";

/// Name of the application shown where the application request failed.
pub const APPLICATION_ERROR_TITLE: &'static str = "Error Generating Application";

/// Title of what is shown where a channel closed without a message.
pub const COMMUNICATION_ERROR_TITLE: &'static str = "Communication Error";

/// What is shown where a channel closed without a message.
pub const COMMUNICATION_ERROR_TEXT: &'static str =
    "There was an error communicating with the content generation service.";

/// What stands before the level where no topic could be supplied.
pub const TOPIC_ERROR_HEAD: &'static str = "There was an error loading a topic for level ";

/// What stands after the level where no topic could be supplied.
pub const TOPIC_ERROR_TAIL: &'static str = ". Please try again.";

/// What stands before the error of a module request.
pub const CONTENT_ERROR_HEAD: &'static str = "There was an error generating content: ";

/// What stands before the error of a quiz request.
pub const QUESTIONS_ERROR_HEAD: &'static str = "There was an error generating questions: ";

/// What stands before the error of an application request.
pub const APPLICATION_ERROR_HEAD: &'static str =
    "There was an error generating the application: ";

/// How the learner is told to try again.
pub const RETRY_HINT: &'static str = "\n\nPlease try again or select a different level.";

/// What a quiz without a question is reported as.
pub const NO_QUESTIONS_MESSAGE: &'static str = "No valid questions found in response";

/// Whether a request is awaited in a state.
pub open spec fn is_pending_state(state: AppState) -> bool {
    state == AppState::Loading || state == AppState::QuestionGeneration || state
        == AppState::ApplicationGeneration
}

/// Whether a state belongs to the quiz: from the request for the questions
/// to the application that was generated from the answers.
pub open spec fn in_quiz_flow(state: AppState) -> bool {
    ||| state == AppState::QuestionGeneration
    ||| state == AppState::QuestionAnswering
    ||| state == AppState::ApplicationGeneration
    ||| state == AppState::ApplicationDisplay
}

/// Last place of the cursor in a section of the settings.
pub open spec fn last_setting(section: SettingsSection) -> usize {
    match section {
        SettingsSection::LearningResources => 3,
        SettingsSection::ContentCustomization => 2,
        SettingsSection::LearningGoals => 3,
        SettingsSection::QuestionGenerator => 1,
    }
}

/// The section that follows a section of the settings.
pub open spec fn next_section(section: SettingsSection) -> SettingsSection {
    match section {
        SettingsSection::LearningResources => SettingsSection::ContentCustomization,
        SettingsSection::ContentCustomization => SettingsSection::LearningGoals,
        SettingsSection::LearningGoals => SettingsSection::QuestionGenerator,
        SettingsSection::QuestionGenerator => SettingsSection::LearningResources,
    }
}

/// The index at a place of the list of indexes.
pub open spec fn index_at(cursor: usize) -> IndexType {
    if cursor == 0 {
        IndexType::RustLibrary
    } else if cursor == 1 {
        IndexType::RustByExample
    } else if cursor == 2 {
        IndexType::RustProgrammingLanguage
    } else {
        IndexType::Random
    }
}

/// The number after a request number; 0 follows the last.
pub open spec fn following_request(n: u64) -> u64 {
    if n == u64::MAX {
        0
    } else {
        (n + 1) as u64
    }
}

/// A module that reports an error: the text, and the placeholders in
/// place of code examples and exercises.
pub open spec fn error_module(title: Seq<char>, explanation: Seq<char>) -> LearningModuleView {
    LearningModuleView {
        topic: title,
        explanation,
        code_snippets: seq![placeholder_snippet()],
        exercises: seq![placeholder_exercise()],
        additional_resources: None,
    }
}

/// An application that reports an error.
pub open spec fn error_application(title: Seq<char>, description: Seq<char>) -> GeneratedApplicationView {
    GeneratedApplicationView {
        name: title,
        description,
        features: Seq::empty(),
        code_snippets: Seq::empty(),
    }
}

/// The module that reports a failed request: its title, and the error
/// after `head` with the hint to try again.
pub open spec fn failure_module(title: Seq<char>, head: Seq<char>, error: Seq<char>) -> LearningModuleView {
    error_module(title, head + error + RETRY_HINT@)
}

/// The module that reports a channel that closed without a message.
pub open spec fn communication_error_module() -> LearningModuleView {
    error_module(COMMUNICATION_ERROR_TITLE@, COMMUNICATION_ERROR_TEXT@ + RETRY_HINT@)
}

impl AppView {
    /// The topic of a quiz: that of the module, or the general one.
    pub open spec fn quiz_topic(self) -> Seq<char> {
        match self.current_module {
            Some(module) => module.topic,
            None => DEFAULT_QUIZ_TOPIC@,
        }
    }

    /// The session without a request in flight.
    pub open spec fn without_request(self) -> AppView {
        AppView { pending_request: None, pending_topic: None, ..self }
    }

    /// The session on a screen that awaits no request: what was in flight
    /// is given up, and the quiz is discarded where the screen is none of
    /// the quiz's.
    pub open spec fn showing(self, state: AppState) -> AppView {
        AppView {
            current_state: state,
            question_set: if in_quiz_flow(state) {
                self.question_set
            } else {
                None
            },
            ..self.without_request()
        }
    }

    /// The session after the request for a quiz went out.
    pub open spec fn questions_requested(self) -> Step {
        Step {
            app: AppView {
                current_state: AppState::QuestionGeneration,
                pending_request: Some(self.next_request),
                pending_topic: None,
                next_request: following_request(self.next_request),
                ..self
            },
            effect: EffectView::Submit {
                request: self.next_request,
                grammar: Grammar::QuestionSet,
                prompt: questions_prompt(
                    self.quiz_topic(),
                    self.config.content_customization.learning_goal,
                    self.config.question_generator_settings.default_question_type,
                    self.config.question_generator_settings.num_questions,
                ),
            },
        }
    }

    /// The session after the learner asked for an application: the request
    /// goes out only where there is a quiz and every question of it is
    /// answered.
    pub open spec fn application_requested(self) -> Step {
        match self.question_set {
            Some(set) => if set.complete() {
                Step {
                    app: AppView {
                        current_state: AppState::ApplicationGeneration,
                        pending_request: Some(self.next_request),
                        pending_topic: None,
                        next_request: following_request(self.next_request),
                        ..self
                    },
                    effect: EffectView::Submit {
                        request: self.next_request,
                        grammar: Grammar::Application,
                        prompt: application_prompt(set.topic, set.questions),
                    },
                }
            } else {
                Step { app: self, effect: EffectView::Nothing }
            },
            None => Step { app: self, effect: EffectView::Nothing },
        }
    }

    /// The session after the learner asked for a module: a topic has to be
    /// supplied first, and nothing is in flight until then.
    pub open spec fn module_requested(self) -> Step {
        Step {
            app: self.showing(AppState::Loading),
            effect: EffectView::SupplyTopic {
                level: self.selected_level,
                index: self.selected_index,
            },
        }
    }

    /// The session showing a module that reports an error.
    pub open spec fn showing_error(self, module: LearningModuleView) -> AppView {
        AppView { current_module: Some(module), ..self.showing(AppState::Learning) }
    }

    /// The session after a topic was supplied. The topic counts only while
    /// a module is being loaded and no request is in flight. With a topic
    /// and a key the request for the module goes out; without a key, and
    /// without a topic, the learner is shown why there is no module.
    pub open spec fn after_topic(self, supplied: Result<TopicView, Seq<char>>) -> Step {
        if self.current_state != AppState::Loading || self.pending_request.is_some() {
            Step { app: self, effect: EffectView::Nothing }
        } else {
            match supplied {
                Ok(topic) => if self.api_key.len() == 0 {
                    Step {
                        app: self.showing_error(
                            failure_module(
                                CONTENT_ERROR_TITLE@,
                                CONTENT_ERROR_HEAD@,
                                MISSING_KEY_MESSAGE@,
                            ),
                        ),
                        effect: EffectView::Nothing,
                    }
                } else {
                    Step {
                        app: AppView {
                            pending_request: Some(self.next_request),
                            pending_topic: Some(topic),
                            next_request: following_request(self.next_request),
                            ..self
                        },
                        effect: EffectView::Submit {
                            request: self.next_request,
                            grammar: Grammar::Tutoring,
                            prompt: module_prompt(
                                topic.topic,
                                topic.source,
                                self.selected_level,
                                self.config.content_customization,
                            ),
                        },
                    }
                },
                Err(_) => Step {
                    app: self.showing_error(
                        error_module(
                            TOPIC_ERROR_TITLE@,
                            TOPIC_ERROR_HEAD@ + decimal_text(self.selected_level as nat)
                                + TOPIC_ERROR_TAIL@,
                        ),
                    ),
                    effect: EffectView::Nothing,
                },
            }
        }
    }

    /// The session after the popup's time has run out, if it has.
    pub open spec fn after_clock(self, now: u64) -> AppView {
        match self.popup_start_time {
            Some(start) => if self.current_state == AppState::LevelTooLowPopup && now >= start
                && now - start >= POPUP_SECONDS {
                AppView { popup_start_time: None, ..self.showing(AppState::Welcome) }
            } else {
                self
            },
            None => self,
        }
    }

    /// The session after the answer to the module request.
    pub open spec fn after_module_outcome(self, outcome: OutcomeView) -> Step {
        match outcome {
            OutcomeView::Arrived(text) => match self.pending_topic {
                Some(topic) => Step {
                    app: AppView {
                        current_module: Some(
                            LearningModuleView {
                                additional_resources: additional_resources_for(
                                    topic.topic,
                                    self.config.learning_resources,
                                ),
                                ..module_from(topic.topic, parse_tutoring(text))
                            },
                        ),
                        scroll_offset: 0,
                        ..self.showing(AppState::Learning)
                    },
                    effect: EffectView::CreateModuleProject,
                },
                None => Step {
                    app: self.showing_error(communication_error_module()),
                    effect: EffectView::Nothing,
                },
            },
            OutcomeView::Failed(error) => Step {
                app: self.showing_error(
                    failure_module(CONTENT_ERROR_TITLE@, CONTENT_ERROR_HEAD@, error),
                ),
                effect: EffectView::Nothing,
            },
            OutcomeView::Closed => Step {
                app: self.showing_error(communication_error_module()),
                effect: EffectView::Nothing,
            },
        }
    }

    /// The session after a quiz request that failed with `error`.
    pub open spec fn after_quiz_failure(self, error: Seq<char>) -> AppView {
        self.showing_error(failure_module(QUESTIONS_ERROR_TITLE@, QUESTIONS_ERROR_HEAD@, error))
    }

    /// The session after the answer to the quiz request.
    pub open spec fn after_quiz_outcome(self, outcome: OutcomeView) -> AppView {
        match outcome {
            OutcomeView::Arrived(text) => if parse_questions(text).len() > 0 {
                AppView {
                    question_set: Some(
                        QuestionSetView {
                            topic: self.quiz_topic(),
                            questions: parse_questions(text),
                            cursor: 0,
                        },
                    ),
                    ..self.showing(AppState::QuestionAnswering)
                }
            } else {
                self.after_quiz_failure(NO_QUESTIONS_MESSAGE@)
            },
            OutcomeView::Failed(error) => self.after_quiz_failure(error),
            OutcomeView::Closed => self.showing_error(communication_error_module()),
        }
    }

    /// The session after the answer to the application request.
    pub open spec fn after_application_outcome(self, outcome: OutcomeView) -> AppView {
        match outcome {
            OutcomeView::Arrived(text) => AppView {
                generated_application: Some(
                    parse_application(
                        text,
                        match self.question_set {
                            Some(set) => set.topic,
                            None => DEFAULT_QUIZ_TOPIC@,
                        },
                    ),
                ),
                ..self.showing(AppState::ApplicationDisplay)
            },
            OutcomeView::Failed(error) => AppView {
                generated_application: Some(
                    error_application(
                        APPLICATION_ERROR_TITLE@,
                        APPLICATION_ERROR_HEAD@ + error + RETRY_HINT@,
                    ),
                ),
                ..self.showing(AppState::QuestionAnswering)
            },
            OutcomeView::Closed => AppView {
                generated_application: Some(
                    error_application(
                        COMMUNICATION_ERROR_TITLE@,
                        COMMUNICATION_ERROR_TEXT@ + RETRY_HINT@,
                    ),
                ),
                ..self.showing(AppState::QuestionAnswering)
            },
        }
    }

    /// The session after what was drained from a channel. It counts only
    /// where it belongs to the request in flight.
    pub open spec fn after_delivery(self, delivery: Option<DeliveryView>) -> Step {
        match delivery {
            Some(d) => if self.pending_request == Some(d.request) {
                match self.current_state {
                    AppState::Loading => self.after_module_outcome(d.outcome),
                    AppState::QuestionGeneration => Step {
                        app: self.after_quiz_outcome(d.outcome),
                        effect: EffectView::Nothing,
                    },
                    AppState::ApplicationGeneration => Step {
                        app: self.after_application_outcome(d.outcome),
                        effect: EffectView::Nothing,
                    },
                    _ => Step { app: self.without_request(), effect: EffectView::Nothing },
                }
            } else {
                Step { app: self, effect: EffectView::Nothing }
            },
            None => Step { app: self, effect: EffectView::Nothing },
        }
    }

    /// The session after a tick at time `now` with what was drained.
    pub open spec fn after_tick(self, now: u64, delivery: Option<DeliveryView>) -> Step {
        self.after_clock(now).after_delivery(delivery)
    }

    /// The session after a key while the help is shown.
    pub open spec fn after_help_key(self, key: Key) -> AppView {
        if key == Key::Esc || key == Key::Char('?') {
            AppView { show_help: false, ..self }
        } else {
            self
        }
    }

    /// The session after a key while the learner is asked whether to quit.
    pub open spec fn after_quit_key(self, key: Key) -> AppView {
        if key == Key::Enter {
            if self.quit_confirmation_selected {
                AppView { is_running: false, ..self }
            } else {
                AppView { show_quit_confirmation: false, ..self }
            }
        } else if key == Key::Left || key == Key::Right || key == Key::Char('h') || key
            == Key::Char('l') {
            AppView { quit_confirmation_selected: !self.quit_confirmation_selected, ..self }
        } else if key == Key::Esc || key == Key::Char('q') {
            AppView { show_quit_confirmation: false, ..self }
        } else {
            self
        }
    }

    /// The session after the part of a key that every screen shares.
    pub open spec fn after_global_key(self, key: Key) -> AppView {
        if key == Key::Char('q') {
            AppView { show_quit_confirmation: true, ..self }
        } else if key == Key::Char('?') {
            AppView { show_help: true, ..self }
        } else if key == Key::Char('s') && self.current_state != AppState::Settings {
            AppView {
                settings_cursor: 0,
                settings_section: SettingsSection::LearningResources,
                ..self.showing(AppState::Settings)
            }
        } else {
            self
        }
    }

    /// The session after a key on the welcome screen.
    pub open spec fn after_welcome_key(self, key: Key) -> AppView {
        if key == Key::Down || key == Key::Char('j') {
            AppView {
                selected_level: if self.selected_level < MAX_LEVEL {
                    (self.selected_level + 1) as u8
                } else {
                    MAX_LEVEL
                },
                ..self
            }
        } else if key == Key::Up || key == Key::Char('k') {
            AppView {
                selected_level: if self.selected_level > MIN_LEVEL {
                    (self.selected_level - 1) as u8
                } else {
                    MIN_LEVEL
                },
                ..self
            }
        } else if key == Key::Enter {
            AppView { index_selection_cursor: 0, ..self.showing(AppState::IndexSelection) }
        } else {
            self
        }
    }

    /// The session after a key on the list of indexes.
    pub open spec fn after_index_key(self, key: Key, now: u64) -> Step {
        if key == Key::Down || key == Key::Char('j') {
            Step {
                app: AppView {
                    index_selection_cursor: if self.index_selection_cursor < LAST_INDEX_CHOICE {
                        (self.index_selection_cursor + 1) as usize
                    } else {
                        LAST_INDEX_CHOICE
                    },
                    ..self
                },
                effect: EffectView::Nothing,
            }
        } else if key == Key::Up || key == Key::Char('k') {
            Step {
                app: AppView {
                    index_selection_cursor: if self.index_selection_cursor > 0 {
                        (self.index_selection_cursor - 1) as usize
                    } else {
                        0
                    },
                    ..self
                },
                effect: EffectView::Nothing,
            }
        } else if key == Key::Enter {
            let chosen = AppView {
                selected_index: index_at(self.index_selection_cursor),
                ..self
            };
            if self.index_selection_cursor == 0 && self.selected_level < LIBRARY_LEVEL {
                Step {
                    app: AppView {
                        popup_start_time: Some(now),
                        ..chosen.showing(AppState::LevelTooLowPopup)
                    },
                    effect: EffectView::Nothing,
                }
            } else {
                chosen.questions_requested()
            }
        } else if key == Key::Esc {
            Step { app: self.showing(AppState::Welcome), effect: EffectView::Nothing }
        } else {
            Step { app: self, effect: EffectView::Nothing }
        }
    }

    /// The session after a key on the learning screen.
    pub open spec fn after_learning_key(self, key: Key) -> Step {
        if key == Key::Char('n') {
            self.module_requested()
        } else if key == Key::Char('w') {
            self.questions_requested()
        } else if key == Key::Esc {
            Step { app: self.showing(AppState::Welcome), effect: EffectView::Nothing }
        } else if key == Key::Up || key == Key::Char('k') {
            Step {
                app: AppView {
                    scroll_offset: if self.scroll_offset > 0 {
                        (self.scroll_offset - 1) as u16
                    } else {
                        0
                    },
                    ..self
                },
                effect: EffectView::Nothing,
            }
        } else if key == Key::Down || key == Key::Char('j') {
            Step {
                app: AppView {
                    scroll_offset: if self.scroll_offset < u16::MAX {
                        (self.scroll_offset + 1) as u16
                    } else {
                        u16::MAX
                    },
                    ..self
                },
                effect: EffectView::Nothing,
            }
        } else {
            Step { app: self, effect: EffectView::Nothing }
        }
    }

    /// The session after a key on the quiz.
    pub open spec fn after_quiz_key(self, key: Key) -> Step {
        match self.question_set {
            Some(set) => if key == Key::Esc {
                Step { app: self.showing(AppState::Learning), effect: EffectView::Nothing }
            } else if key == Key::Left || key == Key::Char('h') {
                Step {
                    app: AppView {
                        question_set: Some(
                            QuestionSetView {
                                cursor: if set.cursor > 0 {
                                    (set.cursor - 1) as nat
                                } else {
                                    set.cursor
                                },
                                ..set
                            },
                        ),
                        ..self
                    },
                    effect: EffectView::Nothing,
                }
            } else if key == Key::Right || key == Key::Char('l') {
                Step {
                    app: AppView {
                        question_set: Some(
                            QuestionSetView {
                                cursor: if set.cursor + 1 < set.questions.len() {
                                    set.cursor + 1
                                } else {
                                    set.cursor
                                },
                                ..set
                            },
                        ),
                        ..self
                    },
                    effect: EffectView::Nothing,
                }
            } else if key == Key::Enter {
                self.application_requested()
            } else {
                match key {
                    Key::Char(c) => Step {
                        app: AppView {
                            question_set: Some(
                                if set.cursor < set.questions.len() {
                                    QuestionSetView {
                                        questions: set.questions.update(
                                            set.cursor as int,
                                            set.questions[set.cursor as int].after_key(c),
                                        ),
                                        ..set
                                    }
                                } else {
                                    set
                                },
                            ),
                            ..self
                        },
                        effect: EffectView::Nothing,
                    },
                    _ => Step { app: self, effect: EffectView::Nothing },
                }
            },
            None => Step { app: self, effect: EffectView::Nothing },
        }
    }

    /// The session after a key on the generated application.
    pub open spec fn after_application_key(self, key: Key) -> Step {
        if key == Key::Esc {
            Step { app: self.showing(AppState::Learning), effect: EffectView::Nothing }
        } else if key == Key::Enter && self.generated_application.is_some() {
            Step { app: self, effect: EffectView::CreateApplicationProject }
        } else {
            Step { app: self, effect: EffectView::Nothing }
        }
    }

    /// The session once the caller has tried to write the files of the
    /// generated application.
    pub open spec fn after_project(self, created: bool) -> AppView {
        if created && self.current_state == AppState::ApplicationDisplay {
            self.showing(AppState::Learning)
        } else {
            self
        }
    }
}

/// The settings after the setting under the cursor is stepped, forward or
/// backward.
pub open spec fn stepped_config(
    config: Config,
    section: SettingsSection,
    cursor: usize,
    forward: bool,
) -> Config {
    match section {
        SettingsSection::LearningResources => Config {
            learning_resources: LearningResources {
                show_official_docs: config.learning_resources.show_official_docs != (cursor
                    == 0),
                show_community_resources: config.learning_resources.show_community_resources
                    != (cursor == 1),
                show_crates_io: config.learning_resources.show_crates_io != (cursor == 2),
                show_github_repos: config.learning_resources.show_github_repos != (cursor == 3),
            },
            ..config
        },
        SettingsSection::ContentCustomization => Config {
            content_customization: ContentCustomization {
                code_complexity: if cursor != 0 {
                    config.content_customization.code_complexity
                } else if forward {
                    config.content_customization.code_complexity.successor()
                } else {
                    config.content_customization.code_complexity.predecessor()
                },
                explanation_verbosity: if cursor != 1 {
                    config.content_customization.explanation_verbosity
                } else if forward {
                    config.content_customization.explanation_verbosity.successor()
                } else {
                    config.content_customization.explanation_verbosity.predecessor()
                },
                focus_area: if cursor != 2 {
                    config.content_customization.focus_area
                } else if forward {
                    config.content_customization.focus_area.successor()
                } else {
                    config.content_customization.focus_area.predecessor()
                },
                ..config.content_customization
            },
            ..config
        },
        SettingsSection::LearningGoals => Config {
            content_customization: ContentCustomization {
                learning_goal: if cursor > 3 {
                    config.content_customization.learning_goal
                } else if forward {
                    config.content_customization.learning_goal.successor()
                } else {
                    config.content_customization.learning_goal.predecessor()
                },
                ..config.content_customization
            },
            ..config
        },
        SettingsSection::QuestionGenerator => Config {
            question_generator_settings: QuestionGeneratorSettings {
                num_questions: if cursor != 0 {
                    config.question_generator_settings.num_questions
                } else if forward && config.question_generator_settings.num_questions
                    < MAX_QUESTIONS {
                    (config.question_generator_settings.num_questions + 1) as usize
                } else if !forward && config.question_generator_settings.num_questions
                    > MIN_QUESTIONS {
                    (config.question_generator_settings.num_questions - 1) as usize
                } else {
                    config.question_generator_settings.num_questions
                },
                default_question_type: if cursor == 1 {
                    other_question_type(config.question_generator_settings.default_question_type)
                } else {
                    config.question_generator_settings.default_question_type
                },
                ..config.question_generator_settings
            },
            ..config
        },
    }
}

impl AppView {
    /// The session after a key on the settings.
    pub open spec fn after_settings_key(self, key: Key) -> Step {
        if key == Key::Esc {
            Step { app: self.showing(AppState::Welcome), effect: EffectView::Nothing }
        } else if key == Key::Tab {
            Step {
                app: AppView {
                    settings_section: next_section(self.settings_section),
                    settings_cursor: 0,
                    ..self
                },
                effect: EffectView::Nothing,
            }
        } else if key == Key::Up || key == Key::Char('i') {
            Step {
                app: AppView {
                    settings_cursor: if self.settings_cursor > 0 {
                        (self.settings_cursor - 1) as usize
                    } else {
                        0
                    },
                    ..self
                },
                effect: EffectView::Nothing,
            }
        } else if key == Key::Down || key == Key::Char('m') {
            Step {
                app: AppView {
                    settings_cursor: if self.settings_cursor < last_setting(
                        self.settings_section,
                    ) {
                        (self.settings_cursor + 1) as usize
                    } else {
                        self.settings_cursor
                    },
                    ..self
                },
                effect: EffectView::Nothing,
            }
        } else if key == Key::Right || key == Key::Char('k') {
            self.after_setting_step(true)
        } else if key == Key::Left || key == Key::Char('j') {
            self.after_setting_step(false)
        } else {
            Step { app: self, effect: EffectView::Nothing }
        }
    }

    /// The session after the setting under the cursor is stepped: the
    /// settings change and have to be written. Nothing happens where the
    /// cursor is past the last setting.
    pub open spec fn after_setting_step(self, forward: bool) -> Step {
        if self.settings_cursor <= last_setting(self.settings_section) {
            Step {
                app: AppView {
                    config: stepped_config(
                        self.config,
                        self.settings_section,
                        self.settings_cursor,
                        forward,
                    ),
                    ..self
                },
                effect: EffectView::SaveConfig,
            }
        } else {
            Step { app: self, effect: EffectView::Nothing }
        }
    }

    /// The session after the part of a key that belongs to the screen.
    pub open spec fn after_screen_key(self, key: Key, now: u64) -> Step {
        match self.current_state {
            AppState::Welcome => Step {
                app: self.after_welcome_key(key),
                effect: EffectView::Nothing,
            },
            AppState::IndexSelection => self.after_index_key(key, now),
            AppState::Learning => self.after_learning_key(key),
            AppState::Settings => self.after_settings_key(key),
            AppState::QuestionAnswering => self.after_quiz_key(key),
            AppState::ApplicationDisplay => self.after_application_key(key),
            _ => Step { app: self, effect: EffectView::Nothing },
        }
    }

    /// The session after a key at time `now`. While the help or the
    /// question whether to quit is shown, the key goes to it alone.
    /// Otherwise the key first does what it does on every screen and then
    /// what it does on the screen that is then shown.
    pub open spec fn after_key(self, key: Key, now: u64) -> Step {
        if self.show_help {
            Step { app: self.after_help_key(key), effect: EffectView::Nothing }
        } else if self.show_quit_confirmation {
            Step { app: self.after_quit_key(key), effect: EffectView::Nothing }
        } else {
            self.after_global_key(key).after_screen_key(key, now)
        }
    }

    /// The session's invariant: the level, the cursors and the quiz cursor
    /// are in range, a request is in flight only on a screen that awaits
    /// one, the popup has its time, every module has code examples and
    /// exercises, the quiz screens have a quiz, and no other screen has
    /// one.
    pub open spec fn well_formed(self) -> bool {
        &&& MIN_LEVEL <= self.selected_level <= MAX_LEVEL
        &&& self.index_selection_cursor <= LAST_INDEX_CHOICE
        &&& self.settings_cursor <= last_setting(self.settings_section)
        &&& self.pending_request.is_some() ==> is_pending_state(self.current_state)
        &&& self.pending_topic.is_some() ==> self.current_state == AppState::Loading
            && self.pending_request.is_some()
        &&& self.current_state == AppState::Loading && self.pending_request.is_some()
            ==> self.pending_topic.is_some()
        &&& self.current_state == AppState::LevelTooLowPopup ==> self.popup_start_time.is_some()
        &&& self.current_state == AppState::QuestionGeneration
            || self.current_state == AppState::ApplicationGeneration
            ==> self.pending_request.is_some()
        &&& self.current_state == AppState::QuestionAnswering || self.current_state
            == AppState::ApplicationGeneration ==> self.question_set.is_some()
        &&& self.current_state == AppState::ApplicationGeneration
            ==> self.question_set.unwrap().complete()
        &&& self.current_state == AppState::ApplicationDisplay
            ==> self.generated_application.is_some()
        &&& self.question_set matches Some(set) ==> set.well_formed() && (self.current_state
            == AppState::QuestionAnswering || self.current_state
            == AppState::ApplicationGeneration ==> set.questions.len() > 0)
        &&& self.question_set.is_some() ==> in_quiz_flow(self.current_state)
        &&& self.current_module matches Some(module) ==> module.code_snippets.len() > 0
            && module.exercises.len() > 0
    }
}

/// The session of a learner who has just started, with the given key and
/// settings.
pub open spec fn initial_session(api_key: Seq<char>, config: Config) -> AppView {
    AppView {
        is_running: true,
        current_state: AppState::Welcome,
        selected_level: DEFAULT_LEVEL,
        selected_index: IndexType::Random,
        index_selection_cursor: 0,
        settings_cursor: 0,
        settings_section: SettingsSection::LearningResources,
        show_help: false,
        show_quit_confirmation: false,
        quit_confirmation_selected: false,
        api_key,
        scroll_offset: 0,
        current_module: None,
        popup_start_time: None,
        question_set: None,
        generated_application: None,
        pending_request: None,
        pending_topic: None,
        next_request: 0,
        config,
    }
}

/// A text made of three parts.
fn joined(head: &str, middle: &str, tail: &str) -> (s: String)
    ensures
        s@ == head@ + middle@ + tail@,
{
    let mut text: Vec<char> = Vec::new();
    push_str(&mut text, head);
    push_str(&mut text, middle);
    push_str(&mut text, tail);
    string_of(text.as_slice())
}

/// A text made of two parts.
fn paired(head: &str, tail: &str) -> (s: String)
    ensures
        s@ == head@ + tail@,
{
    let mut text: Vec<char> = Vec::new();
    push_str(&mut text, head);
    push_str(&mut text, tail);
    string_of(text.as_slice())
}

/// A module that reports an error.
fn make_error_module(title: &str, explanation: String) -> (module: LearningModule)
    ensures
        module@ == error_module(title@, explanation@),
{
    let mut code_snippets: Vec<CodeSnippet> = Vec::new();
    code_snippets.push(
        CodeSnippet {
            title: NO_SNIPPETS.to_owned(),
            description: paired(COMMENT_HEAD, NO_SNIPPETS),
            code: paired(COMMENT_HEAD, NO_SNIPPETS),
        },
    );
    let mut exercises: Vec<Exercise> = Vec::new();
    exercises.push(
        Exercise {
            name: NO_EXERCISES.to_owned(),
            description: paired(COMMENT_HEAD, NO_EXERCISES),
            code: paired(COMMENT_HEAD, NO_EXERCISES),
        },
    );
    proof {
        assert(snippet_views(code_snippets@) =~= seq![placeholder_snippet()]);
        assert(exercise_views(exercises@) =~= seq![placeholder_exercise()]);
    }
    LearningModule {
        topic: title.to_owned(),
        explanation,
        code_snippets,
        exercises,
        additional_resources: None,
    }
}

/// An application that reports an error.
fn make_error_application(title: &str, description: String) -> (app: GeneratedApplication)
    ensures
        app@ == error_application(title@, description@),
{
    let app = GeneratedApplication {
        name: title.to_owned(),
        description,
        features: Vec::new(),
        code_snippets: Vec::new(),
    };
    proof {
        assert(texts(app.features@) =~= Seq::<Seq<char>>::empty());
        assert(snippet_views(app.code_snippets@) =~= Seq::<CodeSnippetView>::empty());
    }
    app
}

/// The number after a request number.
fn request_after(n: u64) -> (next: u64)
    ensures
        next == following_request(n),
{
    if n == u64::MAX {
        0
    } else {
        n + 1
    }
}

impl App {
    /// The session of a learner who has just started.
    pub fn new(api_key: String, config: Config) -> (app: App)
        ensures
            app@ == initial_session(api_key@, config),
            app@.well_formed(),
    {
        App {
            is_running: true,
            current_state: AppState::Welcome,
            selected_level: DEFAULT_LEVEL,
            selected_index: IndexType::Random,
            index_selection_cursor: 0,
            settings_cursor: 0,
            settings_section: SettingsSection::LearningResources,
            show_help: false,
            show_quit_confirmation: false,
            quit_confirmation_selected: false,
            api_key,
            scroll_offset: 0,
            current_module: None,
            popup_start_time: None,
            question_set: None,
            generated_application: None,
            pending_request: None,
            pending_topic: None,
            next_request: 0,
            config_service: ConfigService::new(config),
        }
    }

    /// Which kinds of further reading are listed.
    pub fn get_learning_resources(&self) -> (resources: &LearningResources)
        ensures
            *resources == self@.config.learning_resources,
    {
        self.config_service.get_learning_resources()
    }

    /// How the generated content is shaped.
    pub fn get_content_customization(&self) -> (customization: &ContentCustomization)
        ensures
            *customization == self@.config.content_customization,
    {
        self.config_service.get_content_customization()
    }

    /// How quizzes are generated.
    pub fn get_question_generator_settings(&self) -> (settings: &QuestionGeneratorSettings)
        ensures
            *settings == self@.config.question_generator_settings,
    {
        self.config_service.get_question_generator_settings()
    }

    /// What the learner studies towards.
    pub fn get_learning_goal(&self) -> (goal: LearningGoal)
        ensures
            goal == self@.config.content_customization.learning_goal,
    {
        self.config_service.get_content_customization().learning_goal
    }

    /// Lists the further reading on a topic, by the learner's settings.
    pub fn generate_additional_resources(&self, topic: &str) -> (r: Option<AdditionalResources>)
        ensures
            optional_resources(r) == additional_resources_for(
                topic@,
                self@.config.learning_resources,
            ),
    {
        generate_additional_resources(topic, self.config_service.get_learning_resources())
    }

    /// Shows a screen that awaits no request.
    fn show(&mut self, state: AppState)
        ensures
            final(self)@ == old(self)@.showing(state),
    {
        self.current_state = state;
        self.pending_request = None;
        self.pending_topic = None;
        match state {
            AppState::QuestionGeneration
            | AppState::QuestionAnswering
            | AppState::ApplicationGeneration
            | AppState::ApplicationDisplay => {},
            _ => {
                self.question_set = None;
            },
        }
    }

    /// Shows a module that reports an error.
    fn show_error(&mut self, module: LearningModule)
        ensures
            final(self)@ == old(self)@.showing_error(module@),
    {
        self.show(AppState::Learning);
        self.current_module = Some(module);
    }

    /// The topic of a quiz.
    fn quiz_topic(&self) -> (topic: String)
        ensures
            topic@ == self@.quiz_topic(),
    {
        match &self.current_module {
            Some(module) => module.topic.clone(),
            None => DEFAULT_QUIZ_TOPIC.to_owned(),
        }
    }

    /// Enters the screen that awaits a quiz and hands out the request for
    /// it. A request that was in flight is given up.
    pub fn generate_questions(&mut self) -> (effect: Effect)
        ensures
            (Step { app: final(self)@, effect: effect@ }) == old(self)@.questions_requested(),
    {
        let topic = self.quiz_topic();
        let settings = self.config_service.get_question_generator_settings();
        let prompt = create_questions_prompt(
            topic.as_str(),
            &self.config_service.get_content_customization().learning_goal,
            settings.default_question_type,
            settings.num_questions,
        );
        let request = self.next_request;
        self.current_state = AppState::QuestionGeneration;
        self.pending_request = Some(request);
        self.pending_topic = None;
        self.next_request = request_after(request);
        Effect::Submit { request, grammar: Grammar::QuestionSet, prompt }
    }

    /// Enters the screen that awaits an application and hands out the
    /// request for it, where there is a quiz and every question of it is
    /// answered. Nothing changes otherwise.
    pub fn generate_application(&mut self) -> (effect: Effect)
        ensures
            (Step { app: final(self)@, effect: effect@ }) == old(self)@.application_requested(),
    {
        let prompt = match &self.question_set {
            Some(set) => if set.is_complete() {
                Some(create_application_prompt(set))
            } else {
                None
            },
            None => None,
        };
        match prompt {
            Some(prompt) => {
                let request = self.next_request;
                self.current_state = AppState::ApplicationGeneration;
                self.pending_request = Some(request);
                self.pending_topic = None;
                self.next_request = request_after(request);
                Effect::Submit { request, grammar: Grammar::Application, prompt }
            },
            None => Effect::Nothing,
        }
    }

    /// Enters the screen that awaits a module and asks for a topic.
    pub fn generate_learning_module(&mut self) -> (effect: Effect)
        ensures
            (Step { app: final(self)@, effect: effect@ }) == old(self)@.module_requested(),
    {
        self.show(AppState::Loading);
        Effect::SupplyTopic { level: self.selected_level, index: self.selected_index }
    }

    /// Takes the topic that was asked for, or the error in its place.
    pub fn topic_supplied(&mut self, supplied: Result<Topic, String>) -> (effect: Effect)
        ensures
            (Step { app: final(self)@, effect: effect@ }) == old(self)@.after_topic(
                supplied_topic(supplied),
            ),
            old(self)@.well_formed() ==> final(self)@.well_formed(),
    {
        proof {
            if old(self)@.well_formed() {
                lemma_topic_keeps_well_formed(old(self)@, supplied_topic(supplied));
            }
        }
        if self.current_state != AppState::Loading || self.pending_request.is_some() {
            return Effect::Nothing;
        }
        match supplied {
            Ok(topic) => {
                if self.api_key.as_str().is_empty() {
                    let module = make_error_module(
                        CONTENT_ERROR_TITLE,
                        joined(CONTENT_ERROR_HEAD, MISSING_KEY_MESSAGE, RETRY_HINT),
                    );
                    self.show_error(module);
                    Effect::Nothing
                } else {
                    let prompt = create_prompt(
                        &topic,
                        self.selected_level,
                        self.config_service.get_content_customization(),
                    );
                    let request = self.next_request;
                    self.pending_request = Some(request);
                    self.pending_topic = Some(topic);
                    self.next_request = request_after(request);
                    Effect::Submit { request, grammar: Grammar::Tutoring, prompt }
                }
            },
            Err(_) => {
                let mut text: Vec<char> = Vec::new();
                push_str(&mut text, TOPIC_ERROR_HEAD);
                push_decimal(&mut text, self.selected_level as u64);
                push_str(&mut text, TOPIC_ERROR_TAIL);
                let module = make_error_module(TOPIC_ERROR_TITLE, string_of(text.as_slice()));
                self.show_error(module);
                Effect::Nothing
            },
        }
    }

    /// Lets the popup's time run.
    fn run_clock(&mut self, now: u64)
        ensures
            final(self)@ == old(self)@.after_clock(now),
    {
        match self.popup_start_time {
            Some(start) => {
                if self.current_state == AppState::LevelTooLowPopup && now >= start && now - start
                    >= POPUP_SECONDS {
                    self.show(AppState::Welcome);
                    self.popup_start_time = None;
                }
            },
            None => {},
        }
    }

    /// The module that reports a channel that closed without a message.
    fn communication_error() -> (module: LearningModule)
        ensures
            module@ == communication_error_module(),
    {
        make_error_module(
            COMMUNICATION_ERROR_TITLE,
            paired(COMMUNICATION_ERROR_TEXT, RETRY_HINT),
        )
    }

    /// Merges the answer to the module request.
    fn merge_module(&mut self, outcome: Outcome) -> (effect: Effect)
        ensures
            (Step { app: final(self)@, effect: effect@ }) == old(self)@.after_module_outcome(
                outcome@,
            ),
    {
        match outcome {
            Outcome::Arrived(text) => {
                let topic = self.pending_topic.take();
                match topic {
                    Some(topic) => {
                        let mut module = parse_response(text, &topic);
                        module.additional_resources = generate_additional_resources(
                            topic.topic.as_str(),
                            self.config_service.get_learning_resources(),
                        );
                        self.show(AppState::Learning);
                        self.current_module = Some(module);
                        self.scroll_offset = 0;
                        Effect::CreateModuleProject
                    },
                    None => {
                        self.show_error(Self::communication_error());
                        Effect::Nothing
                    },
                }
            },
            Outcome::Failed(error) => {
                let module = make_error_module(
                    CONTENT_ERROR_TITLE,
                    joined(CONTENT_ERROR_HEAD, error.as_str(), RETRY_HINT),
                );
                self.show_error(module);
                Effect::Nothing
            },
            Outcome::Closed => {
                self.show_error(Self::communication_error());
                Effect::Nothing
            },
        }
    }

    /// Shows why there is no quiz.
    fn fail_quiz(&mut self, error: &str)
        ensures
            final(self)@ == old(self)@.after_quiz_failure(error@),
    {
        let module = make_error_module(
            QUESTIONS_ERROR_TITLE,
            joined(QUESTIONS_ERROR_HEAD, error, RETRY_HINT),
        );
        self.show_error(module);
    }

    /// Merges the answer to the quiz request.
    fn merge_quiz(&mut self, outcome: Outcome)
        ensures
            final(self)@ == old(self)@.after_quiz_outcome(outcome@),
    {
        match outcome {
            Outcome::Arrived(text) => {
                match parse_questions_response(text) {
                    Ok(questions) => {
                        let set = QuestionSet::new(self.quiz_topic(), questions);
                        self.show(AppState::QuestionAnswering);
                        self.question_set = Some(set);
                    },
                    Err(_) => {
                        self.fail_quiz(NO_QUESTIONS_MESSAGE);
                    },
                }
            },
            Outcome::Failed(error) => {
                self.fail_quiz(error.as_str());
            },
            Outcome::Closed => {
                self.show_error(Self::communication_error());
            },
        }
    }

    /// Merges the answer to the application request.
    fn merge_application(&mut self, outcome: Outcome)
        ensures
            final(self)@ == old(self)@.after_application_outcome(outcome@),
    {
        match outcome {
            Outcome::Arrived(text) => {
                let topic = match &self.question_set {
                    Some(set) => set.topic.clone(),
                    None => DEFAULT_QUIZ_TOPIC.to_owned(),
                };
                let application = parse_application_response(text, topic.as_str());
                self.show(AppState::ApplicationDisplay);
                self.generated_application = Some(application);
            },
            Outcome::Failed(error) => {
                let application = make_error_application(
                    APPLICATION_ERROR_TITLE,
                    joined(APPLICATION_ERROR_HEAD, error.as_str(), RETRY_HINT),
                );
                self.show(AppState::QuestionAnswering);
                self.generated_application = Some(application);
            },
            Outcome::Closed => {
                let application = make_error_application(
                    COMMUNICATION_ERROR_TITLE,
                    paired(COMMUNICATION_ERROR_TEXT, RETRY_HINT),
                );
                self.show(AppState::QuestionAnswering);
                self.generated_application = Some(application);
            },
        }
    }

    /// Merges what was drained from a channel.
    fn merge(&mut self, delivery: Option<Delivery>) -> (effect: Effect)
        ensures
            (Step { app: final(self)@, effect: effect@ }) == old(self)@.after_delivery(
                optional_delivery(delivery),
            ),
    {
        match delivery {
            Some(d) => {
                let awaited = match self.pending_request {
                    Some(request) => request == d.request,
                    None => false,
                };
                if awaited {
                    match self.current_state {
                        AppState::Loading => self.merge_module(d.outcome),
                        AppState::QuestionGeneration => {
                            self.merge_quiz(d.outcome);
                            Effect::Nothing
                        },
                        AppState::ApplicationGeneration => {
                            self.merge_application(d.outcome);
                            Effect::Nothing
                        },
                        _ => {
                            self.pending_request = None;
                            self.pending_topic = None;
                            Effect::Nothing
                        },
                    }
                } else {
                    Effect::Nothing
                }
            },
            None => Effect::Nothing,
        }
    }

    /// One tick of the clock at time `now`, in seconds, with what was
    /// drained from the channel of the request in flight, if anything was.
    /// The popup goes once its time has run out. What was drained is
    /// merged where it belongs to the request in flight: a text is read in
    /// the grammar of the request and shown, an error and a closed channel
    /// are shown as a record that says what went wrong, on a screen from
    /// which the learner can ask again.
    pub fn tick(&mut self, now: u64, delivery: Option<Delivery>) -> (effect: Effect)
        ensures
            (Step { app: final(self)@, effect: effect@ }) == old(self)@.after_tick(
                now,
                optional_delivery(delivery),
            ),
            old(self)@.well_formed() ==> final(self)@.well_formed(),
    {
        proof {
            if old(self)@.well_formed() {
                lemma_tick_keeps_well_formed(old(self)@, now, optional_delivery(delivery));
            }
        }
        self.run_clock(now);
        self.merge(delivery)
    }

    /// Tells the session whether the files of the generated application
    /// were written.
    pub fn project_created(&mut self, created: bool)
        ensures
            final(self)@ == old(self)@.after_project(created),
            old(self)@.well_formed() ==> final(self)@.well_formed(),
    {
        proof {
            if old(self)@.well_formed() {
                lemma_project_keeps_well_formed(old(self)@, created);
            }
        }
        if created && self.current_state == AppState::ApplicationDisplay {
            self.show(AppState::Learning);
        }
    }

    /// A key while the help is shown.
    fn handle_help_keys(&mut self, key: Key)
        ensures
            final(self)@ == old(self)@.after_help_key(key),
    {
        match key {
            Key::Esc | Key::Char('?') => {
                self.show_help = false;
            },
            _ => {},
        }
    }

    /// A key while the learner is asked whether to quit.
    fn handle_quit_keys(&mut self, key: Key)
        ensures
            final(self)@ == old(self)@.after_quit_key(key),
    {
        match key {
            Key::Enter => {
                if self.quit_confirmation_selected {
                    self.is_running = false;
                } else {
                    self.show_quit_confirmation = false;
                }
            },
            Key::Left | Key::Right | Key::Char('h') | Key::Char('l') => {
                self.quit_confirmation_selected = !self.quit_confirmation_selected;
            },
            Key::Esc | Key::Char('q') => {
                self.show_quit_confirmation = false;
            },
            _ => {},
        }
    }

    /// The part of a key that every screen shares.
    fn handle_global_keys(&mut self, key: Key)
        ensures
            final(self)@ == old(self)@.after_global_key(key),
    {
        match key {
            Key::Char('q') => {
                self.show_quit_confirmation = true;
            },
            Key::Char('?') => {
                self.show_help = true;
            },
            Key::Char('s') => {
                if self.current_state != AppState::Settings {
                    self.show(AppState::Settings);
                    self.settings_cursor = 0;
                    self.settings_section = SettingsSection::LearningResources;
                }
            },
            _ => {},
        }
    }

    /// A key on the welcome screen.
    fn handle_welcome_keys(&mut self, key: Key)
        ensures
            final(self)@ == old(self)@.after_welcome_key(key),
    {
        match key {
            Key::Down | Key::Char('j') => {
                self.selected_level = if self.selected_level < MAX_LEVEL {
                    self.selected_level + 1
                } else {
                    MAX_LEVEL
                };
            },
            Key::Up | Key::Char('k') => {
                self.selected_level = if self.selected_level > MIN_LEVEL {
                    self.selected_level - 1
                } else {
                    MIN_LEVEL
                };
            },
            Key::Enter => {
                self.show(AppState::IndexSelection);
                self.index_selection_cursor = 0;
            },
            _ => {},
        }
    }

    /// A key on the list of indexes.
    fn handle_index_selection_keys(&mut self, key: Key, now: u64) -> (effect: Effect)
        ensures
            (Step { app: final(self)@, effect: effect@ }) == old(self)@.after_index_key(key, now),
    {
        match key {
            Key::Down | Key::Char('j') => {
                self.index_selection_cursor = if self.index_selection_cursor < LAST_INDEX_CHOICE {
                    self.index_selection_cursor + 1
                } else {
                    LAST_INDEX_CHOICE
                };
                Effect::Nothing
            },
            Key::Up | Key::Char('k') => {
                self.index_selection_cursor = if self.index_selection_cursor > 0 {
                    self.index_selection_cursor - 1
                } else {
                    0
                };
                Effect::Nothing
            },
            Key::Enter => {
                self.selected_index = match self.index_selection_cursor {
                    0 => IndexType::RustLibrary,
                    1 => IndexType::RustByExample,
                    2 => IndexType::RustProgrammingLanguage,
                    _ => IndexType::Random,
                };
                if self.index_selection_cursor == 0 && self.selected_level < LIBRARY_LEVEL {
                    self.show(AppState::LevelTooLowPopup);
                    self.popup_start_time = Some(now);
                    Effect::Nothing
                } else {
                    self.generate_questions()
                }
            },
            Key::Esc => {
                self.show(AppState::Welcome);
                Effect::Nothing
            },
            _ => Effect::Nothing,
        }
    }

    /// A key on the learning screen.
    fn handle_learning_keys(&mut self, key: Key) -> (effect: Effect)
        ensures
            (Step { app: final(self)@, effect: effect@ }) == old(self)@.after_learning_key(key),
    {
        match key {
            Key::Char('n') => self.generate_learning_module(),
            Key::Char('w') => self.generate_questions(),
            Key::Esc => {
                self.show(AppState::Welcome);
                Effect::Nothing
            },
            Key::Up | Key::Char('k') => {
                if self.scroll_offset > 0 {
                    self.scroll_offset -= 1;
                }
                Effect::Nothing
            },
            Key::Down | Key::Char('j') => {
                if self.scroll_offset < u16::MAX {
                    self.scroll_offset += 1;
                }
                Effect::Nothing
            },
            _ => Effect::Nothing,
        }
    }

    /// Steps the setting under the cursor, forward or backward.
    fn step_setting(&mut self, forward: bool)
        requires
            old(self).settings_cursor <= last_setting(old(self).settings_section),
        ensures
            final(self)@ == (AppView {
                config: stepped_config(
                    old(self)@.config,
                    old(self)@.settings_section,
                    old(self)@.settings_cursor,
                    forward,
                ),
                ..old(self)@
            }),
    {
        match self.settings_section {
            SettingsSection::LearningResources => {
                match self.settings_cursor {
                    0 => self.config_service.toggle_official_docs(),
                    1 => self.config_service.toggle_community_resources(),
                    2 => self.config_service.toggle_crates_io(),
                    _ => self.config_service.toggle_github_repos(),
                }
            },
            SettingsSection::ContentCustomization => {
                match self.settings_cursor {
                    0 => if forward {
                        self.config_service.cycle_code_complexity()
                    } else {
                        self.config_service.cycle_code_complexity_reverse()
                    },
                    1 => if forward {
                        self.config_service.cycle_explanation_verbosity()
                    } else {
                        self.config_service.cycle_explanation_verbosity_reverse()
                    },
                    _ => if forward {
                        self.config_service.cycle_focus_area()
                    } else {
                        self.config_service.cycle_focus_area_reverse()
                    },
                }
            },
            SettingsSection::LearningGoals => {
                if forward {
                    self.config_service.cycle_learning_goal()
                } else {
                    self.config_service.cycle_learning_goal_reverse()
                }
            },
            SettingsSection::QuestionGenerator => {
                match self.settings_cursor {
                    0 => if forward {
                        self.config_service.increment_num_questions()
                    } else {
                        self.config_service.decrement_num_questions()
                    },
                    _ => self.config_service.cycle_question_type(),
                }
            },
        }
    }

    /// A key on the settings.
    fn handle_settings_keys(&mut self, key: Key) -> (effect: Effect)
        ensures
            (Step { app: final(self)@, effect: effect@ }) == old(self)@.after_settings_key(key),
    {
        match key {
            Key::Esc => {
                self.show(AppState::Welcome);
                Effect::Nothing
            },
            Key::Tab => {
                self.settings_section = match self.settings_section {
                    SettingsSection::LearningResources => SettingsSection::ContentCustomization,
                    SettingsSection::ContentCustomization => SettingsSection::LearningGoals,
                    SettingsSection::LearningGoals => SettingsSection::QuestionGenerator,
                    SettingsSection::QuestionGenerator => SettingsSection::LearningResources,
                };
                self.settings_cursor = 0;
                Effect::Nothing
            },
            Key::Up | Key::Char('i') => {
                if self.settings_cursor > 0 {
                    self.settings_cursor -= 1;
                }
                Effect::Nothing
            },
            Key::Down | Key::Char('m') => {
                if self.settings_cursor < self.last_setting() {
                    self.settings_cursor += 1;
                }
                Effect::Nothing
            },
            Key::Right | Key::Char('k') => self.step_setting_if_any(true),
            Key::Left | Key::Char('j') => self.step_setting_if_any(false),
            _ => Effect::Nothing,
        }
    }

    /// Last place of the cursor in the section of the settings that is
    /// shown.
    fn last_setting(&self) -> (last: usize)
        ensures
            last == last_setting(self.settings_section),
    {
        match self.settings_section {
            SettingsSection::LearningResources => 3,
            SettingsSection::ContentCustomization => 2,
            SettingsSection::LearningGoals => 3,
            SettingsSection::QuestionGenerator => 1,
        }
    }

    /// Steps the setting under the cursor, if the cursor is on one.
    fn step_setting_if_any(&mut self, forward: bool) -> (effect: Effect)
        ensures
            (Step { app: final(self)@, effect: effect@ }) == old(self)@.after_setting_step(
                forward,
            ),
    {
        if self.settings_cursor <= self.last_setting() {
            self.step_setting(forward);
            Effect::SaveConfig
        } else {
            Effect::Nothing
        }
    }

    /// A key on the quiz: the arrows walk the questions without wrapping
    /// around, Enter asks for the application once every question is
    /// answered, and a character selects the answer that it stands for on
    /// the question under the cursor.
    pub fn handle_question_answering_keys(&mut self, key: Key) -> (effect: Effect)
        ensures
            (Step { app: final(self)@, effect: effect@ }) == old(self)@.after_quiz_key(key),
    {
        if self.question_set.is_none() {
            return Effect::Nothing;
        }
        match key {
            Key::Esc => {
                self.show(AppState::Learning);
                Effect::Nothing
            },
            Key::Left | Key::Char('h') => {
                match &mut self.question_set {
                    Some(set) => {
                        set.previous_question();
                    },
                    None => {},
                }
                Effect::Nothing
            },
            Key::Right | Key::Char('l') => {
                match &mut self.question_set {
                    Some(set) => {
                        set.next_question();
                    },
                    None => {},
                }
                Effect::Nothing
            },
            Key::Enter => self.generate_application(),
            Key::Char(c) => {
                match &mut self.question_set {
                    Some(set) => {
                        set.answer_current(c);
                    },
                    None => {},
                }
                Effect::Nothing
            },
            _ => Effect::Nothing,
        }
    }

    /// A key on the generated application.
    pub fn handle_application_display_keys(&mut self, key: Key) -> (effect: Effect)
        ensures
            (Step { app: final(self)@, effect: effect@ }) == old(self)@.after_application_key(
                key,
            ),
    {
        match key {
            Key::Esc => {
                self.show(AppState::Learning);
                Effect::Nothing
            },
            Key::Enter => {
                if self.generated_application.is_some() {
                    Effect::CreateApplicationProject
                } else {
                    Effect::Nothing
                }
            },
            _ => Effect::Nothing,
        }
    }

    /// A key at time `now`, in seconds.
    pub fn handle_key_event(&mut self, key: Key, now: u64) -> (effect: Effect)
        ensures
            (Step { app: final(self)@, effect: effect@ }) == old(self)@.after_key(key, now),
            old(self)@.well_formed() ==> final(self)@.well_formed(),
    {
        proof {
            if old(self)@.well_formed() {
                lemma_key_keeps_well_formed(old(self)@, key, now);
            }
        }
        if self.show_help {
            self.handle_help_keys(key);
            return Effect::Nothing;
        }
        if self.show_quit_confirmation {
            self.handle_quit_keys(key);
            return Effect::Nothing;
        }
        self.handle_global_keys(key);
        match self.current_state {
            AppState::Welcome => {
                self.handle_welcome_keys(key);
                Effect::Nothing
            },
            AppState::IndexSelection => self.handle_index_selection_keys(key, now),
            AppState::Learning => self.handle_learning_keys(key),
            AppState::Settings => self.handle_settings_keys(key),
            AppState::QuestionAnswering => self.handle_question_answering_keys(key),
            AppState::ApplicationDisplay => self.handle_application_display_keys(key),
            _ => Effect::Nothing,
        }
    }
}

} // verus!
