//! The learner's settings and the service through which they change.
//!
//! The service holds the settings in memory. Whoever owns it writes them to
//! disk after a change.

use crate::learning_goal::LearningGoal;
use crate::question_generator::QuestionType;
use vstd::prelude::*;

verus! {

/// Fewest questions that stepping down leads to.
pub const MIN_QUESTIONS: usize = 3;

/// Most questions that stepping up leads to.
pub const MAX_QUESTIONS: usize = 10;

/// Model asked for where the settings name none.
pub const DEFAULT_MODEL: &'static str = "google/gemma-3n-e4b-it:free";

/// How involved the code examples are.
#[derive(Debug, Clone, Copy, PartialEq, Eq, Structural)]
pub enum CodeComplexity {
    Simple,
    Moderate,
    Complex,
}

/// How long the explanations are.
#[derive(Debug, Clone, Copy, PartialEq, Eq, Structural)]
pub enum ExplanationVerbosity {
    Concise,
    Moderate,
    Detailed,
}

/// What a module gives most room to.
#[derive(Debug, Clone, Copy, PartialEq, Eq, Structural)]
pub enum FocusArea {
    Concepts,
    CodeExamples,
    Exercises,
    Balanced,
}

impl CodeComplexity {
    /// The next value in the cycle Simple, Moderate, Complex.
    pub open spec fn successor(self) -> CodeComplexity {
        match self {
            CodeComplexity::Simple => CodeComplexity::Moderate,
            CodeComplexity::Moderate => CodeComplexity::Complex,
            CodeComplexity::Complex => CodeComplexity::Simple,
        }
    }

    /// The previous value in the cycle Simple, Moderate, Complex.
    pub open spec fn predecessor(self) -> CodeComplexity {
        match self {
            CodeComplexity::Simple => CodeComplexity::Complex,
            CodeComplexity::Moderate => CodeComplexity::Simple,
            CodeComplexity::Complex => CodeComplexity::Moderate,
        }
    }

    /// The next value in the cycle.
    pub fn next(&self) -> (r: CodeComplexity)
        ensures
            r == self.successor(),
    {
        match self {
            CodeComplexity::Simple => CodeComplexity::Moderate,
            CodeComplexity::Moderate => CodeComplexity::Complex,
            CodeComplexity::Complex => CodeComplexity::Simple,
        }
    }

    /// The previous value in the cycle.
    pub fn previous(&self) -> (r: CodeComplexity)
        ensures
            r == self.predecessor(),
    {
        match self {
            CodeComplexity::Simple => CodeComplexity::Complex,
            CodeComplexity::Moderate => CodeComplexity::Simple,
            CodeComplexity::Complex => CodeComplexity::Moderate,
        }
    }
}

impl ExplanationVerbosity {
    /// The next value in the cycle Concise, Moderate, Detailed.
    pub open spec fn successor(self) -> ExplanationVerbosity {
        match self {
            ExplanationVerbosity::Concise => ExplanationVerbosity::Moderate,
            ExplanationVerbosity::Moderate => ExplanationVerbosity::Detailed,
            ExplanationVerbosity::Detailed => ExplanationVerbosity::Concise,
        }
    }

    /// The previous value in the cycle Concise, Moderate, Detailed.
    pub open spec fn predecessor(self) -> ExplanationVerbosity {
        match self {
            ExplanationVerbosity::Concise => ExplanationVerbosity::Detailed,
            ExplanationVerbosity::Moderate => ExplanationVerbosity::Concise,
            ExplanationVerbosity::Detailed => ExplanationVerbosity::Moderate,
        }
    }

    /// The next value in the cycle.
    pub fn next(&self) -> (r: ExplanationVerbosity)
        ensures
            r == self.successor(),
    {
        match self {
            ExplanationVerbosity::Concise => ExplanationVerbosity::Moderate,
            ExplanationVerbosity::Moderate => ExplanationVerbosity::Detailed,
            ExplanationVerbosity::Detailed => ExplanationVerbosity::Concise,
        }
    }

    /// The previous value in the cycle.
    pub fn previous(&self) -> (r: ExplanationVerbosity)
        ensures
            r == self.predecessor(),
    {
        match self {
            ExplanationVerbosity::Concise => ExplanationVerbosity::Detailed,
            ExplanationVerbosity::Moderate => ExplanationVerbosity::Concise,
            ExplanationVerbosity::Detailed => ExplanationVerbosity::Moderate,
        }
    }
}

impl FocusArea {
    /// The next value in the cycle Concepts, CodeExamples, Exercises,
    /// Balanced.
    pub open spec fn successor(self) -> FocusArea {
        match self {
            FocusArea::Concepts => FocusArea::CodeExamples,
            FocusArea::CodeExamples => FocusArea::Exercises,
            FocusArea::Exercises => FocusArea::Balanced,
            FocusArea::Balanced => FocusArea::Concepts,
        }
    }

    /// The previous value in the cycle Concepts, CodeExamples, Exercises,
    /// Balanced.
    pub open spec fn predecessor(self) -> FocusArea {
        match self {
            FocusArea::Concepts => FocusArea::Balanced,
            FocusArea::CodeExamples => FocusArea::Concepts,
            FocusArea::Exercises => FocusArea::CodeExamples,
            FocusArea::Balanced => FocusArea::Exercises,
        }
    }

    /// The next value in the cycle.
    pub fn next(&self) -> (r: FocusArea)
        ensures
            r == self.successor(),
    {
        match self {
            FocusArea::Concepts => FocusArea::CodeExamples,
            FocusArea::CodeExamples => FocusArea::Exercises,
            FocusArea::Exercises => FocusArea::Balanced,
            FocusArea::Balanced => FocusArea::Concepts,
        }
    }

    /// The previous value in the cycle.
    pub fn previous(&self) -> (r: FocusArea)
        ensures
            r == self.predecessor(),
    {
        match self {
            FocusArea::Concepts => FocusArea::Balanced,
            FocusArea::CodeExamples => FocusArea::Concepts,
            FocusArea::Exercises => FocusArea::CodeExamples,
            FocusArea::Balanced => FocusArea::Exercises,
        }
    }
}

/// The other kind of question.
pub open spec fn other_question_type(kind: QuestionType) -> QuestionType {
    match kind {
        QuestionType::Binary => QuestionType::Multiple,
        QuestionType::Multiple => QuestionType::Binary,
    }
}

/// Which kinds of further reading a module lists.
#[derive(Debug, Clone, Copy, PartialEq, Eq, Structural)]
pub struct LearningResources {
    pub show_official_docs: bool,
    pub show_community_resources: bool,
    pub show_crates_io: bool,
    pub show_github_repos: bool,
}

/// How the generated content is shaped.
#[derive(Debug, Clone, Copy, PartialEq, Eq, Structural)]
pub struct ContentCustomization {
    pub code_complexity: CodeComplexity,
    pub explanation_verbosity: ExplanationVerbosity,
    pub focus_area: FocusArea,
    pub learning_goal: LearningGoal,
}

/// How quizzes are generated.
#[derive(Debug, Clone, Copy, PartialEq, Eq, Structural)]
pub struct QuestionGeneratorSettings {
    pub num_questions: usize,
    pub default_question_type: QuestionType,
    pub enable_application_generation: bool,
}

/// All settings.
#[derive(Debug, Clone)]
pub struct Config {
    pub model: String,
    pub learning_resources: LearningResources,
    pub content_customization: ContentCustomization,
    pub question_generator_settings: QuestionGeneratorSettings,
}

impl Default for Config {
    /// The settings of a learner who has chosen nothing yet.
    fn default() -> (config: Config)
        ensures
            config.model@ == DEFAULT_MODEL@,
            config.learning_resources == (LearningResources {
                show_official_docs: true,
                show_community_resources: true,
                show_crates_io: true,
                show_github_repos: true,
            }),
            config.content_customization == (ContentCustomization {
                code_complexity: CodeComplexity::Moderate,
                explanation_verbosity: ExplanationVerbosity::Moderate,
                focus_area: FocusArea::Balanced,
                learning_goal: LearningGoal::General,
            }),
            config.question_generator_settings == (QuestionGeneratorSettings {
                num_questions: 5,
                default_question_type: QuestionType::Multiple,
                enable_application_generation: true,
            }),
    {
        Config {
            model: DEFAULT_MODEL.to_owned(),
            learning_resources: LearningResources {
                show_official_docs: true,
                show_community_resources: true,
                show_crates_io: true,
                show_github_repos: true,
            },
            content_customization: ContentCustomization {
                code_complexity: CodeComplexity::Moderate,
                explanation_verbosity: ExplanationVerbosity::Moderate,
                focus_area: FocusArea::Balanced,
                learning_goal: LearningGoal::General,
            },
            question_generator_settings: QuestionGeneratorSettings {
                num_questions: 5,
                default_question_type: QuestionType::Multiple,
                enable_application_generation: true,
            },
        }
    }
}

/// The one place through which the settings are read and changed.
pub struct ConfigService {
    config: Config,
}

impl View for ConfigService {
    type V = Config;

    closed spec fn view(&self) -> Config {
        self.config
    }
}

impl ConfigService {
    /// A service over the given settings.
    pub fn new(config: Config) -> (service: ConfigService)
        ensures
            service@ == config,
    {
        ConfigService { config }
    }

    /// The settings.
    pub fn get_config(&self) -> (config: &Config)
        ensures
            *config == self@,
    {
        &self.config
    }

    /// Sets the model.
    pub fn update_model(&mut self, model: String)
        ensures
            final(self)@ == (Config { model, ..old(self)@ }),
    {
        self.config.model = model;
    }

    /// Which kinds of further reading are listed.
    pub fn get_learning_resources(&self) -> (resources: &LearningResources)
        ensures
            *resources == self@.learning_resources,
    {
        &self.config.learning_resources
    }

    /// Sets which kinds of further reading are listed.
    pub fn update_learning_resources(&mut self, resources: LearningResources)
        ensures
            final(self)@ == (Config { learning_resources: resources, ..old(self)@ }),
    {
        self.config.learning_resources = resources;
    }

    /// Switches the official documentation on or off.
    pub fn toggle_official_docs(&mut self)
        ensures
            final(self)@ == (Config {
                learning_resources: LearningResources {
                    show_official_docs: !old(self)@.learning_resources.show_official_docs,
                    ..old(self)@.learning_resources
                },
                ..old(self)@
            }),
    {
        self.config.learning_resources.show_official_docs =
            !self.config.learning_resources.show_official_docs;
    }

    /// Switches the community resources on or off.
    pub fn toggle_community_resources(&mut self)
        ensures
            final(self)@ == (Config {
                learning_resources: LearningResources {
                    show_community_resources: !old(
                        self,
                    )@.learning_resources.show_community_resources,
                    ..old(self)@.learning_resources
                },
                ..old(self)@
            }),
    {
        self.config.learning_resources.show_community_resources =
            !self.config.learning_resources.show_community_resources;
    }

    /// Switches the package registry links on or off.
    pub fn toggle_crates_io(&mut self)
        ensures
            final(self)@ == (Config {
                learning_resources: LearningResources {
                    show_crates_io: !old(self)@.learning_resources.show_crates_io,
                    ..old(self)@.learning_resources
                },
                ..old(self)@
            }),
    {
        self.config.learning_resources.show_crates_io =
            !self.config.learning_resources.show_crates_io;
    }

    /// Switches the repository links on or off.
    pub fn toggle_github_repos(&mut self)
        ensures
            final(self)@ == (Config {
                learning_resources: LearningResources {
                    show_github_repos: !old(self)@.learning_resources.show_github_repos,
                    ..old(self)@.learning_resources
                },
                ..old(self)@
            }),
    {
        self.config.learning_resources.show_github_repos =
            !self.config.learning_resources.show_github_repos;
    }

    /// How the generated content is shaped.
    pub fn get_content_customization(&self) -> (customization: &ContentCustomization)
        ensures
            *customization == self@.content_customization,
    {
        &self.config.content_customization
    }

    /// Sets how the generated content is shaped.
    pub fn update_content_customization(&mut self, customization: ContentCustomization)
        ensures
            final(self)@ == (Config { content_customization: customization, ..old(self)@ }),
    {
        self.config.content_customization = customization;
    }

    /// Sets how involved the code examples are.
    pub fn update_code_complexity(&mut self, complexity: CodeComplexity)
        ensures
            final(self)@ == (Config {
                content_customization: ContentCustomization {
                    code_complexity: complexity,
                    ..old(self)@.content_customization
                },
                ..old(self)@
            }),
    {
        self.config.content_customization.code_complexity = complexity;
    }

    /// Sets how long the explanations are.
    pub fn update_explanation_verbosity(&mut self, verbosity: ExplanationVerbosity)
        ensures
            final(self)@ == (Config {
                content_customization: ContentCustomization {
                    explanation_verbosity: verbosity,
                    ..old(self)@.content_customization
                },
                ..old(self)@
            }),
    {
        self.config.content_customization.explanation_verbosity = verbosity;
    }

    /// Sets what a module gives most room to.
    pub fn update_focus_area(&mut self, focus_area: FocusArea)
        ensures
            final(self)@ == (Config {
                content_customization: ContentCustomization {
                    focus_area,
                    ..old(self)@.content_customization
                },
                ..old(self)@
            }),
    {
        self.config.content_customization.focus_area = focus_area;
    }

    /// One question more, up to the most that stepping leads to.
    pub fn increment_num_questions(&mut self)
        ensures
            final(self)@ == (Config {
                question_generator_settings: QuestionGeneratorSettings {
                    num_questions: if old(self)@.question_generator_settings.num_questions
                        < MAX_QUESTIONS {
                        (old(self)@.question_generator_settings.num_questions + 1) as usize
                    } else {
                        old(self)@.question_generator_settings.num_questions
                    },
                    ..old(self)@.question_generator_settings
                },
                ..old(self)@
            }),
    {
        if self.config.question_generator_settings.num_questions < MAX_QUESTIONS {
            self.config.question_generator_settings.num_questions += 1;
        }
    }

    /// One question fewer, down to the fewest that stepping leads to.
    pub fn decrement_num_questions(&mut self)
        ensures
            final(self)@ == (Config {
                question_generator_settings: QuestionGeneratorSettings {
                    num_questions: if old(self)@.question_generator_settings.num_questions
                        > MIN_QUESTIONS {
                        (old(self)@.question_generator_settings.num_questions - 1) as usize
                    } else {
                        old(self)@.question_generator_settings.num_questions
                    },
                    ..old(self)@.question_generator_settings
                },
                ..old(self)@
            }),
    {
        if self.config.question_generator_settings.num_questions > MIN_QUESTIONS {
            self.config.question_generator_settings.num_questions -= 1;
        }
    }

    /// Steps the code complexity forward in its cycle.
    pub fn cycle_code_complexity(&mut self)
        ensures
            final(self)@ == (Config {
                content_customization: ContentCustomization {
                    code_complexity: old(self)@.content_customization.code_complexity.successor(),
                    ..old(self)@.content_customization
                },
                ..old(self)@
            }),
    {
        self.config.content_customization.code_complexity =
            self.config.content_customization.code_complexity.next();
    }

    /// Steps the code complexity backward in its cycle.
    pub fn cycle_code_complexity_reverse(&mut self)
        ensures
            final(self)@ == (Config {
                content_customization: ContentCustomization {
                    code_complexity: old(
                        self,
                    )@.content_customization.code_complexity.predecessor(),
                    ..old(self)@.content_customization
                },
                ..old(self)@
            }),
    {
        self.config.content_customization.code_complexity =
            self.config.content_customization.code_complexity.previous();
    }

    /// Steps the explanation length forward in its cycle.
    pub fn cycle_explanation_verbosity(&mut self)
        ensures
            final(self)@ == (Config {
                content_customization: ContentCustomization {
                    explanation_verbosity: old(
                        self,
                    )@.content_customization.explanation_verbosity.successor(),
                    ..old(self)@.content_customization
                },
                ..old(self)@
            }),
    {
        self.config.content_customization.explanation_verbosity =
            self.config.content_customization.explanation_verbosity.next();
    }

    /// Steps the explanation length backward in its cycle.
    pub fn cycle_explanation_verbosity_reverse(&mut self)
        ensures
            final(self)@ == (Config {
                content_customization: ContentCustomization {
                    explanation_verbosity: old(
                        self,
                    )@.content_customization.explanation_verbosity.predecessor(),
                    ..old(self)@.content_customization
                },
                ..old(self)@
            }),
    {
        self.config.content_customization.explanation_verbosity =
            self.config.content_customization.explanation_verbosity.previous();
    }

    /// Steps the focus forward in its cycle.
    pub fn cycle_focus_area(&mut self)
        ensures
            final(self)@ == (Config {
                content_customization: ContentCustomization {
                    focus_area: old(self)@.content_customization.focus_area.successor(),
                    ..old(self)@.content_customization
                },
                ..old(self)@
            }),
    {
        self.config.content_customization.focus_area =
            self.config.content_customization.focus_area.next();
    }

    /// Steps the focus backward in its cycle.
    pub fn cycle_focus_area_reverse(&mut self)
        ensures
            final(self)@ == (Config {
                content_customization: ContentCustomization {
                    focus_area: old(self)@.content_customization.focus_area.predecessor(),
                    ..old(self)@.content_customization
                },
                ..old(self)@
            }),
    {
        self.config.content_customization.focus_area =
            self.config.content_customization.focus_area.previous();
    }

    /// Steps the learning goal forward in its cycle.
    pub fn cycle_learning_goal(&mut self)
        ensures
            final(self)@ == (Config {
                content_customization: ContentCustomization {
                    learning_goal: old(self)@.content_customization.learning_goal.successor(),
                    ..old(self)@.content_customization
                },
                ..old(self)@
            }),
    {
        self.config.content_customization.learning_goal =
            self.config.content_customization.learning_goal.next();
    }

    /// Steps the learning goal backward in its cycle.
    pub fn cycle_learning_goal_reverse(&mut self)
        ensures
            final(self)@ == (Config {
                content_customization: ContentCustomization {
                    learning_goal: old(self)@.content_customization.learning_goal.predecessor(),
                    ..old(self)@.content_customization
                },
                ..old(self)@
            }),
    {
        self.config.content_customization.learning_goal =
            self.config.content_customization.learning_goal.previous();
    }

    /// How quizzes are generated.
    pub fn get_question_generator_settings(&self) -> (settings: &QuestionGeneratorSettings)
        ensures
            *settings == self@.question_generator_settings,
    {
        &self.config.question_generator_settings
    }

    /// Sets how quizzes are generated.
    pub fn update_question_generator_settings(&mut self, settings: QuestionGeneratorSettings)
        ensures
            final(self)@ == (Config { question_generator_settings: settings, ..old(self)@ }),
    {
        self.config.question_generator_settings = settings;
    }

    /// Sets the number of questions.
    pub fn update_num_questions(&mut self, num_questions: usize)
        ensures
            final(self)@ == (Config {
                question_generator_settings: QuestionGeneratorSettings {
                    num_questions,
                    ..old(self)@.question_generator_settings
                },
                ..old(self)@
            }),
    {
        self.config.question_generator_settings.num_questions = num_questions;
    }

    /// Sets the kind of question asked for.
    pub fn update_default_question_type(&mut self, question_type: QuestionType)
        ensures
            final(self)@ == (Config {
                question_generator_settings: QuestionGeneratorSettings {
                    default_question_type: question_type,
                    ..old(self)@.question_generator_settings
                },
                ..old(self)@
            }),
    {
        self.config.question_generator_settings.default_question_type = question_type;
    }

    /// Switches the generation of an application on or off.
    pub fn toggle_application_generation(&mut self)
        ensures
            final(self)@ == (Config {
                question_generator_settings: QuestionGeneratorSettings {
                    enable_application_generation: !old(
                        self,
                    )@.question_generator_settings.enable_application_generation,
                    ..old(self)@.question_generator_settings
                },
                ..old(self)@
            }),
    {
        self.config.question_generator_settings.enable_application_generation =
            !self.config.question_generator_settings.enable_application_generation;
    }

    /// Switches to the other kind of question.
    pub fn cycle_question_type(&mut self)
        ensures
            final(self)@ == (Config {
                question_generator_settings: QuestionGeneratorSettings {
                    default_question_type: other_question_type(
                        old(self)@.question_generator_settings.default_question_type,
                    ),
                    ..old(self)@.question_generator_settings
                },
                ..old(self)@
            }),
    {
        self.config.question_generator_settings.default_question_type =
            match self.config.question_generator_settings.default_question_type {
                QuestionType::Binary => QuestionType::Multiple,
                QuestionType::Multiple => QuestionType::Binary,
            };
    }
}

} // verus!
