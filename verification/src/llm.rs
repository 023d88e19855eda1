//! The request for a learning module, and the module made from the answer.

use crate::config::{CodeComplexity, ContentCustomization, ExplanationVerbosity, FocusArea};
use crate::data::Topic;
use crate::learning_module::{LearningModule, LearningModuleView};
use crate::prompt_response::{
    parse_tutoring, CodeSnippet, CodeSnippetView, Exercise, ExerciseView, PromptResponse,
    snippet_views, exercise_views,
};
use crate::template::{binding_views, fill, filled, Binding, BindingView};
use crate::text::{push_str, string_of};
use vstd::prelude::*;

verus! {

/// The request for a learning module, with places for the topic, the
/// level and the learner's preferences.
pub const MODULE_PROMPT: &'static str = r#"
You are an expert Rust programming language tutor and a specialist in generating structured data.
Your task is to create a learning module about the topic '{topic}' for a Rust programmer at the '{level_description}' level.

**Output Formatting Rules:**
- Your output should be *only* the text of the prompt described above.
- Do not include any conversational text or explanations outside of the prompt itself.
- Structure the entire output clearly using the following delimiters.
- Ensure the "explanation",  "exercise descriptions" sections are valid Markdown.
- Ensure "exercise code"  sections are valid RUST language code.
- Output Structure Structure: 

    ```
    <<<explanation: [explanation title]>>>
    [Detailed explanation for the topic ...]

    <<<code_snippet 1: [code snippets title 1]>>>
    // code snippet: [ code snippet description 1]
    [ The actual example code snippet 1 ... ]

    <<<code_snippet 2: [code snippet title 2]>>>
    // code snippet: [ code snippet description 2]
    [ The actual example code snippet 2 ... ]

    <<<code_snippet n: [code snippet title n]>>>
    // code snippet: [ code snippet description n]
    [ The actual example code snippet n ... ]

    <<<exercise 1: [ exercise name 1 ]>>>
    // exercise description: [  exercise description 1 ]
    [ The actual exercise 1 code ... ]

    <<<exercise 2: [ exercise name 2 ]>>>
    // exercise description: [ exercise description 2] 
    [ The actual exercise 2 code ... ]

    <<<exercise n: [ exercise name n ]>>>
    // exercise description: [ exercise description n] 
    [ The actual exercise n code ... ]

    ```

**Content Guidelines:**
-   `explanation`: Provide a {verbosity_text} explanation of the topic, tailored to the '{level_description}' level.
-   `code_snippets`: Provide several complete, runnable, and well-commented Rust code examples. The code should be {complexity_text}, appropriate for the target level.
-   `exercises`: Provide several distinct practice exercises. They should be clear problem statements that allow the user to apply the concepts from the explanation and code snippets.
-   {focus_instruction}

**Request:**
Generate the learning module for topic '{topic}' at the '{level_description}' level, following all rules above.
Source of this topic: {source}
"#;

/// What is reported where no key for the service is set.
pub const MISSING_KEY_MESSAGE: &'static str =
    "OpenRouter API key is not set. Please set the OPENROUTER_API_KEY environment variable.";

/// What stands in place of code examples where the answer holds none.
pub const NO_SNIPPETS: &'static str = "No code examples provided";

/// What stands in place of exercises where the answer holds none.
pub const NO_EXERCISES: &'static str = "No exercises provided";

/// What stands before a placeholder's description and body.
pub const COMMENT_HEAD: &'static str = "// ";

/// Name of a level from 1 to 10 in a request; a level outside that range
/// is named like level 4.
pub open spec fn level_name(level: u8) -> Seq<char> {
    match level {
        1u8 => "Absolute Beginner"@,
        2u8 => "Beginner"@,
        3u8 => "Early Intermediate"@,
        4u8 => "Intermediate"@,
        5u8 => "Solid Intermediate"@,
        6u8 => "Advanced Intermediate"@,
        7u8 => "Early Advanced"@,
        8u8 => "Advanced"@,
        9u8 => "Very Advanced"@,
        10u8 => "Expert"@,
        _ => "Intermediate"@,
    }
}

/// How a request words the code complexity.
pub open spec fn complexity_words(complexity: CodeComplexity) -> Seq<char> {
    match complexity {
        CodeComplexity::Simple => "simple and straightforward"@,
        CodeComplexity::Moderate => "moderately complex"@,
        CodeComplexity::Complex => "complex and advanced"@,
    }
}

/// How a request words the length of the explanation.
pub open spec fn verbosity_words(verbosity: ExplanationVerbosity) -> Seq<char> {
    match verbosity {
        ExplanationVerbosity::Concise => "concise and to-the-point"@,
        ExplanationVerbosity::Moderate => "moderately detailed"@,
        ExplanationVerbosity::Detailed => "highly detailed and comprehensive"@,
    }
}

/// How a request words the focus.
pub open spec fn focus_words(focus: FocusArea) -> Seq<char> {
    match focus {
        FocusArea::Concepts =>
            "Focus more on explaining concepts than on code examples or exercises."@,
        FocusArea::CodeExamples =>
            "Focus more on providing code examples than on concepts or exercises."@,
        FocusArea::Exercises =>
            "Focus more on providing exercises than on concepts or code examples."@,
        FocusArea::Balanced =>
            "Provide a balanced mix of concepts, code examples, and exercises."@,
    }
}

/// Name of a level in a request.
pub fn level_description(level: u8) -> (name: &'static str)
    ensures
        name@ == level_name(level),
{
    match level {
        1 => "Absolute Beginner",
        2 => "Beginner",
        3 => "Early Intermediate",
        4 => "Intermediate",
        5 => "Solid Intermediate",
        6 => "Advanced Intermediate",
        7 => "Early Advanced",
        8 => "Advanced",
        9 => "Very Advanced",
        10 => "Expert",
        _ => "Intermediate",
    }
}

/// What fills the places of the request for a module.
pub open spec fn module_prompt_bindings(
    topic: Seq<char>,
    source: Seq<char>,
    level: u8,
    customization: ContentCustomization,
) -> Seq<BindingView> {
    seq![
        BindingView { name: "topic"@, value: topic },
        BindingView { name: "level_description"@, value: level_name(level) },
        BindingView { name: "source"@, value: source },
        BindingView {
            name: "verbosity_text"@,
            value: verbosity_words(customization.explanation_verbosity),
        },
        BindingView {
            name: "complexity_text"@,
            value: complexity_words(customization.code_complexity),
        },
        BindingView { name: "focus_instruction"@, value: focus_words(customization.focus_area) },
    ]
}

/// The request for a module on a topic.
pub open spec fn module_prompt(
    topic: Seq<char>,
    source: Seq<char>,
    level: u8,
    customization: ContentCustomization,
) -> Seq<char> {
    fill(MODULE_PROMPT@, module_prompt_bindings(topic, source, level, customization))
}

/// Writes the request for a module on `topic` for a learner of level
/// `level`.
pub fn create_prompt(topic: &Topic, level: u8, customization: &ContentCustomization) -> (prompt:
    String)
    ensures
        prompt@ == module_prompt(topic.topic@, topic.source@, level, *customization),
{
    let complexity = match customization.code_complexity {
        CodeComplexity::Simple => "simple and straightforward",
        CodeComplexity::Moderate => "moderately complex",
        CodeComplexity::Complex => "complex and advanced",
    };
    let verbosity = match customization.explanation_verbosity {
        ExplanationVerbosity::Concise => "concise and to-the-point",
        ExplanationVerbosity::Moderate => "moderately detailed",
        ExplanationVerbosity::Detailed => "highly detailed and comprehensive",
    };
    let focus = match customization.focus_area {
        FocusArea::Concepts =>
            "Focus more on explaining concepts than on code examples or exercises.",
        FocusArea::CodeExamples =>
            "Focus more on providing code examples than on concepts or exercises.",
        FocusArea::Exercises =>
            "Focus more on providing exercises than on concepts or code examples.",
        FocusArea::Balanced => "Provide a balanced mix of concepts, code examples, and exercises.",
    };
    let mut bindings: Vec<Binding> = Vec::new();
    bindings.push(Binding::new("topic", topic.topic.as_str()));
    bindings.push(Binding::new("level_description", level_description(level)));
    bindings.push(Binding::new("source", topic.source.as_str()));
    bindings.push(Binding::new("verbosity_text", verbosity));
    bindings.push(Binding::new("complexity_text", complexity));
    bindings.push(Binding::new("focus_instruction", focus));
    assert(binding_views(bindings@) =~= module_prompt_bindings(
        topic.topic@,
        topic.source@,
        level,
        *customization,
    ));
    filled(MODULE_PROMPT, &bindings)
}

/// The code snippet that stands in where an answer holds none.
pub open spec fn placeholder_snippet() -> CodeSnippetView {
    CodeSnippetView {
        title: NO_SNIPPETS@,
        description: COMMENT_HEAD@ + NO_SNIPPETS@,
        code: COMMENT_HEAD@ + NO_SNIPPETS@,
    }
}

/// The exercise that stands in where an answer holds none.
pub open spec fn placeholder_exercise() -> ExerciseView {
    ExerciseView {
        name: NO_EXERCISES@,
        description: COMMENT_HEAD@ + NO_EXERCISES@,
        code: COMMENT_HEAD@ + NO_EXERCISES@,
    }
}

/// The module made from what the tutoring-module grammar found: the lists
/// as found, each replaced by its one placeholder where it is empty, and
/// no further reading yet.
pub open spec fn module_from(topic: Seq<char>, found: crate::prompt_response::PromptResponseView) -> LearningModuleView {
    LearningModuleView {
        topic,
        explanation: found.explanation,
        code_snippets: if found.code_snippets.len() == 0 {
            seq![placeholder_snippet()]
        } else {
            found.code_snippets
        },
        exercises: if found.exercises.len() == 0 {
            seq![placeholder_exercise()]
        } else {
            found.exercises
        },
        additional_resources: None,
    }
}

/// A text made of two parts.
fn joined(head: &str, tail: &str) -> (s: String)
    ensures
        s@ == head@ + tail@,
{
    let mut text: Vec<char> = Vec::new();
    push_str(&mut text, head);
    push_str(&mut text, tail);
    string_of(text.as_slice())
}

/// Makes the module on `topic` from the answer to its request.
pub fn parse_response(response: String, topic: &Topic) -> (module: LearningModule)
    ensures
        module@ == module_from(topic.topic@, parse_tutoring(response@)),
{
    match PromptResponse::parse_response(response) {
        Ok(found) => {
            let code_snippets = if found.code_snippets.len() == 0 {
                let mut list: Vec<CodeSnippet> = Vec::new();
                let snippet = CodeSnippet {
                    title: NO_SNIPPETS.to_owned(),
                    description: joined(COMMENT_HEAD, NO_SNIPPETS),
                    code: joined(COMMENT_HEAD, NO_SNIPPETS),
                };
                list.push(snippet);
                assert(snippet_views(list@) =~= seq![placeholder_snippet()]);
                list
            } else {
                found.code_snippets
            };
            let exercises = if found.exercises.len() == 0 {
                let mut list: Vec<Exercise> = Vec::new();
                let exercise = Exercise {
                    name: NO_EXERCISES.to_owned(),
                    description: joined(COMMENT_HEAD, NO_EXERCISES),
                    code: joined(COMMENT_HEAD, NO_EXERCISES),
                };
                list.push(exercise);
                assert(exercise_views(list@) =~= seq![placeholder_exercise()]);
                list
            } else {
                found.exercises
            };
            LearningModule {
                topic: topic.topic.clone(),
                explanation: found.explanation,
                code_snippets,
                exercises,
                additional_resources: None,
            }
        },
        Err(_) => {
            proof {
                assert(false);
            }
            LearningModule {
                topic: topic.topic.clone(),
                explanation: String::new(),
                code_snippets: Vec::new(),
                exercises: Vec::new(),
                additional_resources: None,
            }
        },
    }
}

} // verus!
