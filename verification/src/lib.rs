//! Structured tutoring content recovered from generated text, and the session
//! state machine that walks a learner through it.
//!
//! The text comes in three line-oriented grammars. `prompt_response` reads
//! the tutoring-module grammar, `question_generator` the question-set and
//! the application grammar; each reading is a function of the text, given
//! as a scan over its lines. `round_trip`, `application_round_trip` and
//! `quiz_round_trip` write records in the grammars and prove that they are
//! read back as they were written; `grammar_laws` holds what is true of
//! every reading.
//!
//! `app` is the session: a state machine that takes keys, ticks and
//! deliveries and answers each with the new state and with what its caller
//! has to do. It never waits and does no input or output itself.
//! `session_laws` holds what is true after every event.
//!
//! The rest works out what the session needs: requests (`llm`,
//! `question_prompts`, `template`), modules and further reading
//! (`learning_module`), topics (`data`), settings (`config`,
//! `learning_goal`), project files (`cargo_project`), screen texts (`ui`),
//! and the operations on text on which all of it rests (`text`).

pub mod app;
pub mod application_round_trip;
pub mod cargo_project;
pub mod config;
pub mod data;
pub mod grammar_laws;
pub mod learning_goal;
pub mod learning_module;
pub mod llm;
pub mod prompt_response;
pub mod question_generator;
pub mod question_prompts;
pub mod quiz_round_trip;
pub mod round_trip;
pub mod session_laws;
pub mod template;
pub mod text;
pub mod ui;
