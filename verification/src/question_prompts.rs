//! The requests for a quiz and for an application.

use crate::learning_goal::LearningGoal;
use crate::question_generator::{
    AnswerOption, AnswerOptionView, Question, QuestionSet, QuestionType, QuestionView,
    option_views, question_views,
};
use crate::template::{binding_views, fill, filled, same_text, Binding, BindingView};
use crate::text::{chars_of, decimal_text, push_all, push_decimal, push_str, string_of};
use vstd::prelude::*;

verus! {

/// The request for a quiz, with places for the topic, the learning goal,
/// the kind of question and the number of questions.
pub const QUESTIONS_PROMPT: &'static str = r#"
You are **RustMentor**, an AI assistant specialized in teaching Rust programming through hands-on application development.

Your task is to generate `{num_questions}` with `{question_type}` questions about creative and engaging questions about `{topic}` in the context of `{learning_goal}`. These questions are not meant to assess knowledge directly, but to **explore user preferences, goals, and inspirations** — ultimately guiding an LLM to generate a **unique Rust application** tailored to the user’s responses.

The questions should cover:

* The desired *application type or use case*
* Preferred *features or modules*
* Relevant *subtopics* or *technologies*
* Possible *styles*, *formats*, or *interaction modes*
* Any innovative or unexpected directions the app could take
* If the question contains multiple options (See examples)  then the answer section should include multiple options and not an answer with only Yes No options.

Example 1 ( `Multiple` question type multiple choice answers ):
----------------
Question:
Imagine you could build a Rust application that helps people explore their creativity.
Would you be more interested in an application that:

Answer Options:
(1) Generates abstract art based on user-defined mathematical functions and color palettes?
(2) Creates interactive musical compositions driven by real-time sensor data (like microphone input or accelerometer)?
(3) Develops a collaborative storytelling platform using Rust's concurrency features for multiple writers?
(4) Constructs a procedurally generated world for a text-based adventure game where the world's geography and lore are dynamically created?
----------------

Example 2  ( `Binary` question type yes no answers ):
----------------
Question: Would you prefer your Rust application to be more sutable for addults in terms of font size ?
(Y) Yes   (N) No
----------------


* You should mix **binary (yes/no)** and **multiple choice** (with 4 imaginative options) question types.
* Multiple choice questions should include varied and creative options that spark curiosity and decision-making.
* Fill in blanks with **inventive**, **fun**, or **technically intriguing** ideas, always within the boundaries of `{topic}` and `{learning_goal}`.

For each question, include:

1. The question text
2. The question type: `binary` or `multiple`
3. For multiple choice, provide 4 options labeled `1–4` with parentheses eg. (1) (2) (3) (4),
4. For yes no questions only, provide 2 options labeled `Y` `N` with parentheses eg. (Y) (N),


**Format the output like this:**

```
<<<question:1>>>
[QUESTION TEXT ONLY - WITHOUT OPTIONS]
[TYPE: multiple]
[OPTIONS (only for multiple choice):
(1) Option 1
(2) Option 2
(3) Option 3
(4) Option 4]
<<<end>>>

<<<question:2>>>
[QUESTION TEXT ONLY - WITHOUT OPTIONS]
[TYPE: binary]
[YESNO (only for yes no choice):
(Y) Yes
(N) No]
<<<end>>>
```

Make sure all questions help steer the LLM toward designing a complete, compelling, and technically educational **Rust app**, aligned with the topic `{topic}` and the learner’s goal `{learning_goal}`.
"#;

/// How the request for an application begins, with a place for the topic.
pub const APPLICATION_PROMPT_HEAD: &'static str = r#"You are RustMentor, an AI assistant specialized in teaching Rust programming.

Based on the following questions and answers about {topic}, I need you to generate a Rust application that demonstrates the concepts covered.

"#;

/// How the request for an application ends.
pub const APPLICATION_PROMPT_TAIL: &'static str = r#"
Generate a Rust application that:
1. Is relevant to the topic and the user's answers
2. Demonstrates the concepts covered in the questions
3. Is functional and can be compiled and run

Format your response as follows:

<<<application_name>>>
[NAME OF THE APPLICATION]
<<<end>>>

<<<application_description>>>
[DESCRIPTION OF THE APPLICATION]
<<<end>>>

<<<application_features>>>
- [FEATURE 1]
- [FEATURE 2]
- ...
<<<end>>>

<<<code_snippet:Main Code>>>
[MAIN CODE OF THE APPLICATION]
<<<end>>>

<<<code_snippet:Additional Module 1>>>
[CODE FOR ADDITIONAL MODULE]
<<<end>>>

You can include more code snippets as needed.
"#;

/// What fills the places of the request for a quiz.
pub open spec fn questions_prompt_bindings(
    topic: Seq<char>,
    goal: LearningGoal,
    kind: QuestionType,
    count: usize,
) -> Seq<BindingView> {
    seq![
        BindingView { name: "topic"@, value: topic },
        BindingView { name: "learning_goal"@, value: goal.name_text() },
        BindingView { name: "question_type"@, value: kind.label_text() },
        BindingView { name: "num_questions"@, value: decimal_text(count as nat) },
    ]
}

/// The request for a quiz on a topic.
pub open spec fn questions_prompt(
    topic: Seq<char>,
    goal: LearningGoal,
    kind: QuestionType,
    count: usize,
) -> Seq<char> {
    fill(QUESTIONS_PROMPT@, questions_prompt_bindings(topic, goal, kind, count))
}

/// Writes the request for `num_questions` questions on `topic`.
pub fn create_questions_prompt(
    topic: &str,
    learning_goal: &LearningGoal,
    question_type: QuestionType,
    num_questions: usize,
) -> (prompt: String)
    ensures
        prompt@ == questions_prompt(topic@, *learning_goal, question_type, num_questions),
{
    let goal = learning_goal.name();
    let kind = question_type.label();
    let mut count: Vec<char> = Vec::new();
    push_decimal(&mut count, num_questions as u64);
    assert(count@ =~= decimal_text(num_questions as nat));
    let count_text = string_of(count.as_slice());
    let mut bindings: Vec<Binding> = Vec::new();
    bindings.push(Binding::new("topic", topic));
    bindings.push(Binding::new("learning_goal", goal.as_str()));
    bindings.push(Binding::new("question_type", kind.as_str()));
    bindings.push(Binding::new("num_questions", count_text.as_str()));
    assert(binding_views(bindings@) =~= questions_prompt_bindings(
        topic@,
        *learning_goal,
        question_type,
        num_questions,
    ));
    filled(QUESTIONS_PROMPT, &bindings)
}

/// Place of the first option labelled `id`, or the number of options.
pub open spec fn option_index(options: Seq<AnswerOptionView>, id: Seq<char>) -> int
    decreases options.len(),
{
    if options.len() == 0 || options[0].id == id {
        0
    } else {
        1 + option_index(options.drop_first(), id)
    }
}

/// `option_index` is the least place of an option labelled `id`.
pub proof fn lemma_option_index(options: Seq<AnswerOptionView>, id: Seq<char>)
    ensures
        0 <= option_index(options, id) <= options.len(),
        option_index(options, id) < options.len() ==> options[option_index(options, id)].id
            == id,
        forall|i: int| 0 <= i < option_index(options, id) ==> options[i].id != id,
    decreases options.len(),
{
    if options.len() == 0 || options[0].id == id {
    } else {
        let rest = options.drop_first();
        lemma_option_index(rest, id);
        assert forall|i: int| 0 <= i < option_index(options, id) implies options[i].id != id by {
            if i > 0 {
                assert(options[i] == rest[i - 1]);
            }
        }
    }
}

/// What the request for an application says of one question: the
/// question, and its answer if it has one; for a multiple-choice question
/// the text of the option that the answer names follows in parentheses.
pub open spec fn question_lines(q: QuestionView) -> Seq<char> {
    let asked = "Question: "@ + q.text + "\n"@;
    match q.selected_answer {
        None => asked,
        Some(answer) => {
            let k = option_index(q.options, answer);
            if q.kind == QuestionType::Multiple && 0 <= k < q.options.len() {
                asked + "Answer: "@ + answer + " ("@ + q.options[k].text + ")\n\n"@
            } else {
                asked + "Answer: "@ + answer + "\n\n"@
            }
        },
    }
}

/// What the request for an application says of the given questions.
pub open spec fn all_question_lines(questions: Seq<QuestionView>) -> Seq<char>
    decreases questions.len(),
{
    if questions.len() == 0 {
        Seq::empty()
    } else {
        all_question_lines(questions.drop_last()) + question_lines(questions.last())
    }
}

/// The request for an application, made from a quiz and its answers.
pub open spec fn application_prompt(topic: Seq<char>, questions: Seq<QuestionView>) -> Seq<char> {
    fill(APPLICATION_PROMPT_HEAD@, seq![BindingView { name: "topic"@, value: topic }])
        + all_question_lines(questions) + APPLICATION_PROMPT_TAIL@
}

/// Finds the first option labelled `id`.
fn find_option(options: &Vec<AnswerOption>, id: &[char]) -> (k: usize)
    ensures
        k == option_index(option_views(options@), id@),
        k <= options.len(),
{
    let mut i: usize = 0;
    let ghost views = option_views(options@);
    while i < options.len()
        invariant
            i <= options.len(),
            views == option_views(options@),
            forall|j: int| 0 <= j < i ==> views[j].id != id@,
        decreases options.len() - i,
    {
        let candidate = chars_of(options[i].id.as_str());
        assert(views[i as int].id == candidate@);
        if same_text(candidate.as_slice(), id) {
            proof {
                lemma_option_index(views, id@);
            }
            return i;
        }
        i += 1;
    }
    proof {
        lemma_option_index(views, id@);
    }
    i
}

/// Appends what the request says of one question.
fn push_question_lines(text: &mut Vec<char>, question: &Question)
    ensures
        final(text)@ == old(text)@ + question_lines(question@),
{
    push_str(text, "Question: ");
    push_str(text, question.text.as_str());
    push_str(text, "\n");
    match &question.selected_answer {
        None => {
            assert(text@ =~= old(text)@ + question_lines(question@));
        },
        Some(answer) => {
            let id = chars_of(answer.as_str());
            push_str(text, "Answer: ");
            push_all(text, id.as_slice());
            let k = find_option(&question.options, id.as_slice());
            let multiple = match question.question_type {
                QuestionType::Multiple => true,
                QuestionType::Binary => false,
            };
            if multiple && k < question.options.len() {
                push_str(text, " (");
                push_str(text, question.options[k].text.as_str());
                push_str(text, ")\n\n");
                assert(question@.options[k as int].text == question.options[k as int].text@);
                assert(text@ =~= old(text)@ + question_lines(question@));
            } else {
                push_str(text, "\n\n");
                assert(text@ =~= old(text)@ + question_lines(question@));
            }
        },
    }
}

/// Writes the request for an application from a quiz and its answers.
pub fn create_application_prompt(question_set: &QuestionSet) -> (prompt: String)
    ensures
        prompt@ == application_prompt(question_set@.topic, question_set@.questions),
{
    let mut bindings: Vec<Binding> = Vec::new();
    bindings.push(Binding::new("topic", question_set.topic.as_str()));
    assert(binding_views(bindings@) =~= seq![
        BindingView { name: "topic"@, value: question_set@.topic },
    ]);
    let head = filled(APPLICATION_PROMPT_HEAD, &bindings);
    let mut text = chars_of(head.as_str());
    let ghost start = text@;
    let ghost all = question_set@.questions;
    let mut i: usize = 0;
    assert(all.take(0) =~= Seq::<QuestionView>::empty());
    assert(start + Seq::<char>::empty() =~= start);
    while i < question_set.questions.len()
        invariant
            i <= question_set.questions.len(),
            all == question_views(question_set.questions@),
            text@ == start + all_question_lines(all.take(i as int)),
        decreases question_set.questions.len() - i,
    {
        assert(all.take(i + 1).drop_last() =~= all.take(i as int));
        let ghost before = all_question_lines(all.take(i as int));
        push_question_lines(&mut text, &question_set.questions[i]);
        assert(text@ =~= start + (before + question_lines(all[i as int])));
        i += 1;
    }
    assert(all.take(i as int) =~= all);
    push_str(&mut text, APPLICATION_PROMPT_TAIL);
    string_of(text.as_slice())
}

} // verus!
