//! What holds of every reading of a text.

use crate::prompt_response::{
    initial_state, parse_tutoring, scan_from, step, CodeSnippetView, ExerciseView, ScanState,
};
use crate::question_generator::{
    parse_questions, quiz_scan_from, quiz_start, with_closed_question, QuestionView, QuizScan,
};
use crate::text::lines;
use vstd::prelude::*;

verus! {

/// Whether every snippet and exercise has a title and a body.
pub open spec fn records_complete(
    snippets: Seq<CodeSnippetView>,
    exercises: Seq<ExerciseView>,
) -> bool {
    &&& forall|i: int|
        0 <= i < snippets.len() ==> (#[trigger] snippets[i]).title.len() > 0
            && snippets[i].code.len() > 0
    &&& forall|i: int|
        0 <= i < exercises.len() ==> (#[trigger] exercises[i]).name.len() > 0
            && exercises[i].code.len() > 0
}

/// One more line leaves every record that was found complete.
proof fn lemma_step_keeps_complete(st: ScanState, raw: Seq<char>)
    requires
        records_complete(st.snippets, st.exercises),
    ensures
        records_complete(step(st, raw).snippets, step(st, raw).exercises),
{
}

/// Every record found by a scan is complete.
proof fn lemma_scan_keeps_complete(lines: Seq<Seq<char>>)
    ensures
        records_complete(
            scan_from(initial_state(), lines).snippets,
            scan_from(initial_state(), lines).exercises,
        ),
    decreases lines.len(),
{
    if lines.len() > 0 {
        lemma_scan_keeps_complete(lines.drop_last());
        lemma_step_keeps_complete(scan_from(initial_state(), lines.drop_last()), lines.last());
    }
}

/// No reading holds a code snippet or an exercise without a title or
/// without a body: a marker that nothing follows leaves no record.
pub proof fn lemma_tutoring_records_complete(text: Seq<char>)
    ensures
        records_complete(parse_tutoring(text).code_snippets, parse_tutoring(text).exercises),
{
    lemma_scan_keeps_complete(lines(text));
}

/// A text of one line holds no code snippet and no exercise, whatever the
/// line is: a marker alone opens a record that is never filled.
pub proof fn lemma_one_line_holds_no_record(text: Seq<char>)
    requires
        lines(text).len() <= 1,
    ensures
        parse_tutoring(text).code_snippets.len() == 0,
        parse_tutoring(text).exercises.len() == 0,
{
    let ls = lines(text);
    if ls.len() == 1 {
        assert(ls.drop_last() =~= Seq::<Seq<char>>::empty());
        assert(scan_from(initial_state(), ls) == step(
            scan_from(initial_state(), ls.drop_last()),
            ls.last(),
        ));
        assert(scan_from(initial_state(), ls.drop_last()) == initial_state());
    }
}

/// Reading is a function of the text: two readings of one text are the
/// same record, field for field.
pub proof fn lemma_reading_is_repeatable(first: Seq<char>, second: Seq<char>)
    requires
        first == second,
    ensures
        parse_tutoring(first) == parse_tutoring(second),
        parse_questions(first) == parse_questions(second),
        forall|topic: Seq<char>|
            crate::question_generator::parse_application(first, topic)
                == crate::question_generator::parse_application(second, topic),
{
}

/// Whether the questions are numbered by their places, unanswered, and
/// within their invariant.
pub open spec fn questions_fresh(questions: Seq<QuestionView>) -> bool {
    forall|i: int|
        0 <= i < questions.len() ==> {
            &&& (#[trigger] questions[i]).id == i
            &&& questions[i].selected_answer.is_none()
            &&& questions[i].text.len() > 0
            &&& questions[i].well_formed()
        }
}

/// Closing the staged question leaves the questions fresh.
proof fn lemma_closed_question_fresh(st: QuizScan)
    requires
        questions_fresh(st.questions),
    ensures
        questions_fresh(with_closed_question(st)),
{
    let closed = with_closed_question(st);
    assert forall|i: int| 0 <= i < closed.len() implies {
        &&& (#[trigger] closed[i]).id == i
        &&& closed[i].selected_answer.is_none()
        &&& closed[i].text.len() > 0
        &&& closed[i].well_formed()
    } by {
        if i < st.questions.len() {
            assert(closed[i] == st.questions[i]);
        }
    }
}

/// Every question found by a scan is fresh.
proof fn lemma_quiz_scan_fresh(lines: Seq<Seq<char>>)
    ensures
        questions_fresh(quiz_scan_from(quiz_start(), lines).questions),
    decreases lines.len(),
{
    if lines.len() > 0 {
        let before = quiz_scan_from(quiz_start(), lines.drop_last());
        lemma_quiz_scan_fresh(lines.drop_last());
        lemma_closed_question_fresh(before);
    }
}

/// The questions of every reading are numbered from 0 by their places,
/// have a text and no answer, and meet their invariant: a yes/no question
/// has no options.
pub proof fn lemma_questions_fresh(text: Seq<char>)
    ensures
        questions_fresh(parse_questions(text)),
{
    lemma_quiz_scan_fresh(lines(text));
    lemma_closed_question_fresh(quiz_scan_from(quiz_start(), lines(text)));
}

/// The questions of every reading meet their invariant.
pub proof fn lemma_questions_well_formed(text: Seq<char>)
    ensures
        forall|i: int|
            0 <= i < parse_questions(text).len() ==> (#[trigger] parse_questions(
                text,
            )[i]).well_formed(),
{
    lemma_questions_fresh(text);
}

} // verus!
