//! Writing questions in the question-set grammar, and reading them back.
//!
//! Which lines the option pattern matches is left to the pattern search.
//! So a question with options is read back as it was written as far as
//! the search finds each of its options on the line that was written for
//! it; `faithful_option` says so.

use crate::prompt_response::strip_fences;
use crate::question_generator::{
    append_words, kind_on_line, option_on_line, parse_questions, quiz_line, quiz_scan_from,
    quiz_start, quiz_step, with_closed_question, AnswerOptionView, QuestionType, QuestionView,
    QuizScan, FIELD_CLOSE, FIELD_OPEN, MARKER_CLOSE, MULTIPLE_WORD, OPTIONS_FIELD, OPTION_START,
    QUESTION_OPEN, RECORD_END, TYPE_FIELD, YESNO_FIELD,
};
use crate::question_generator::Question;
use crate::round_trip::{
    all_whole, has_char, has_fence, joined_lines, lemma_all_whole_concat, lemma_decimal_digits,
    lemma_differs_at, lemma_framed_fence, lemma_joined_lines_concat, lemma_joined_lines_push,
    lemma_joined_one, lemma_lines_of_joined, lemma_remove_all_absent, lemma_strip_fences_plain,
    push_line, whole_line,
};
use crate::text::{push_decimal, push_str, string_of};
use crate::text::{
    contains_ignoring_ascii_case, decimal_text, ends_with, is_whitespace, lines,
    matches_ignoring_ascii_case, occurs_at, remove_all, skip_leading, skip_trailing,
    starts_with, trim, CharClass,
};
use vstd::prelude::*;

verus! {

/// Word that marks a yes/no question.
pub open spec fn binary_word() -> Seq<char> {
    seq!['b', 'i', 'n', 'a', 'r', 'y']
}

/// The line that opens the question of number `number`.
pub open spec fn question_marker(number: nat) -> Seq<char> {
    QUESTION_OPEN@ + decimal_text(number) + MARKER_CLOSE@
}

/// The line that gives the kind of a question.
pub open spec fn kind_line(kind: QuestionType) -> Seq<char> {
    TYPE_FIELD@ + seq![' '] + match kind {
        QuestionType::Multiple => MULTIPLE_WORD@,
        QuestionType::Binary => binary_word(),
    } + FIELD_CLOSE@
}

/// The line of an option: the label in parentheses, a blank, the text.
pub open spec fn option_line(o: AnswerOptionView) -> Seq<char> {
    OPTION_START@ + o.id + seq![')', ' '] + o.text
}

/// The lines of the given options.
pub open spec fn option_lines(options: Seq<AnswerOptionView>) -> Seq<Seq<char>> {
    options.map_values(|o: AnswerOptionView| option_line(o))
}

/// The lines that list the options of a question: none for a yes/no
/// question.
pub open spec fn options_block(q: QuestionView) -> Seq<Seq<char>> {
    if q.kind == QuestionType::Multiple {
        seq![OPTIONS_FIELD@] + option_lines(q.options) + seq![FIELD_CLOSE@]
    } else {
        Seq::empty()
    }
}

/// The lines of a question with the number `number`.
pub open spec fn question_lines_of(q: QuestionView, number: nat) -> Seq<Seq<char>> {
    seq![question_marker(number), q.text, kind_line(q.kind)] + options_block(q) + seq![
        RECORD_END@,
    ]
}

/// The lines of the given questions, numbered from `done + 1`.
pub open spec fn all_question_lines_of(questions: Seq<QuestionView>, done: nat) -> Seq<Seq<char>>
    decreases questions.len(),
{
    if questions.len() == 0 {
        Seq::empty()
    } else {
        question_lines_of(questions[0], done + 1) + all_question_lines_of(
            questions.drop_first(),
            done + 1,
        )
    }
}

/// Questions written in the question-set grammar.
pub open spec fn render_questions(questions: Seq<QuestionView>) -> Seq<char> {
    joined_lines(all_question_lines_of(questions, 0))
}

/// Whether a line is read as it stands: it holds no fence and no line
/// feed, and neither begins nor ends with white space.
pub open spec fn bare_line(line: Seq<char>) -> bool {
    &&& line.len() > 0
    &&& !has_fence(line)
    &&& !has_char(line, '\n')
    &&& !is_whitespace(line[0])
    &&& !is_whitespace(line.last())
}

/// Whether the text of a question is read back as it was written: it is
/// one line that is read as it stands, does not begin with a bracket, and
/// is neither a marker that opens a question nor one that ends a record.
pub open spec fn plain_question_text(text: Seq<char>) -> bool {
    &&& bare_line(text)
    &&& text[0] != '['
    &&& !(starts_with(text, QUESTION_OPEN@) && ends_with(text, MARKER_CLOSE@))
    &&& !starts_with(text, RECORD_END@)
}

/// Whether an option is read back as it was written: its line is read as
/// it stands, does not end with the bracket that closes the options, and
/// the pattern search finds the option on it.
pub open spec fn faithful_option(o: AnswerOptionView) -> bool {
    &&& bare_line(option_line(o))
    &&& option_line(o).last() != ']'
    &&& option_on_line(option_line(o)) == Some(o)
}

/// Whether a question is read back, as the question of number `id`, as it
/// was written: it has that number and no answer, its text and its
/// options are read back as they were written, and a yes/no question has
/// no options.
pub open spec fn faithful_question(q: QuestionView, id: nat) -> bool {
    &&& q.id == id
    &&& q.selected_answer.is_none()
    &&& plain_question_text(q.text)
    &&& q.kind == QuestionType::Binary ==> q.options.len() == 0
    &&& forall|i: int| 0 <= i < q.options.len() ==> faithful_option(#[trigger] q.options[i])
}

/// Whether the questions are read back as they were written, the first
/// one having the number `done`.
pub open spec fn faithful_questions(questions: Seq<QuestionView>, done: nat) -> bool {
    forall|i: int|
        0 <= i < questions.len() ==> faithful_question(#[trigger] questions[i], (done + i) as nat)
}

/// A line that is read as it stands is what the grammar reads of it, and
/// it is a whole line.
proof fn lemma_bare_line(line: Seq<char>)
    requires
        bare_line(line),
    ensures
        quiz_line(line) == line,
        whole_line(line),
{
    lemma_strip_fences_plain(line);
    assert(skip_leading(line, CharClass::Whitespace) == line);
    assert(skip_trailing(line, CharClass::Whitespace) == line);
    assert(is_whitespace('\r'));
}

/// A text without a backtick holds no fence.
proof fn lemma_no_backtick_no_fence(s: Seq<char>)
    requires
        !has_char(s, '`'),
    ensures
        !has_fence(s),
{
    assert(!has_fence(Seq::<char>::empty())) by {
        reveal_strlit("```");
    }
    lemma_framed_fence(s, Seq::<char>::empty(), Seq::<char>::empty());
    assert(s + Seq::<char>::empty() + Seq::<char>::empty() =~= s);
}

/// What the fixed lines are made of.
proof fn lemma_fixed_lines()
    ensures
        QUESTION_OPEN@.len() == 12 && QUESTION_OPEN@[0] == '<' && QUESTION_OPEN@[3] == 'q',
        RECORD_END@.len() == 9 && RECORD_END@[0] == '<' && RECORD_END@[3] == 'e'
            && RECORD_END@.last() == '>',
        MARKER_CLOSE@.len() == 3 && MARKER_CLOSE@.last() == '>',
        TYPE_FIELD@.len() == 6 && TYPE_FIELD@[0] == '[' && TYPE_FIELD@[1] == 'T',
        OPTIONS_FIELD@.len() == 8 && OPTIONS_FIELD@[0] == '[' && OPTIONS_FIELD@[1] == 'O'
            && OPTIONS_FIELD@.last() == 'S',
        YESNO_FIELD@.len() == 6 && YESNO_FIELD@[0] == '[' && YESNO_FIELD@[1] == 'Y',
        FIELD_OPEN@ == seq!['['],
        FIELD_CLOSE@ == seq![']'],
        OPTION_START@ == seq!['('],
        MULTIPLE_WORD@.len() == 8,
        !has_char(QUESTION_OPEN@, '`') && !has_char(QUESTION_OPEN@, '\n'),
        !has_char(MARKER_CLOSE@, '`') && !has_char(MARKER_CLOSE@, '\n'),
        !has_char(RECORD_END@, '`') && !has_char(RECORD_END@, '\n'),
        !has_char(TYPE_FIELD@, '`') && !has_char(TYPE_FIELD@, '\n'),
        !has_char(OPTIONS_FIELD@, '`') && !has_char(OPTIONS_FIELD@, '\n'),
        !has_char(MULTIPLE_WORD@, '`') && !has_char(MULTIPLE_WORD@, '\n') && !has_char(
            MULTIPLE_WORD@,
            '[',
        ) && !has_char(MULTIPLE_WORD@, ']'),
        bare_line(RECORD_END@),
        bare_line(OPTIONS_FIELD@),
        bare_line(FIELD_CLOSE@),
        starts_with(RECORD_END@, RECORD_END@),
        starts_with(OPTIONS_FIELD@, OPTIONS_FIELD@),
{
    reveal_strlit("<<<question:");
    reveal_strlit("<<<end>>>");
    reveal_strlit(">>>");
    reveal_strlit("[TYPE:");
    reveal_strlit("[OPTIONS");
    reveal_strlit("[YESNO");
    reveal_strlit("[");
    reveal_strlit("]");
    reveal_strlit("(");
    reveal_strlit("multiple");
    assert(FIELD_OPEN@ =~= seq!['[']);
    assert(FIELD_CLOSE@ =~= seq![']']);
    assert(OPTION_START@ =~= seq!['(']);
    lemma_no_backtick_no_fence(RECORD_END@);
    lemma_no_backtick_no_fence(OPTIONS_FIELD@);
    lemma_no_backtick_no_fence(FIELD_CLOSE@);
    assert(RECORD_END@.subrange(0, 9) =~= RECORD_END@);
    assert(OPTIONS_FIELD@.subrange(0, 8) =~= OPTIONS_FIELD@);
}

/// A pattern is skipped over a stretch in which it does not begin.
proof fn lemma_remove_all_skips(a: Seq<char>, b: Seq<char>, pat: Seq<char>)
    requires
        pat.len() > 0,
        forall|at: int| 0 <= at < a.len() ==> !occurs_at(a + b, at, pat),
    ensures
        remove_all(a + b, pat) == a + remove_all(b, pat),
    decreases a.len(),
{
    if a.len() == 0 {
        assert(a + b =~= b);
        assert(a + remove_all(b, pat) =~= remove_all(b, pat));
    } else {
        let s = a + b;
        assert(!occurs_at(s, 0, pat));
        let rest = a.drop_first();
        assert(s.drop_first() =~= rest + b);
        assert forall|at: int| 0 <= at < rest.len() implies !occurs_at(rest + b, at, pat) by {
            if occurs_at(rest + b, at, pat) {
                assert((rest + b).subrange(at, at + pat.len()) =~= s.subrange(
                    at + 1,
                    at + 1 + pat.len(),
                ));
                assert(occurs_at(s, at + 1, pat));
            }
        }
        lemma_remove_all_skips(rest, b, pat);
        assert(seq![s[0]] + (rest + remove_all(b, pat)) =~= a + remove_all(b, pat));
    }
}

/// What is read of the line that gives the kind of a question.
proof fn lemma_kind_line(kind: QuestionType)
    ensures
        bare_line(kind_line(kind)),
        kind_on_line(kind_line(kind)) == kind,
        starts_with(kind_line(kind), TYPE_FIELD@),
        kind_line(kind)[0] == '[',
{
    lemma_fixed_lines();
    reveal_strlit("multiple");
    reveal_strlit("[TYPE:");
    let word = match kind {
        QuestionType::Multiple => MULTIPLE_WORD@,
        QuestionType::Binary => binary_word(),
    };
    let line = kind_line(kind);
    let padded = seq![' '] + word;
    let tail = padded + FIELD_CLOSE@;
    assert(line =~= TYPE_FIELD@ + tail);
    assert(line.subrange(0, 6) =~= TYPE_FIELD@);
    assert forall|i: int| 0 <= i < word.len() implies word[i] != '`' && word[i] != '\n'
        && word[i] != '[' && word[i] != ']' by {}
    assert forall|i: int| 0 <= i < line.len() implies line[i] != '`' && line[i] != '\n' by {
        if i < 6 {
            assert(line[i] == TYPE_FIELD@[i]);
        } else if i == 6 {
        } else if i < 7 + word.len() {
            assert(line[i] == word[i - 7]);
        }
    }
    lemma_no_backtick_no_fence(line);
    assert(line.last() == ']');
    assert(!is_whitespace(']') && !is_whitespace('['));
    // Without the field's name.
    assert(line.skip(6) =~= tail);
    assert forall|at: int| !occurs_at(tail, at, TYPE_FIELD@) by {
        if occurs_at(tail, at, TYPE_FIELD@) {
            assert(tail.subrange(at, at + 6)[0] == tail[at]);
            if at >= 1 && at < 1 + word.len() {
                assert(tail[at] == word[at - 1]);
            }
        }
    }
    lemma_remove_all_absent(tail, TYPE_FIELD@);
    assert(remove_all(line, TYPE_FIELD@) == tail);
    // Without the closing bracket.
    assert forall|at: int| 0 <= at < padded.len() implies !occurs_at(tail, at, FIELD_CLOSE@) by {
        if occurs_at(tail, at, FIELD_CLOSE@) {
            assert(tail.subrange(at, at + 1)[0] == tail[at]);
            if at >= 1 {
                assert(tail[at] == word[at - 1]);
            }
        }
    }
    lemma_remove_all_skips(padded, FIELD_CLOSE@, FIELD_CLOSE@);
    assert(FIELD_CLOSE@.subrange(0, 1) =~= FIELD_CLOSE@);
    assert(FIELD_CLOSE@.skip(1) =~= Seq::<char>::empty());
    assert(remove_all(FIELD_CLOSE@, FIELD_CLOSE@) == remove_all(Seq::<char>::empty(), FIELD_CLOSE@));
    assert(remove_all(FIELD_CLOSE@, FIELD_CLOSE@) =~= Seq::<char>::empty());
    assert(padded + Seq::<char>::empty() =~= padded);
    assert(remove_all(tail, FIELD_CLOSE@) == padded);
    match kind {
        QuestionType::Multiple => {
            assert(matches_ignoring_ascii_case(padded, 1, MULTIPLE_WORD@)) by {
                assert forall|j: int| 0 <= j < 8 implies padded[1 + j] == MULTIPLE_WORD@[j] by {}
            }
        },
        QuestionType::Binary => {
            assert forall|at: int| !matches_ignoring_ascii_case(padded, at, MULTIPLE_WORD@) by {}
        },
    }
}

/// State of the scan between two questions.
pub open spec fn between_questions(st: QuizScan) -> bool {
    st == (QuizScan { questions: st.questions, ..quiz_start() })
}

/// State after the given lines, taken in order from `st`, the first line
/// first.
pub open spec fn quiz_scan_front(st: QuizScan, lines: Seq<Seq<char>>) -> QuizScan
    decreases lines.len(),
{
    if lines.len() == 0 {
        st
    } else {
        quiz_scan_front(quiz_step(st, lines[0]), lines.drop_first())
    }
}

/// The scan of one line is one step.
proof fn lemma_quiz_scan_one(st: QuizScan, line: Seq<char>)
    ensures
        quiz_scan_front(st, seq![line]) == quiz_step(st, line),
{
    let one = seq![line];
    assert(one.drop_first() =~= Seq::<Seq<char>>::empty());
    assert(quiz_scan_front(quiz_step(st, one[0]), one.drop_first()) == quiz_step(st, line));
}

/// A scan can be taken up after its first line.
proof fn lemma_quiz_scan_from_first(st: QuizScan, lines: Seq<Seq<char>>)
    requires
        lines.len() > 0,
    ensures
        quiz_scan_from(st, lines) == quiz_scan_from(quiz_step(st, lines[0]), lines.drop_first()),
    decreases lines.len(),
{
    if lines.len() == 1 {
        assert(lines.drop_last() =~= Seq::<Seq<char>>::empty());
        assert(lines.drop_first() =~= Seq::<Seq<char>>::empty());
        assert(quiz_scan_from(st, lines.drop_last()) == st);
    } else {
        lemma_quiz_scan_from_first(st, lines.drop_last());
        assert(lines.drop_last().drop_first() =~= lines.drop_first().drop_last());
        assert(lines.drop_last()[0] == lines[0]);
        assert(lines.drop_first().last() == lines.last());
    }
}

/// Taking the lines first to last or last to first gives the same scan.
proof fn lemma_quiz_scan_front_is_scan(st: QuizScan, lines: Seq<Seq<char>>)
    ensures
        quiz_scan_front(st, lines) == quiz_scan_from(st, lines),
    decreases lines.len(),
{
    if lines.len() > 0 {
        lemma_quiz_scan_from_first(st, lines);
        lemma_quiz_scan_front_is_scan(quiz_step(st, lines[0]), lines.drop_first());
    }
}

/// A scan of two runs of lines is the scan of the second run from where
/// the scan of the first run ended.
proof fn lemma_quiz_scan_concat(st: QuizScan, a: Seq<Seq<char>>, b: Seq<Seq<char>>)
    ensures
        quiz_scan_front(st, a + b) == quiz_scan_front(quiz_scan_front(st, a), b),
    decreases a.len(),
{
    if a.len() == 0 {
        assert(a + b =~= b);
    } else {
        assert((a + b)[0] == a[0]);
        assert((a + b).drop_first() =~= a.drop_first() + b);
        lemma_quiz_scan_concat(quiz_step(st, a[0]), a.drop_first(), b);
    }
}

/// Reading the lines of faithful options, inside the list of options of a
/// multiple-choice question, adds exactly those options, in order.
proof fn lemma_scan_options(st: QuizScan, options: Seq<AnswerOptionView>)
    requires
        st.in_question,
        st.in_options,
        st.kind == QuestionType::Multiple,
        forall|i: int| 0 <= i < options.len() ==> faithful_option(#[trigger] options[i]),
    ensures
        quiz_scan_front(st, option_lines(options)) == (QuizScan {
            options: st.options + options,
            ..st
        }),
        all_whole(option_lines(options)),
    decreases options.len(),
{
    lemma_fixed_lines();
    let ls = option_lines(options);
    if options.len() == 0 {
        assert(st.options + options =~= st.options);
        assert(ls =~= Seq::<Seq<char>>::empty());
    } else {
        let first = options[0];
        let rest = options.drop_first();
        let line = option_line(first);
        assert(faithful_option(first));
        lemma_bare_line(line);
        assert(line[0] == '(');
        lemma_differs_at(line, QUESTION_OPEN@, 0);
        lemma_differs_at(line, RECORD_END@, 0);
        lemma_differs_at(line, TYPE_FIELD@, 0);
        lemma_differs_at(line, OPTIONS_FIELD@, 0);
        lemma_differs_at(line, YESNO_FIELD@, 0);
        assert(!ends_with(line, FIELD_CLOSE@)) by {
            if ends_with(line, FIELD_CLOSE@) {
                assert(line.subrange(line.len() - 1, line.len() as int)[0] == line.last());
            }
        }
        let st1 = QuizScan { options: st.options.push(first), ..st };
        assert(quiz_step(st, line) == st1);
        assert forall|i: int| 0 <= i < rest.len() implies faithful_option(#[trigger] rest[i]) by {
            assert(rest[i] == options[i + 1]);
        }
        lemma_scan_options(st1, rest);
        assert(ls[0] == line);
        assert(ls.drop_first() =~= option_lines(rest));
        assert(st.options.push(first) + rest =~= st.options + options);
        assert forall|i: int| 0 <= i < ls.len() implies whole_line(#[trigger] ls[i]) by {
            if i > 0 {
                assert(ls[i] == option_lines(rest)[i - 1]);
            }
        }
    }
}

/// Reading the lines of a faithful question between two questions adds
/// the question as it was written, and ends between two questions.
proof fn lemma_scan_question(st: QuizScan, q: QuestionView, number: nat)
    requires
        between_questions(st),
        faithful_question(q, st.questions.len()),
    ensures
        quiz_scan_front(st, question_lines_of(q, number)) == (QuizScan {
            questions: st.questions.push(q),
            ..st
        }),
        all_whole(question_lines_of(q, number)),
{
    lemma_fixed_lines();
    lemma_decimal_digits(number);
    let digits = decimal_text(number);
    let m = question_marker(number);
    let kind = kind_line(q.kind);
    let end = RECORD_END@;
    // The marker opens the question.
    assert forall|i: int| 0 <= i < m.len() implies m[i] != '`' && m[i] != '\n' by {
        if i < 12 {
            assert(m[i] == QUESTION_OPEN@[i]);
        } else if i < 12 + digits.len() {
            assert(m[i] == digits[i - 12]);
        } else {
            assert(m[i] == MARKER_CLOSE@[i - 12 - digits.len()]);
        }
    }
    lemma_no_backtick_no_fence(m);
    assert(m[0] == '<' && m.last() == '>');
    assert(!is_whitespace('<') && !is_whitespace('>'));
    lemma_bare_line(m);
    assert(m.subrange(0, 12) =~= QUESTION_OPEN@);
    assert(m.subrange(m.len() - 3, m.len() as int) =~= MARKER_CLOSE@);
    assert(with_closed_question(st) == st.questions);
    let st1 = QuizScan { in_question: true, ..st };
    assert(quiz_step(st, m) == st1);
    // The text follows.
    lemma_bare_line(q.text);
    lemma_differs_at(q.text, TYPE_FIELD@, 0);
    lemma_differs_at(q.text, OPTIONS_FIELD@, 0);
    lemma_differs_at(q.text, YESNO_FIELD@, 0);
    lemma_differs_at(q.text, FIELD_OPEN@, 0);
    let st2 = QuizScan { text: q.text, ..st1 };
    assert(st1.text =~= Seq::<char>::empty());
    assert(quiz_step(st1, q.text) == st2);
    // Then the kind.
    lemma_kind_line(q.kind);
    lemma_bare_line(kind);
    lemma_differs_at(kind, QUESTION_OPEN@, 0);
    lemma_differs_at(kind, RECORD_END@, 0);
    let st3 = QuizScan { kind: q.kind, ..st2 };
    assert(quiz_step(st2, kind) == st3);
    let head = seq![m, q.text, kind];
    assert(head =~= seq![m] + seq![q.text] + seq![kind]);
    lemma_quiz_scan_one(st, m);
    lemma_quiz_scan_one(st1, q.text);
    lemma_quiz_scan_one(st2, kind);
    lemma_quiz_scan_concat(st, seq![m], seq![q.text]);
    lemma_quiz_scan_concat(st, seq![m] + seq![q.text], seq![kind]);
    assert(quiz_scan_front(st, head) == st3);
    assert(all_whole(head));
    // Then the options, if the question has any.
    let block = options_block(q);
    let st4 = QuizScan {
        options: if q.kind == QuestionType::Multiple {
            q.options
        } else {
            Seq::empty()
        },
        ..st3
    };
    if q.kind == QuestionType::Multiple {
        let open = OPTIONS_FIELD@;
        let close = FIELD_CLOSE@;
        lemma_bare_line(open);
        lemma_differs_at(open, QUESTION_OPEN@, 0);
        lemma_differs_at(open, RECORD_END@, 0);
        lemma_differs_at(open, TYPE_FIELD@, 1);
        let opened = QuizScan { in_options: true, ..st3 };
        assert(quiz_step(st3, open) == opened);
        lemma_quiz_scan_one(st3, open);
        lemma_scan_options(opened, q.options);
        assert(st3.options =~= Seq::<AnswerOptionView>::empty());
        assert(st3.options + q.options =~= q.options);
        let listed = QuizScan { options: q.options, ..opened };
        lemma_bare_line(close);
        lemma_differs_at(close, QUESTION_OPEN@, 0);
        lemma_differs_at(close, RECORD_END@, 0);
        lemma_differs_at(close, TYPE_FIELD@, 0);
        lemma_differs_at(close, OPTIONS_FIELD@, 0);
        lemma_differs_at(close, YESNO_FIELD@, 0);
        assert(ends_with(close, FIELD_CLOSE@)) by {
            assert(close.subrange(0, 1) =~= close);
        }
        assert(close.drop_last() =~= Seq::<char>::empty());
        lemma_differs_at(Seq::<char>::empty(), OPTION_START@, 0);
        assert(option_on_line(close.drop_last()).is_none());
        assert(quiz_step(listed, close) == st4);
        lemma_quiz_scan_one(listed, close);
        lemma_quiz_scan_concat(st3, seq![open], option_lines(q.options));
        lemma_quiz_scan_concat(st3, seq![open] + option_lines(q.options), seq![close]);
        assert(all_whole(seq![open]));
        assert(all_whole(seq![close]));
        lemma_all_whole_concat(seq![open], option_lines(q.options));
        lemma_all_whole_concat(seq![open] + option_lines(q.options), seq![close]);
    } else {
        assert(st3.options =~= Seq::<AnswerOptionView>::empty());
        assert(q.options =~= Seq::<AnswerOptionView>::empty());
    }
    assert(quiz_scan_front(st3, block) == st4);
    assert(all_whole(block));
    // The end marker closes the question.
    lemma_bare_line(end);
    lemma_differs_at(end, QUESTION_OPEN@, 3);
    let closed = with_closed_question(st4);
    let read = QuestionView {
        id: st.questions.len(),
        text: q.text,
        kind: q.kind,
        options: if q.kind == QuestionType::Multiple {
            q.options
        } else {
            Seq::empty()
        },
        selected_answer: None,
    };
    assert(read.options =~= q.options);
    assert(read == q);
    assert(closed == st.questions.push(q));
    assert(quiz_step(st4, end) == QuizScan { questions: st.questions.push(q), ..st });
    lemma_quiz_scan_one(st4, end);
    lemma_quiz_scan_concat(st, head, block);
    lemma_quiz_scan_concat(st, head + block, seq![end]);
    assert(all_whole(seq![end]));
    lemma_all_whole_concat(head, block);
    lemma_all_whole_concat(head + block, seq![end]);
}

/// Reading the lines of faithful questions between two questions adds
/// exactly those questions, in order.
proof fn lemma_scan_questions(st: QuizScan, questions: Seq<QuestionView>, done: nat)
    requires
        between_questions(st),
        faithful_questions(questions, st.questions.len()),
    ensures
        quiz_scan_front(st, all_question_lines_of(questions, done)) == (QuizScan {
            questions: st.questions + questions,
            ..st
        }),
        all_whole(all_question_lines_of(questions, done)),
    decreases questions.len(),
{
    if questions.len() == 0 {
        assert(st.questions + questions =~= st.questions);
    } else {
        let first = questions[0];
        let rest = questions.drop_first();
        assert(faithful_question(first, (st.questions.len() + 0) as nat));
        lemma_scan_question(st, first, done + 1);
        let st1 = QuizScan { questions: st.questions.push(first), ..st };
        assert forall|i: int| 0 <= i < rest.len() implies faithful_question(
            #[trigger] rest[i],
            (st1.questions.len() + i) as nat,
        ) by {
            assert(rest[i] == questions[i + 1]);
            assert(faithful_question(questions[i + 1], (st.questions.len() + (i + 1)) as nat));
        }
        lemma_scan_questions(st1, rest, done + 1);
        lemma_quiz_scan_concat(
            st,
            question_lines_of(first, done + 1),
            all_question_lines_of(rest, done + 1),
        );
        assert(st.questions.push(first) + rest =~= st.questions + questions);
        lemma_all_whole_concat(
            question_lines_of(first, done + 1),
            all_question_lines_of(rest, done + 1),
        );
    }
}

/// Reading back what was written: questions that are written in the
/// question-set grammar and read again are the same questions, field for
/// field, provided that they are faithful: numbered from 0, unanswered,
/// with plain texts, and with options that the pattern search finds on
/// their lines.
pub proof fn lemma_questions_round_trip(questions: Seq<QuestionView>)
    ensures
        faithful_questions(questions, 0) ==> parse_questions(render_questions(questions))
            == questions,
{
    if faithful_questions(questions, 0) {
        let start = quiz_start();
        let all = all_question_lines_of(questions, 0);
        lemma_scan_questions(start, questions, 0);
        lemma_lines_of_joined(all);
        lemma_quiz_scan_front_is_scan(start, all);
        let end = QuizScan { questions: start.questions + questions, ..start };
        assert(start.questions + questions =~= questions);
        assert(with_closed_question(end) == questions);
    }
}

/// Questions without options are read back as they were written whatever
/// the pattern search does: for them the condition on the options is
/// empty.
pub proof fn lemma_plain_questions_round_trip(questions: Seq<QuestionView>)
    requires
        forall|i: int|
            0 <= i < questions.len() ==> {
                &&& (#[trigger] questions[i]).id == i
                &&& questions[i].selected_answer.is_none()
                &&& plain_question_text(questions[i].text)
                &&& questions[i].options.len() == 0
            },
    ensures
        parse_questions(render_questions(questions)) == questions,
{
    assert forall|i: int| 0 <= i < questions.len() implies faithful_question(
        #[trigger] questions[i],
        (0 + i) as nat,
    ) by {}
    lemma_questions_round_trip(questions);
}

/// The lines of questions with one more at the end.
pub proof fn lemma_question_lines_push(questions: Seq<QuestionView>, last: QuestionView, done: nat)
    ensures
        all_question_lines_of(questions.push(last), done) == all_question_lines_of(
            questions,
            done,
        ) + question_lines_of(last, done + questions.len() + 1),
    decreases questions.len(),
{
    let more = questions.push(last);
    if questions.len() == 0 {
        assert(more.drop_first() =~= Seq::<QuestionView>::empty());
        assert(all_question_lines_of(more.drop_first(), done + 1) =~= Seq::<Seq<char>>::empty());
        assert(all_question_lines_of(more, done) =~= question_lines_of(last, done + 1));
        assert(all_question_lines_of(questions, done) + question_lines_of(last, done + 1)
            =~= question_lines_of(last, done + 1));
    } else {
        assert(more[0] == questions[0]);
        assert(more.drop_first() =~= questions.drop_first().push(last));
        lemma_question_lines_push(questions.drop_first(), last, done + 1);
        assert(all_question_lines_of(more, done) =~= all_question_lines_of(questions, done)
            + question_lines_of(last, done + questions.len() + 1));
    }
}

/// Appends the lines that list the options of a question.
fn push_options_block(out: &mut Vec<char>, question: &Question)
    ensures
        final(out)@ == old(out)@ + joined_lines(options_block(question@)),
{
    let multiple = match question.question_type {
        QuestionType::Multiple => true,
        QuestionType::Binary => false,
    };
    if !multiple {
        assert(joined_lines(options_block(question@)) =~= Seq::<char>::empty());
        assert(out@ =~= old(out)@ + Seq::<char>::empty());
        return ;
    }
    let ghost options = question@.options;
    let ghost opened = seq![OPTIONS_FIELD@];
    push_line(out, OPTIONS_FIELD);
    let mut i: usize = 0;
    proof {
        assert(options.take(0) =~= Seq::<AnswerOptionView>::empty());
        assert(option_lines(options.take(0)) =~= Seq::<Seq<char>>::empty());
        assert(opened + option_lines(options.take(0)) =~= opened);
    }
    while i < question.options.len()
        invariant
            i <= question.options.len(),
            options == crate::question_generator::option_views(question.options@),
            out@ == old(out)@ + joined_lines(opened + option_lines(options.take(i as int))),
        decreases question.options.len() - i,
    {
        let option = &question.options[i];
        let ghost before = opened + option_lines(options.take(i as int));
        let ghost line = option_line(options[i as int]);
        let ghost reached = out@;
        push_str(out, OPTION_START);
        push_str(out, option.id.as_str());
        out.push(')');
        out.push(' ');
        push_str(out, option.text.as_str());
        out.push('\n');
        proof {
            assert(options[i as int] == option@);
            lemma_joined_one(line);
            lemma_joined_lines_push(before, line);
            assert(options.take(i + 1) =~= options.take(i as int).push(options[i as int]));
            assert(option_lines(options.take(i + 1)) =~= option_lines(options.take(i as int)).push(
                line,
            ));
            assert(before.push(line) =~= opened + option_lines(options.take(i + 1)));
            assert(out@ =~= reached + (line + seq!['\n']));
            assert(old(out)@ + (joined_lines(before) + joined_lines(seq![line])) =~= reached
                + (line + seq!['\n']));
        }
        i += 1;
    }
    assert(options.take(i as int) =~= options);
    push_line(out, FIELD_CLOSE);
    proof {
        lemma_joined_lines_push(opened + option_lines(options), FIELD_CLOSE@);
        assert((opened + option_lines(options)).push(FIELD_CLOSE@) =~= options_block(question@));
        assert(out@ =~= old(out)@ + (joined_lines(opened + option_lines(options)) + joined_lines(
            seq![FIELD_CLOSE@],
        )));
    }
}

/// Appends the lines of a question with the number `number`.
fn push_question(out: &mut Vec<char>, question: &Question, number: usize)
    ensures
        final(out)@ == old(out)@ + joined_lines(question_lines_of(question@, number as nat)),
{
    let ghost q = question@;
    let ghost marker = question_marker(number as nat);
    let ghost kind = kind_line(q.kind);
    let ghost head = seq![marker, q.text, kind];
    let ghost block = options_block(q);
    proof {
        assert(head =~= seq![marker] + seq![q.text] + seq![kind]);
        lemma_joined_lines_concat(seq![marker], seq![q.text]);
        lemma_joined_lines_concat(seq![marker] + seq![q.text], seq![kind]);
        lemma_joined_lines_concat(head, block);
        lemma_joined_lines_concat(head + block, seq![RECORD_END@]);
        lemma_joined_one(marker);
        lemma_joined_one(kind);
        reveal_strlit("binary");
        assert("binary"@ =~= binary_word());
    }
    push_str(out, QUESTION_OPEN);
    push_decimal(out, number as u64);
    push_str(out, MARKER_CLOSE);
    out.push('\n');
    assert(out@ =~= old(out)@ + joined_lines(seq![marker]));
    push_line(out, question.text.as_str());
    let ghost reached = out@;
    push_str(out, TYPE_FIELD);
    out.push(' ');
    match question.question_type {
        QuestionType::Multiple => push_str(out, MULTIPLE_WORD),
        QuestionType::Binary => push_str(out, "binary"),
    }
    push_str(out, FIELD_CLOSE);
    out.push('\n');
    assert(out@ =~= reached + joined_lines(seq![kind]));
    assert(out@ =~= old(out)@ + joined_lines(head));
    push_options_block(out, question);
    push_line(out, RECORD_END);
    assert(out@ =~= old(out)@ + (joined_lines(head) + joined_lines(block) + joined_lines(
        seq![RECORD_END@],
    )));
}

/// Writes questions in the question-set grammar: each between its marker
/// and the end marker, with its text, its kind, and the list of its
/// options if it is a multiple-choice question.
pub fn questions_to_grammar_text(questions: &Vec<Question>) -> (text: String)
    ensures
        text@ == render_questions(crate::question_generator::question_views(questions@)),
{
    let mut out: Vec<char> = Vec::new();
    let ghost all = crate::question_generator::question_views(questions@);
    let mut i: usize = 0;
    proof {
        assert(all.take(0) =~= Seq::<QuestionView>::empty());
        assert(joined_lines(all_question_lines_of(all.take(0), 0)) =~= Seq::<char>::empty());
    }
    while i < questions.len()
        invariant
            i <= questions.len(),
            all == crate::question_generator::question_views(questions@),
            out@ == joined_lines(all_question_lines_of(all.take(i as int), 0)),
        decreases questions.len() - i,
    {
        proof {
            let before = all_question_lines_of(all.take(i as int), 0);
            let added = question_lines_of(all[i as int], (i + 1) as nat);
            assert(all[i as int] == questions[i as int]@);
            assert(all.take(i + 1) =~= all.take(i as int).push(all[i as int]));
            lemma_question_lines_push(all.take(i as int), all[i as int], 0);
            lemma_joined_lines_concat(before, added);
        }
        push_question(&mut out, &questions[i], i + 1);
        i += 1;
    }
    assert(all.take(i as int) =~= all);
    string_of(out.as_slice())
}

} // verus!
