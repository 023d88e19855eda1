//! Writing a record in the tutoring-module grammar, and reading it back.
//!
//! `render_tutoring` is the inverse of reading on every record that the
//! grammar can carry; `faithful` says which records those are.

use crate::llm::{module_from, placeholder_exercise, placeholder_snippet};
use crate::prompt_response::{
    append_line, finish, initial_state, label_of, no_exercise, no_snippet, parse_tutoring,
    scan_from, step, strip_fences, tagged_text, with_closed_exercise, with_closed_snippet,
    CodeSnippetView, ExerciseView, PromptResponseView, ScanState, TutoringSection,
    EXERCISE_OPEN, EXERCISE_TAG, EXPLANATION_OPEN, FENCE, FENCE_RUST, SNIPPET_OPEN, SNIPPET_TAG,
};
use crate::text::{push_decimal, push_str, string_of};
use crate::text::{
    decimal_text, first_index_of, is_whitespace, lemma_first_index_is,
    lemma_first_index_of, lines, occurs_at, remove_all, skip_leading, skip_trailing,
    starts_with, strip_repeated_prefix, trim, trim_class, without_carriage_return, CharClass,
};
use vstd::prelude::*;

verus! {

/// The text whose lines are the given ones: each line is closed by a line
/// feed.
pub open spec fn joined_lines(lines: Seq<Seq<char>>) -> Seq<char>
    decreases lines.len(),
{
    if lines.len() == 0 {
        Seq::empty()
    } else {
        lines[0] + seq!['\n'] + joined_lines(lines.drop_first())
    }
}

/// The parts of a text between its line feeds.
pub open spec fn split_lines_of(body: Seq<char>) -> Seq<Seq<char>>
    decreases body.len(),
{
    let k = first_index_of(body, '\n');
    if 0 <= k < body.len() {
        seq![body.take(k)] + split_lines_of(body.skip(k + 1))
    } else {
        seq![body]
    }
}

/// The lines of a body as they are written: none for an empty body.
pub open spec fn body_lines(body: Seq<char>) -> Seq<Seq<char>> {
    if body.len() == 0 {
        Seq::empty()
    } else {
        split_lines_of(body)
    }
}

/// Whether a text holds a code fence.
pub open spec fn has_fence(s: Seq<char>) -> bool {
    exists|at: int| #[trigger] occurs_at(s, at, FENCE@)
}

/// Whether a text holds the character `c`.
pub open spec fn has_char(s: Seq<char>, c: char) -> bool {
    exists|i: int| 0 <= i < s.len() && #[trigger] s[i] == c
}

/// Whether a line of a body is read back as it was written, in the
/// section `section`: it is not empty, ends with no carriage return, holds
/// no code fence, and begins with no marker and not with the tag that
/// describes the record of the section.
pub open spec fn plain_line(line: Seq<char>, section: TutoringSection) -> bool {
    &&& line.len() > 0
    &&& line.last() != '\r'
    &&& !has_fence(line)
    &&& !starts_with(line, EXPLANATION_OPEN@)
    &&& !starts_with(line, SNIPPET_OPEN@)
    &&& !starts_with(line, EXERCISE_OPEN@)
    &&& section == TutoringSection::Snippet ==> !starts_with(line, SNIPPET_TAG@)
    &&& section == TutoringSection::Exercise ==> !starts_with(line, EXERCISE_TAG@)
}

/// Whether every line of a body is read back as it was written.
pub open spec fn plain_body(body: Seq<char>, section: TutoringSection) -> bool {
    forall|i: int|
        0 <= i < body_lines(body).len() ==> plain_line(#[trigger] body_lines(body)[i], section)
}

/// Whether a title is read back as it was written: it is one line, not
/// empty, holds no code fence, and neither begins nor ends with white
/// space, nor ends with a closing angle bracket.
pub open spec fn plain_title(title: Seq<char>) -> bool {
    &&& title.len() > 0
    &&& !has_char(title, '\n')
    &&& !has_fence(title)
    &&& !is_whitespace(title[0])
    &&& !is_whitespace(title.last())
    &&& title.last() != '>'
}

/// Whether a description is read back as it was written: it is empty, or
/// one line that holds no code fence and neither begins nor ends with
/// white space.
pub open spec fn plain_description(description: Seq<char>) -> bool {
    description.len() > 0 ==> {
        &&& !has_char(description, '\n')
        &&& !has_fence(description)
        &&& !is_whitespace(description[0])
        &&& !is_whitespace(description.last())
    }
}

/// Whether a code snippet is read back as it was written.
pub open spec fn faithful_snippet(s: CodeSnippetView) -> bool {
    &&& plain_title(s.title)
    &&& plain_description(s.description)
    &&& s.code.len() > 0
    &&& plain_body(s.code, TutoringSection::Snippet)
}

/// Whether an exercise is read back as it was written.
pub open spec fn faithful_exercise(e: ExerciseView) -> bool {
    &&& plain_title(e.name)
    &&& plain_description(e.description)
    &&& e.code.len() > 0
    &&& plain_body(e.code, TutoringSection::Exercise)
}

/// Whether a record is read back as it was written: every title, every
/// description and every line of every body is.
pub open spec fn faithful(r: PromptResponseView) -> bool {
    &&& plain_body(r.explanation, TutoringSection::Explanation)
    &&& forall|i: int| 0 <= i < r.code_snippets.len() ==> faithful_snippet(#[trigger] r.code_snippets[i])
    &&& forall|i: int| 0 <= i < r.exercises.len() ==> faithful_exercise(#[trigger] r.exercises[i])
}

/// The line that opens the explanation.
pub open spec fn explanation_marker() -> Seq<char> {
    EXPLANATION_OPEN@ + ">>>"@
}

/// The line that opens the record of number `number` with the given
/// title.
pub open spec fn record_marker(open: Seq<char>, number: nat, title: Seq<char>) -> Seq<char> {
    open + seq![' '] + decimal_text(number) + seq![':', ' '] + title + ">>>"@
}

/// The lines that describe a record: one where there is a description.
pub open spec fn description_lines(tag: Seq<char>, description: Seq<char>) -> Seq<Seq<char>> {
    if description.len() == 0 {
        Seq::empty()
    } else {
        seq![tag + seq![' '] + description]
    }
}

/// The lines of a code snippet with the number `number`.
pub open spec fn snippet_lines(s: CodeSnippetView, number: nat) -> Seq<Seq<char>> {
    seq![record_marker(SNIPPET_OPEN@, number, s.title)] + description_lines(
        SNIPPET_TAG@,
        s.description,
    ) + body_lines(s.code)
}

/// The lines of an exercise with the number `number`.
pub open spec fn exercise_lines(e: ExerciseView, number: nat) -> Seq<Seq<char>> {
    seq![record_marker(EXERCISE_OPEN@, number, e.name)] + description_lines(
        EXERCISE_TAG@,
        e.description,
    ) + body_lines(e.code)
}

/// The lines of the given code snippets, numbered from `done + 1`.
pub open spec fn all_snippet_lines(snippets: Seq<CodeSnippetView>, done: nat) -> Seq<Seq<char>>
    decreases snippets.len(),
{
    if snippets.len() == 0 {
        Seq::empty()
    } else {
        snippet_lines(snippets[0], done + 1) + all_snippet_lines(
            snippets.drop_first(),
            done + 1,
        )
    }
}

/// The lines of the given exercises, numbered from `done + 1`.
pub open spec fn all_exercise_lines(exercises: Seq<ExerciseView>, done: nat) -> Seq<Seq<char>>
    decreases exercises.len(),
{
    if exercises.len() == 0 {
        Seq::empty()
    } else {
        exercise_lines(exercises[0], done + 1) + all_exercise_lines(
            exercises.drop_first(),
            done + 1,
        )
    }
}

/// The lines of a record in the tutoring-module grammar: the explanation,
/// the code snippets and the exercises, each under its marker.
pub open spec fn tutoring_lines(r: PromptResponseView) -> Seq<Seq<char>> {
    seq![explanation_marker()] + body_lines(r.explanation) + all_snippet_lines(
        r.code_snippets,
        0,
    ) + all_exercise_lines(r.exercises, 0)
}

/// A record written in the tutoring-module grammar.
pub open spec fn render_tutoring(r: PromptResponseView) -> Seq<char> {
    joined_lines(tutoring_lines(r))
}

/// Whether a line holds no line feed and ends with no carriage return.
pub open spec fn whole_line(line: Seq<char>) -> bool {
    !has_char(line, '\n') && (line.len() > 0 ==> line.last() != '\r')
}

/// The lines of a text that was joined from whole lines are those lines.
pub proof fn lemma_lines_of_joined(ls: Seq<Seq<char>>)
    requires
        forall|i: int| 0 <= i < ls.len() ==> whole_line(#[trigger] ls[i]),
    ensures
        lines(joined_lines(ls)) == ls,
    decreases ls.len(),
{
    if ls.len() > 0 {
        let first = ls[0];
        let rest = ls.drop_first();
        let text = joined_lines(ls);
        assert(whole_line(first));
        assert forall|i: int| 0 <= i < rest.len() implies whole_line(#[trigger] rest[i]) by {
            assert(rest[i] == ls[i + 1]);
        }
        lemma_lines_of_joined(rest);
        assert(text == first + seq!['\n'] + joined_lines(rest));
        assert(text[first.len() as int] == '\n');
        assert forall|i: int| 0 <= i < first.len() implies text[i] != '\n' by {
            assert(text[i] == first[i]);
        }
        lemma_first_index_is(text, '\n', first.len() as int);
        assert(text.take(first.len() as int) =~= first);
        assert(text.skip(first.len() as int + 1) =~= joined_lines(rest));
        assert(without_carriage_return(first) == first);
        assert(lines(text) =~= seq![first] + lines(joined_lines(rest)));
        assert(seq![first] + rest =~= ls);
    } else {
        assert(joined_lines(ls) =~= Seq::<char>::empty());
    }
}

/// The parts of a text between its line feeds hold no line feed.
pub proof fn lemma_split_lines_whole(body: Seq<char>)
    ensures
        split_lines_of(body).len() > 0,
        forall|i: int|
            0 <= i < split_lines_of(body).len() ==> !has_char(#[trigger] split_lines_of(body)[i], '\n'),
    decreases body.len(),
{
    let k = first_index_of(body, '\n');
    lemma_first_index_of(body, '\n');
    if 0 <= k < body.len() {
        let rest = body.skip(k + 1);
        lemma_split_lines_whole(rest);
        let parts = split_lines_of(body);
        assert forall|i: int| 0 <= i < parts.len() implies !has_char(#[trigger] parts[i], '\n') by {
            if i == 0 {
                assert(parts[0] == body.take(k));
                assert forall|j: int| 0 <= j < parts[0].len() implies parts[0][j] != '\n' by {
                    assert(parts[0][j] == body[j]);
                }
            } else {
                assert(parts[i] == split_lines_of(rest)[i - 1]);
            }
        }
    } else {
        let parts = split_lines_of(body);
        assert(parts[0] == body);
    }
}

/// A body to which lines are added one by one.
pub open spec fn with_lines(body: Seq<char>, lines: Seq<Seq<char>>) -> Seq<char>
    decreases lines.len(),
{
    if lines.len() == 0 {
        body
    } else {
        with_lines(append_line(body, lines[0]), lines.drop_first())
    }
}

/// Adding the parts of a text between its line feeds, one by one, adds the
/// text as one piece, as long as no part is empty.
pub proof fn lemma_with_split_lines(body: Seq<char>, text: Seq<char>)
    requires
        forall|i: int|
            0 <= i < split_lines_of(text).len() ==> (#[trigger] split_lines_of(text)[i]).len() > 0,
    ensures
        with_lines(body, split_lines_of(text)) == append_line(body, text),
    decreases text.len(),
{
    let k = first_index_of(text, '\n');
    lemma_first_index_of(text, '\n');
    let parts = split_lines_of(text);
    if 0 <= k < text.len() {
        let head = text.take(k);
        let rest = text.skip(k + 1);
        assert(parts[0] == head);
        assert(parts.drop_first() =~= split_lines_of(rest));
        assert forall|i: int| 0 <= i < split_lines_of(rest).len() implies (#[trigger] split_lines_of(
            rest,
        )[i]).len() > 0 by {
            assert(split_lines_of(rest)[i] == parts[i + 1]);
        }
        let grown = append_line(body, head);
        lemma_with_split_lines(grown, rest);
        assert(head.len() > 0);
        assert(grown.len() > 0);
        assert(text =~= head + seq!['\n'] + rest);
        assert(append_line(grown, rest) =~= append_line(body, text));
    } else {
        assert(parts =~= seq![text]);
        assert(parts.drop_first() =~= Seq::<Seq<char>>::empty());
        assert(with_lines(append_line(body, text), parts.drop_first()) == append_line(body, text));
    }
}

/// A text without an occurrence of a pattern is left as it is when the
/// pattern is removed.
pub proof fn lemma_remove_all_absent(s: Seq<char>, pat: Seq<char>)
    requires
        forall|at: int| !occurs_at(s, at, pat),
    ensures
        remove_all(s, pat) == s,
    decreases s.len(),
{
    if pat.len() == 0 || s.len() == 0 {
    } else {
        assert(!occurs_at(s, 0, pat));
        let rest = s.drop_first();
        assert forall|at: int| !occurs_at(rest, at, pat) by {
            if occurs_at(rest, at, pat) {
                assert(rest.subrange(at, at + pat.len()) =~= s.subrange(at + 1, at + 1 + pat.len()));
                assert(occurs_at(s, at + 1, pat));
            }
        }
        lemma_remove_all_absent(rest, pat);
        assert(seq![s[0]] + rest =~= s);
    }
}

/// A line without a code fence is left as it is when fences are stripped.
pub proof fn lemma_strip_fences_plain(line: Seq<char>)
    requires
        !has_fence(line),
    ensures
        strip_fences(line) == line,
{
    reveal_strlit("```rust");
    reveal_strlit("```");
    assert forall|at: int| !occurs_at(line, at, FENCE_RUST@) by {
        if occurs_at(line, at, FENCE_RUST@) {
            assert(line.subrange(at, at + 3) =~= line.subrange(at, at + 7).subrange(0, 3));
            assert(FENCE_RUST@.subrange(0, 3) =~= FENCE@);
            assert(occurs_at(line, at, FENCE@));
        }
    }
    lemma_remove_all_absent(line, FENCE_RUST@);
    assert forall|at: int| !occurs_at(line, at, FENCE@) by {
        if occurs_at(line, at, FENCE@) {
            assert(has_fence(line));
        }
    }
    lemma_remove_all_absent(line, FENCE@);
}

/// A text framed by texts without a backtick holds a code fence only if
/// it does so itself.
pub proof fn lemma_framed_fence(before: Seq<char>, inner: Seq<char>, after: Seq<char>)
    requires
        !has_char(before, '`'),
        !has_char(after, '`'),
        !has_fence(inner),
    ensures
        !has_fence(before + inner + after),
{
    reveal_strlit("```");
    let whole = before + inner + after;
    assert forall|at: int| !occurs_at(whole, at, FENCE@) by {
        if occurs_at(whole, at, FENCE@) {
            let found = whole.subrange(at, at + 3);
            assert(found[0] == '`' && found[1] == '`' && found[2] == '`');
            assert(whole[at] == '`' && whole[at + 1] == '`' && whole[at + 2] == '`');
            let lo = before.len() as int;
            let hi = lo + inner.len();
            assert(lo <= at && at + 2 < hi) by {
                if at < lo {
                    assert(whole[at] == before[at]);
                }
                if at + 2 >= hi {
                    assert(whole[at + 2] == after[at + 2 - hi]);
                }
            }
            assert(inner.subrange(at - lo, at - lo + 3) =~= found);
            assert(occurs_at(inner, at - lo, FENCE@));
        }
    }
}

/// The digits of a number are decimal digits.
pub proof fn lemma_decimal_digits(n: nat)
    ensures
        decimal_text(n).len() > 0,
        forall|i: int|
            0 <= i < decimal_text(n).len() ==> '0' <= (#[trigger] decimal_text(n)[i]) <= '9',
    decreases n,
{
    if n >= 10 {
        lemma_decimal_digits(n / 10);
    }
}

/// What is left of a text that ends with characters of a class, once the
/// class is cut from its end, is what is left of the text before them.
pub proof fn lemma_skip_trailing_tail(head: Seq<char>, tail: Seq<char>, k: CharClass)
    requires
        forall|i: int| 0 <= i < tail.len() ==> k.holds(#[trigger] tail[i]),
    ensures
        skip_trailing(head + tail, k) == skip_trailing(head, k),
    decreases tail.len(),
{
    if tail.len() == 0 {
        assert(head + tail =~= head);
    } else {
        let whole = head + tail;
        assert(whole.last() == tail.last());
        assert(whole.drop_last() =~= head + tail.drop_last());
        assert forall|i: int| 0 <= i < tail.drop_last().len() implies k.holds(
            #[trigger] tail.drop_last()[i],
        ) by {
            assert(tail.drop_last()[i] == tail[i]);
        }
        lemma_skip_trailing_tail(head, tail.drop_last(), k);
    }
}

/// A text that differs from a pattern at some place of the pattern does
/// not begin with it.
pub proof fn lemma_differs_at(s: Seq<char>, pat: Seq<char>, i: int)
    requires
        0 <= i < pat.len(),
        i >= s.len() || s[i] != pat[i],
    ensures
        !starts_with(s, pat),
{
    if starts_with(s, pat) {
        assert(s.subrange(0, pat.len() as int)[i] == s[i]);
    }
}

/// Whether every line holds no line feed and ends with no carriage
/// return.
pub open spec fn all_whole(ls: Seq<Seq<char>>) -> bool {
    forall|i: int| 0 <= i < ls.len() ==> whole_line(#[trigger] ls[i])
}

/// Whole lines after whole lines are whole lines.
pub proof fn lemma_all_whole_concat(a: Seq<Seq<char>>, b: Seq<Seq<char>>)
    requires
        all_whole(a),
        all_whole(b),
    ensures
        all_whole(a + b),
{
    assert forall|i: int| 0 <= i < (a + b).len() implies whole_line(#[trigger] (a + b)[i]) by {
        if i < a.len() {
            assert((a + b)[i] == a[i]);
        } else {
            assert((a + b)[i] == b[i - a.len()]);
        }
    }
}

/// The lines of a plain body are whole lines, none of them empty.
pub proof fn lemma_body_lines_whole(body: Seq<char>, section: TutoringSection)
    requires
        plain_body(body, section),
    ensures
        all_whole(body_lines(body)),
        forall|i: int| 0 <= i < body_lines(body).len() ==> (#[trigger] body_lines(body)[i]).len() > 0,
{
    if body.len() > 0 {
        lemma_split_lines_whole(body);
        assert forall|i: int| 0 <= i < body_lines(body).len() implies whole_line(
            #[trigger] body_lines(body)[i],
        ) && body_lines(body)[i].len() > 0 by {
            assert(plain_line(body_lines(body)[i], section));
        }
    }
}

/// What is read of a marker line that was written for a plain title: the
/// line holds no fence, is whole, begins with what opens it, and its label
/// is the title.
pub proof fn lemma_marker_reading(open: Seq<char>, number: nat, title: Seq<char>)
    requires
        plain_title(title),
        !has_char(open, '`'),
        !has_char(open, ':'),
        !has_char(open, '\n'),
    ensures
        strip_fences(record_marker(open, number, title)) == record_marker(open, number, title),
        label_of(record_marker(open, number, title)) == title,
        starts_with(record_marker(open, number, title), open),
        whole_line(record_marker(open, number, title)),
        record_marker(open, number, title).len() > open.len(),
        record_marker(open, number, title)[open.len() as int] == ' ',
{
    reveal_strlit(">>>");
    let digits = decimal_text(number);
    lemma_decimal_digits(number);
    let m = record_marker(open, number, title);
    let before = open + seq![' '] + digits + seq![':', ' '];
    let after = ">>>"@;
    assert(m =~= before + title + after);
    let k: int = open.len() as int + 1 + digits.len();
    assert forall|i: int| 0 <= i < before.len() implies before[i] != '`' && before[i] != '\n' by {
        if i < open.len() {
            assert(before[i] == open[i]);
        } else if i == open.len() {
        } else if i < k {
            assert(before[i] == digits[i - open.len() - 1]);
        }
    }
    assert(!has_char(before, '`'));
    assert(!has_char(after, '`'));
    lemma_framed_fence(before, title, after);
    lemma_strip_fences_plain(m);
    // The first colon is the one that follows the number.
    assert(m[k] == ':');
    assert forall|i: int| 0 <= i < k implies m[i] != ':' by {
        if i < open.len() {
            assert(m[i] == open[i]);
        } else if i == open.len() {
        } else {
            assert(m[i] == digits[i - open.len() - 1]);
        }
    }
    lemma_first_index_is(m, ':', k);
    let rest = m.skip(k + 1);
    let padded = seq![' '] + title;
    assert(rest =~= padded + after);
    // The closing brackets go, and nothing else.
    assert(skip_leading(rest, CharClass::Exactly('>')) == rest);
    assert forall|i: int| 0 <= i < after.len() implies CharClass::Exactly('>').holds(
        #[trigger] after[i],
    ) by {}
    lemma_skip_trailing_tail(padded, after, CharClass::Exactly('>'));
    assert(padded.last() == title.last());
    assert(skip_trailing(padded, CharClass::Exactly('>')) == padded);
    assert(trim_class(rest, CharClass::Exactly('>')) == padded);
    // The blank after the colon goes, and nothing else.
    assert(is_whitespace(' '));
    assert(padded.drop_first() =~= title);
    assert(skip_leading(title, CharClass::Whitespace) == title);
    assert(skip_leading(padded, CharClass::Whitespace) == title);
    assert(skip_trailing(title, CharClass::Whitespace) == title);
    assert(trim(padded) == title);
    assert(m.subrange(0, open.len() as int) =~= open);
    assert forall|i: int| 0 <= i < m.len() implies m[i] != '\n' by {
        if i < before.len() {
            assert(m[i] == before[i]);
        } else if i < before.len() + title.len() {
            assert(m[i] == title[i - before.len()]);
        } else {
            assert(m[i] == after[i - before.len() - title.len()]);
        }
    }
    assert(m.last() == after.last());
}

/// What is read of a description line that was written for a plain
/// description: the line holds no fence, is whole, begins with its tag and
/// with nothing that a marker or another tag begins with, and what follows
/// the tag is the description.
pub proof fn lemma_description_reading(tag: Seq<char>, description: Seq<char>)
    requires
        plain_description(description),
        description.len() > 0,
        tag.len() > 0,
        tag[0] == '#',
        !has_char(tag, '`'),
        !has_char(tag, '\n'),
    ensures
        strip_fences(tag + seq![' '] + description) == tag + seq![' '] + description,
        tagged_text(tag + seq![' '] + description, tag) == description,
        starts_with(tag + seq![' '] + description, tag),
        whole_line(tag + seq![' '] + description),
        (tag + seq![' '] + description)[0] == '#',
{
    let d = tag + seq![' '] + description;
    let before = tag + seq![' '];
    assert(d =~= before + description + Seq::<char>::empty());
    assert forall|i: int| 0 <= i < before.len() implies before[i] != '`' by {
        if i < tag.len() {
            assert(before[i] == tag[i]);
        }
    }
    lemma_framed_fence(before, description, Seq::<char>::empty());
    lemma_strip_fences_plain(d);
    assert(d.subrange(0, tag.len() as int) =~= tag);
    let padded = seq![' '] + description;
    assert(d.skip(tag.len() as int) =~= padded);
    lemma_differs_at(padded, tag, 0);
    assert(strip_repeated_prefix(padded, tag) == padded);
    assert(strip_repeated_prefix(d, tag) == padded);
    assert(is_whitespace(' '));
    assert(padded.drop_first() =~= description);
    assert(skip_leading(description, CharClass::Whitespace) == description);
    assert(skip_leading(padded, CharClass::Whitespace) == description);
    assert(skip_trailing(description, CharClass::Whitespace) == description);
    assert forall|i: int| 0 <= i < d.len() implies d[i] != '\n' by {
        if i < tag.len() {
            assert(d[i] == tag[i]);
        } else if i > tag.len() {
            assert(d[i] == description[i - tag.len() - 1]);
        }
    }
    assert(d.last() == description.last());
    assert(is_whitespace('\r'));
}

/// State after the given lines, taken in order from `st`, the first line
/// first.
pub open spec fn scan_front(st: ScanState, lines: Seq<Seq<char>>) -> ScanState
    decreases lines.len(),
{
    if lines.len() == 0 {
        st
    } else {
        scan_front(step(st, lines[0]), lines.drop_first())
    }
}

/// A scan can be taken up after its first line.
pub proof fn lemma_scan_from_first(st: ScanState, lines: Seq<Seq<char>>)
    requires
        lines.len() > 0,
    ensures
        scan_from(st, lines) == scan_from(step(st, lines[0]), lines.drop_first()),
    decreases lines.len(),
{
    if lines.len() == 1 {
        assert(lines.drop_last() =~= Seq::<Seq<char>>::empty());
        assert(lines.drop_first() =~= Seq::<Seq<char>>::empty());
        assert(scan_from(st, lines.drop_last()) == st);
    } else {
        lemma_scan_from_first(st, lines.drop_last());
        assert(lines.drop_last().drop_first() =~= lines.drop_first().drop_last());
        assert(lines.drop_last()[0] == lines[0]);
        assert(lines.drop_first().last() == lines.last());
    }
}

/// The scan of one line is one step.
pub proof fn lemma_scan_one(st: ScanState, line: Seq<char>)
    ensures
        scan_front(st, seq![line]) == step(st, line),
{
    let one = seq![line];
    assert(one.drop_first() =~= Seq::<Seq<char>>::empty());
    assert(scan_front(step(st, one[0]), one.drop_first()) == step(st, line));
}

/// Taking the lines first to last or last to first gives the same scan.
pub proof fn lemma_scan_front_is_scan(st: ScanState, lines: Seq<Seq<char>>)
    ensures
        scan_front(st, lines) == scan_from(st, lines),
    decreases lines.len(),
{
    if lines.len() > 0 {
        lemma_scan_from_first(st, lines);
        lemma_scan_front_is_scan(step(st, lines[0]), lines.drop_first());
    }
}

/// A scan of two runs of lines is the scan of the second run from where
/// the scan of the first run ended.
pub proof fn lemma_scan_front_concat(st: ScanState, a: Seq<Seq<char>>, b: Seq<Seq<char>>)
    ensures
        scan_front(st, a + b) == scan_front(scan_front(st, a), b),
    decreases a.len(),
{
    if a.len() == 0 {
        assert(a + b =~= b);
    } else {
        assert((a + b)[0] == a[0]);
        assert((a + b).drop_first() =~= a.drop_first() + b);
        lemma_scan_front_concat(step(st, a[0]), a.drop_first(), b);
    }
}

/// The state with the given lines added to the body of its section.
pub open spec fn grown(st: ScanState, lines: Seq<Seq<char>>) -> ScanState {
    match st.section {
        TutoringSection::Outside => st,
        TutoringSection::Explanation => ScanState {
            explanation: with_lines(st.explanation, lines),
            ..st
        },
        TutoringSection::Snippet => ScanState {
            snippet: CodeSnippetView { code: with_lines(st.snippet.code, lines), ..st.snippet },
            ..st
        },
        TutoringSection::Exercise => ScanState {
            exercise: ExerciseView { code: with_lines(st.exercise.code, lines), ..st.exercise },
            ..st
        },
    }
}

/// Plain lines are added to the body of the section, one by one.
pub proof fn lemma_scan_body(st: ScanState, lines: Seq<Seq<char>>)
    requires
        st.section != TutoringSection::Outside,
        forall|i: int| 0 <= i < lines.len() ==> plain_line(#[trigger] lines[i], st.section),
    ensures
        scan_front(st, lines) == grown(st, lines),
    decreases lines.len(),
{
    if lines.len() > 0 {
        let line = lines[0];
        assert(plain_line(line, st.section));
        lemma_strip_fences_plain(line);
        let next = step(st, line);
        assert(next.section == st.section);
        assert(grown(next, lines.drop_first()) == grown(st, lines));
        assert forall|i: int| 0 <= i < lines.drop_first().len() implies plain_line(
            #[trigger] lines.drop_first()[i],
            next.section,
        ) by {
            assert(lines.drop_first()[i] == lines[i + 1]);
        }
        lemma_scan_body(next, lines.drop_first());
    }
}

/// What the markers and the tags are made of.
pub proof fn lemma_marker_characters()
    ensures
        !has_char(SNIPPET_OPEN@, '`'),
        !has_char(SNIPPET_OPEN@, ':'),
        !has_char(SNIPPET_OPEN@, '\n'),
        !has_char(EXERCISE_OPEN@, '`'),
        !has_char(EXERCISE_OPEN@, ':'),
        !has_char(EXERCISE_OPEN@, '\n'),
        !has_char(SNIPPET_TAG@, '`'),
        !has_char(SNIPPET_TAG@, '\n'),
        !has_char(EXERCISE_TAG@, '`'),
        !has_char(EXERCISE_TAG@, '\n'),
        !has_char(explanation_marker(), '`'),
        !has_char(explanation_marker(), '\n'),
        SNIPPET_OPEN@.len() == 15,
        EXERCISE_OPEN@.len() == 11,
        EXPLANATION_OPEN@.len() == 15,
        SNIPPET_OPEN@[0] == '<' && SNIPPET_OPEN@[3] == 'c',
        EXERCISE_OPEN@[0] == '<' && EXERCISE_OPEN@[3] == 'e' && EXERCISE_OPEN@[5] == 'e',
        EXPLANATION_OPEN@[0] == '<' && EXPLANATION_OPEN@[3] == 'e' && EXPLANATION_OPEN@[5] == 'p',
        SNIPPET_TAG@.len() > 0 && SNIPPET_TAG@[0] == '#',
        EXERCISE_TAG@.len() > 0 && EXERCISE_TAG@[0] == '#',
        explanation_marker().len() == 18,
        explanation_marker().last() == '>',
        starts_with(explanation_marker(), EXPLANATION_OPEN@),
{
    reveal_strlit("<<<code_snippet");
    reveal_strlit("<<<exercise");
    reveal_strlit("<<<explanation:");
    reveal_strlit("# code snippet:");
    reveal_strlit("# exercise description:");
    reveal_strlit(">>>");
    let marker = explanation_marker();
    assert(marker.subrange(0, 15) =~= EXPLANATION_OPEN@);
    assert forall|i: int| 0 <= i < marker.len() implies marker[i] != '`' && marker[i] != '\n' by {
        if i < 15 {
            assert(marker[i] == EXPLANATION_OPEN@[i]);
        } else {
            assert(marker[i] == ">>>"@[i - 15]);
        }
    }
}

/// State after the marker of a code snippet with a plain title.
pub open spec fn snippet_opened(st: ScanState, title: Seq<char>) -> ScanState {
    ScanState {
        section: TutoringSection::Snippet,
        snippets: with_closed_snippet(st.snippets, st.snippet),
        snippet: CodeSnippetView { title, ..no_snippet() },
        ..st
    }
}

/// State after the marker of an exercise with a plain name.
pub open spec fn exercise_opened(st: ScanState, name: Seq<char>) -> ScanState {
    ScanState {
        section: TutoringSection::Exercise,
        exercises: with_closed_exercise(st.exercises, st.exercise),
        exercise: ExerciseView { name, ..no_exercise() },
        ..st
    }
}

/// The lines of a faithful code snippet are whole, and reading them
/// closes what was staged and stages the snippet as it was written.
pub proof fn lemma_scan_snippet(st: ScanState, s: CodeSnippetView, number: nat)
    requires
        faithful_snippet(s),
    ensures
        scan_front(st, snippet_lines(s, number)) == (ScanState {
            snippet: s,
            ..snippet_opened(st, s.title)
        }),
        all_whole(snippet_lines(s, number)),
{
    lemma_marker_characters();
    let m = record_marker(SNIPPET_OPEN@, number, s.title);
    lemma_marker_reading(SNIPPET_OPEN@, number, s.title);
    assert(m[3] == SNIPPET_OPEN@[3]) by {
        assert(m.subrange(0, 15)[3] == m[3]);
    }
    lemma_differs_at(m, EXPLANATION_OPEN@, 3);
    let st1 = snippet_opened(st, s.title);
    assert(step(st, m) == st1);
    let head = seq![m];
    lemma_scan_one(st, m);
    assert(scan_front(st, head) == st1);
    let described = description_lines(SNIPPET_TAG@, s.description);
    let st2 = ScanState {
        snippet: CodeSnippetView { description: s.description, ..st1.snippet },
        ..st1
    };
    if s.description.len() == 0 {
        assert(s.description =~= Seq::<char>::empty());
        assert(scan_front(st1, described) == st2);
        assert(all_whole(described));
    } else {
        let d = SNIPPET_TAG@ + seq![' '] + s.description;
        lemma_description_reading(SNIPPET_TAG@, s.description);
        lemma_differs_at(d, EXPLANATION_OPEN@, 0);
        lemma_differs_at(d, SNIPPET_OPEN@, 0);
        lemma_differs_at(d, EXERCISE_OPEN@, 0);
        assert(step(st1, d) == st2);
        lemma_scan_one(st1, d);
        assert(scan_front(st1, described) == st2);
        assert(all_whole(described));
    }
    let body = body_lines(s.code);
    lemma_body_lines_whole(s.code, TutoringSection::Snippet);
    lemma_scan_body(st2, body);
    lemma_with_split_lines(Seq::<char>::empty(), s.code);
    assert(with_lines(st2.snippet.code, body) == s.code);
    lemma_scan_front_concat(st, head, described);
    lemma_scan_front_concat(st, head + described, body);
    assert(all_whole(head));
    lemma_all_whole_concat(head, described);
    lemma_all_whole_concat(head + described, body);
}

/// The lines of a faithful exercise are whole, and reading them closes
/// what was staged and stages the exercise as it was written.
pub proof fn lemma_scan_exercise(st: ScanState, e: ExerciseView, number: nat)
    requires
        faithful_exercise(e),
    ensures
        scan_front(st, exercise_lines(e, number)) == (ScanState {
            exercise: e,
            ..exercise_opened(st, e.name)
        }),
        all_whole(exercise_lines(e, number)),
{
    lemma_marker_characters();
    let m = record_marker(EXERCISE_OPEN@, number, e.name);
    lemma_marker_reading(EXERCISE_OPEN@, number, e.name);
    assert(m[3] == EXERCISE_OPEN@[3] && m[5] == EXERCISE_OPEN@[5]) by {
        assert(m.subrange(0, 11)[3] == m[3]);
        assert(m.subrange(0, 11)[5] == m[5]);
    }
    lemma_differs_at(m, EXPLANATION_OPEN@, 5);
    lemma_differs_at(m, SNIPPET_OPEN@, 3);
    let st1 = exercise_opened(st, e.name);
    assert(step(st, m) == st1);
    let head = seq![m];
    lemma_scan_one(st, m);
    assert(scan_front(st, head) == st1);
    let described = description_lines(EXERCISE_TAG@, e.description);
    let st2 = ScanState {
        exercise: ExerciseView { description: e.description, ..st1.exercise },
        ..st1
    };
    if e.description.len() == 0 {
        assert(e.description =~= Seq::<char>::empty());
        assert(scan_front(st1, described) == st2);
        assert(all_whole(described));
    } else {
        let d = EXERCISE_TAG@ + seq![' '] + e.description;
        lemma_description_reading(EXERCISE_TAG@, e.description);
        lemma_differs_at(d, EXPLANATION_OPEN@, 0);
        lemma_differs_at(d, SNIPPET_OPEN@, 0);
        lemma_differs_at(d, EXERCISE_OPEN@, 0);
        assert(step(st1, d) == st2);
        lemma_scan_one(st1, d);
        assert(scan_front(st1, described) == st2);
        assert(all_whole(described));
    }
    let body = body_lines(e.code);
    lemma_body_lines_whole(e.code, TutoringSection::Exercise);
    lemma_scan_body(st2, body);
    lemma_with_split_lines(Seq::<char>::empty(), e.code);
    assert(with_lines(st2.exercise.code, body) == e.code);
    lemma_scan_front_concat(st, head, described);
    lemma_scan_front_concat(st, head + described, body);
    assert(all_whole(head));
    lemma_all_whole_concat(head, described);
    lemma_all_whole_concat(head + described, body);
}

/// Reading the lines of faithful code snippets adds exactly those
/// snippets, in order, to what closing the staged one had found, and
/// leaves the explanation and the exercises alone.
pub proof fn lemma_scan_snippets(st: ScanState, snippets: Seq<CodeSnippetView>, done: nat)
    requires
        forall|i: int| 0 <= i < snippets.len() ==> faithful_snippet(#[trigger] snippets[i]),
    ensures
        ({
            let end = scan_front(st, all_snippet_lines(snippets, done));
            &&& with_closed_snippet(end.snippets, end.snippet) == with_closed_snippet(
                st.snippets,
                st.snippet,
            ) + snippets
            &&& end.explanation == st.explanation
            &&& end.exercise == st.exercise
            &&& end.exercises == st.exercises
        }),
        all_whole(all_snippet_lines(snippets, done)),
    decreases snippets.len(),
{
    let found = with_closed_snippet(st.snippets, st.snippet);
    if snippets.len() == 0 {
        assert(found + snippets =~= found);
    } else {
        let first = snippets[0];
        let rest = snippets.drop_first();
        assert(faithful_snippet(first));
        lemma_scan_snippet(st, first, done + 1);
        let st1 = scan_front(st, snippet_lines(first, done + 1));
        assert forall|i: int| 0 <= i < rest.len() implies faithful_snippet(#[trigger] rest[i]) by {
            assert(rest[i] == snippets[i + 1]);
        }
        lemma_scan_snippets(st1, rest, done + 1);
        lemma_scan_front_concat(
            st,
            snippet_lines(first, done + 1),
            all_snippet_lines(rest, done + 1),
        );
        assert(with_closed_snippet(st1.snippets, st1.snippet) == found.push(first));
        assert(found.push(first) + rest =~= found + snippets);
        lemma_all_whole_concat(snippet_lines(first, done + 1), all_snippet_lines(rest, done + 1));
    }
}

/// Reading the lines of faithful exercises adds exactly those exercises,
/// in order, to what closing the staged one had found, and leaves the
/// explanation and the code snippets alone.
pub proof fn lemma_scan_exercises(st: ScanState, exercises: Seq<ExerciseView>, done: nat)
    requires
        forall|i: int| 0 <= i < exercises.len() ==> faithful_exercise(#[trigger] exercises[i]),
    ensures
        ({
            let end = scan_front(st, all_exercise_lines(exercises, done));
            &&& with_closed_exercise(end.exercises, end.exercise) == with_closed_exercise(
                st.exercises,
                st.exercise,
            ) + exercises
            &&& end.explanation == st.explanation
            &&& end.snippet == st.snippet
            &&& end.snippets == st.snippets
        }),
        all_whole(all_exercise_lines(exercises, done)),
    decreases exercises.len(),
{
    let found = with_closed_exercise(st.exercises, st.exercise);
    if exercises.len() == 0 {
        assert(found + exercises =~= found);
    } else {
        let first = exercises[0];
        let rest = exercises.drop_first();
        assert(faithful_exercise(first));
        lemma_scan_exercise(st, first, done + 1);
        let st1 = scan_front(st, exercise_lines(first, done + 1));
        assert forall|i: int| 0 <= i < rest.len() implies faithful_exercise(#[trigger] rest[i]) by {
            assert(rest[i] == exercises[i + 1]);
        }
        lemma_scan_exercises(st1, rest, done + 1);
        lemma_scan_front_concat(
            st,
            exercise_lines(first, done + 1),
            all_exercise_lines(rest, done + 1),
        );
        assert(with_closed_exercise(st1.exercises, st1.exercise) == found.push(first));
        assert(found.push(first) + rest =~= found + exercises);
        lemma_all_whole_concat(
            exercise_lines(first, done + 1),
            all_exercise_lines(rest, done + 1),
        );
    }
}

/// Reading back what was written: a faithful record that is written in
/// the tutoring-module grammar and read again is the same record, field
/// for field. In particular a text written from `k` code snippets and `m`
/// exercises is read as exactly `k` code snippets and `m` exercises, in
/// the order in which they were written.
pub proof fn lemma_tutoring_round_trip(r: PromptResponseView)
    requires
        faithful(r),
    ensures
        parse_tutoring(render_tutoring(r)) == r,
        parse_tutoring(render_tutoring(r)).code_snippets.len() == r.code_snippets.len(),
        parse_tutoring(render_tutoring(r)).exercises.len() == r.exercises.len(),
{
    lemma_marker_characters();
    let marker = explanation_marker();
    let head = seq![marker];
    let prose = body_lines(r.explanation);
    let snippets = all_snippet_lines(r.code_snippets, 0);
    let exercises = all_exercise_lines(r.exercises, 0);
    let all = tutoring_lines(r);
    let start = initial_state();
    // The marker opens the explanation.
    assert(!has_fence(Seq::<char>::empty())) by {
        reveal_strlit("```");
    }
    lemma_framed_fence(marker, Seq::<char>::empty(), Seq::<char>::empty());
    assert(marker + Seq::<char>::empty() + Seq::<char>::empty() =~= marker);
    lemma_strip_fences_plain(marker);
    let st0 = ScanState { section: TutoringSection::Explanation, ..start };
    assert(step(start, marker) == st0);
    lemma_scan_one(start, marker);
    assert(scan_front(start, head) == st0);
    assert(whole_line(marker));
    assert(all_whole(head));
    // Its lines are the explanation.
    lemma_body_lines_whole(r.explanation, TutoringSection::Explanation);
    lemma_scan_body(st0, prose);
    let st1 = scan_front(st0, prose);
    if r.explanation.len() == 0 {
        assert(r.explanation =~= Seq::<char>::empty());
    } else {
        lemma_with_split_lines(Seq::<char>::empty(), r.explanation);
    }
    assert(st1.explanation == r.explanation);
    // The code snippets and the exercises follow.
    lemma_scan_snippets(st1, r.code_snippets, 0);
    let st2 = scan_front(st1, snippets);
    lemma_scan_exercises(st2, r.exercises, 0);
    let st3 = scan_front(st2, exercises);
    lemma_scan_front_concat(start, head, prose);
    lemma_scan_front_concat(start, head + prose, snippets);
    lemma_scan_front_concat(start, head + prose + snippets, exercises);
    assert(scan_front(start, all) == st3);
    lemma_all_whole_concat(head, prose);
    lemma_all_whole_concat(head + prose, snippets);
    lemma_all_whole_concat(head + prose + snippets, exercises);
    lemma_lines_of_joined(all);
    lemma_scan_front_is_scan(start, all);
    let read = finish(st3);
    assert(read.explanation == r.explanation);
    assert(read.code_snippets =~= r.code_snippets);
    assert(read.exercises =~= r.exercises);
}

/// The text of one line is the line closed by a line feed.
pub proof fn lemma_joined_one(line: Seq<char>)
    ensures
        joined_lines(seq![line]) == line + seq!['\n'],
{
    let one = seq![line];
    assert(one.drop_first() =~= Seq::<Seq<char>>::empty());
    assert(joined_lines(one.drop_first()) =~= Seq::<char>::empty());
    assert(one[0] + seq!['\n'] + joined_lines(one.drop_first()) =~= line + seq!['\n']);
}

/// The text of two runs of lines is the text of the first followed by the
/// text of the second.
pub proof fn lemma_joined_lines_concat(a: Seq<Seq<char>>, b: Seq<Seq<char>>)
    ensures
        joined_lines(a + b) == joined_lines(a) + joined_lines(b),
    decreases a.len(),
{
    if a.len() == 0 {
        assert(a + b =~= b);
        assert(joined_lines(a) + joined_lines(b) =~= joined_lines(b));
    } else {
        assert((a + b)[0] == a[0]);
        assert((a + b).drop_first() =~= a.drop_first() + b);
        lemma_joined_lines_concat(a.drop_first(), b);
        assert(joined_lines(a + b) =~= joined_lines(a) + joined_lines(b));
    }
}

/// The text of the parts of a text between its line feeds is the text
/// itself, closed by a line feed.
pub proof fn lemma_joined_split_lines(body: Seq<char>)
    ensures
        joined_lines(split_lines_of(body)) == body + seq!['\n'],
    decreases body.len(),
{
    let k = first_index_of(body, '\n');
    lemma_first_index_of(body, '\n');
    let parts = split_lines_of(body);
    if 0 <= k < body.len() {
        let rest = body.skip(k + 1);
        lemma_joined_split_lines(rest);
        assert(parts[0] == body.take(k));
        assert(parts.drop_first() =~= split_lines_of(rest));
        assert(body =~= body.take(k) + seq!['\n'] + rest);
        assert(joined_lines(parts) =~= body + seq!['\n']);
    } else {
        assert(parts =~= seq![body]);
        assert(parts.drop_first() =~= Seq::<Seq<char>>::empty());
        assert(joined_lines(parts.drop_first()) =~= Seq::<char>::empty());
        assert(joined_lines(parts) =~= body + seq!['\n']);
    }
}

/// The text of the lines of a body: nothing for an empty body, else the
/// body closed by a line feed.
pub proof fn lemma_joined_body_lines(body: Seq<char>)
    ensures
        joined_lines(body_lines(body)) == if body.len() == 0 {
            Seq::<char>::empty()
        } else {
            body + seq!['\n']
        },
{
    if body.len() > 0 {
        lemma_joined_split_lines(body);
    }
}

/// The lines of code snippets with one more at the end.
pub proof fn lemma_snippet_lines_push(snippets: Seq<CodeSnippetView>, last: CodeSnippetView, done: nat)
    ensures
        all_snippet_lines(snippets.push(last), done) == all_snippet_lines(snippets, done)
            + snippet_lines(last, done + snippets.len() + 1),
    decreases snippets.len(),
{
    let more = snippets.push(last);
    if snippets.len() == 0 {
        assert(more.drop_first() =~= Seq::<CodeSnippetView>::empty());
        assert(all_snippet_lines(more.drop_first(), done + 1) =~= Seq::<Seq<char>>::empty());
        assert(all_snippet_lines(more, done) =~= snippet_lines(last, done + 1));
        assert(all_snippet_lines(snippets, done) + snippet_lines(last, done + 1) =~= snippet_lines(
            last,
            done + 1,
        ));
    } else {
        assert(more[0] == snippets[0]);
        assert(more.drop_first() =~= snippets.drop_first().push(last));
        lemma_snippet_lines_push(snippets.drop_first(), last, done + 1);
        assert(all_snippet_lines(more, done) =~= all_snippet_lines(snippets, done)
            + snippet_lines(last, done + snippets.len() + 1));
    }
}

/// The lines of exercises with one more at the end.
pub proof fn lemma_exercise_lines_push(exercises: Seq<ExerciseView>, last: ExerciseView, done: nat)
    ensures
        all_exercise_lines(exercises.push(last), done) == all_exercise_lines(exercises, done)
            + exercise_lines(last, done + exercises.len() + 1),
    decreases exercises.len(),
{
    let more = exercises.push(last);
    if exercises.len() == 0 {
        assert(more.drop_first() =~= Seq::<ExerciseView>::empty());
        assert(all_exercise_lines(more.drop_first(), done + 1) =~= Seq::<Seq<char>>::empty());
        assert(all_exercise_lines(more, done) =~= exercise_lines(last, done + 1));
        assert(all_exercise_lines(exercises, done) + exercise_lines(last, done + 1)
            =~= exercise_lines(last, done + 1));
    } else {
        assert(more[0] == exercises[0]);
        assert(more.drop_first() =~= exercises.drop_first().push(last));
        lemma_exercise_lines_push(exercises.drop_first(), last, done + 1);
        assert(all_exercise_lines(more, done) =~= all_exercise_lines(exercises, done)
            + exercise_lines(last, done + exercises.len() + 1));
    }
}

/// The lines of a record under its marker.
pub open spec fn record_lines(
    open: Seq<char>,
    tag: Seq<char>,
    number: nat,
    title: Seq<char>,
    description: Seq<char>,
    code: Seq<char>,
) -> Seq<Seq<char>> {
    seq![record_marker(open, number, title)] + description_lines(tag, description) + body_lines(
        code,
    )
}

/// Appends a line and the line feed that closes it.
pub fn push_line(out: &mut Vec<char>, line: &str)
    ensures
        final(out)@ == old(out)@ + joined_lines(seq![line@]),
{
    proof {
        lemma_joined_one(line@);
    }
    push_str(out, line);
    out.push('\n');
    assert(out@ =~= old(out)@ + (line@ + seq!['\n']));
}

/// The text of lines with one more line at the end.
pub proof fn lemma_joined_lines_push(ls: Seq<Seq<char>>, line: Seq<char>)
    ensures
        joined_lines(ls.push(line)) == joined_lines(ls) + joined_lines(seq![line]),
{
    assert(ls.push(line) =~= ls + seq![line]);
    lemma_joined_lines_concat(ls, seq![line]);
}

/// Appends a body and the line feed that closes it, if there is a body.
pub fn push_body(out: &mut Vec<char>, body: &str)
    ensures
        final(out)@ == old(out)@ + joined_lines(body_lines(body@)),
{
    proof {
        lemma_joined_body_lines(body@);
    }
    if !body.is_empty() {
        push_str(out, body);
        out.push('\n');
        assert(out@ =~= old(out)@ + (body@ + seq!['\n']));
    } else {
        assert(out@ =~= old(out)@ + Seq::<char>::empty());
    }
}

/// Appends a record under its marker.
fn push_record(
    out: &mut Vec<char>,
    open: &str,
    tag: &str,
    number: usize,
    title: &str,
    description: &str,
    code: &str,
)
    ensures
        final(out)@ == old(out)@ + joined_lines(
            record_lines(open@, tag@, number as nat, title@, description@, code@),
        ),
{
    let ghost marker = record_marker(open@, number as nat, title@);
    let ghost described = description_lines(tag@, description@);
    let ghost body = body_lines(code@);
    proof {
        reveal_strlit(">>>");
        lemma_joined_lines_concat(seq![marker], described);
        lemma_joined_lines_concat(seq![marker] + described, body);
        lemma_joined_one(marker);
    }
    push_str(out, open);
    out.push(' ');
    push_decimal(out, number as u64);
    out.push(':');
    out.push(' ');
    push_str(out, title);
    push_str(out, ">>>");
    out.push('\n');
    assert(out@ =~= old(out)@ + joined_lines(seq![marker]));
    let ghost after_marker = out@;
    if !description.is_empty() {
        push_str(out, tag);
        out.push(' ');
        push_str(out, description);
        out.push('\n');
        proof {
            let d = tag@ + seq![' '] + description@;
            assert(described =~= seq![d]);
            lemma_joined_one(d);
            assert(out@ =~= after_marker + joined_lines(described));
        }
    } else {
        assert(joined_lines(described) =~= Seq::<char>::empty());
        assert(out@ =~= after_marker + joined_lines(described));
    }
    push_body(out, code);
    assert(out@ =~= old(out)@ + (joined_lines(seq![marker]) + joined_lines(described)
        + joined_lines(body)));
}

impl crate::prompt_response::PromptResponse {
    /// Writes the record in the tutoring-module grammar: the explanation
    /// under its marker, then every code snippet and every exercise under
    /// a marker with its number and title, a line for its description if
    /// it has one, and its code.
    pub fn to_grammar_text(&self) -> (text: String)
        ensures
            text@ == render_tutoring(self@),
    {
        let mut out: Vec<char> = Vec::new();
        let ghost snippets = self@.code_snippets;
        let ghost exercises = self@.exercises;
        let ghost head = seq![explanation_marker()];
        let ghost prose = body_lines(self@.explanation);
        push_str(&mut out, EXPLANATION_OPEN);
        push_str(&mut out, ">>>");
        out.push('\n');
        proof {
            lemma_joined_one(explanation_marker());
            assert(out@ =~= joined_lines(head));
            lemma_joined_lines_concat(head, prose);
        }
        push_body(&mut out, self.explanation.as_str());
        let ghost start = head + prose;
        assert(out@ == joined_lines(start));
        let mut i: usize = 0;
        proof {
            assert(snippets.take(0) =~= Seq::<CodeSnippetView>::empty());
            assert(start + all_snippet_lines(snippets.take(0), 0) =~= start);
        }
        while i < self.code_snippets.len()
            invariant
                i <= self.code_snippets.len(),
                snippets == crate::prompt_response::snippet_views(self.code_snippets@),
                out@ == joined_lines(start + all_snippet_lines(snippets.take(i as int), 0)),
            decreases self.code_snippets.len() - i,
        {
            let snippet = &self.code_snippets[i];
            proof {
                let before = all_snippet_lines(snippets.take(i as int), 0);
                let added = snippet_lines(snippets[i as int], (i + 1) as nat);
                assert(snippets[i as int] == snippet@);
                assert(snippets.take(i + 1) =~= snippets.take(i as int).push(snippets[i as int]));
                lemma_snippet_lines_push(snippets.take(i as int), snippets[i as int], 0);
                lemma_joined_lines_concat(start + before, added);
                assert(start + (before + added) =~= (start + before) + added);
            }
            push_record(
                &mut out,
                SNIPPET_OPEN,
                SNIPPET_TAG,
                i + 1,
                snippet.title.as_str(),
                snippet.description.as_str(),
                snippet.code.as_str(),
            );
            i += 1;
        }
        assert(snippets.take(i as int) =~= snippets);
        let ghost middle = start + all_snippet_lines(snippets, 0);
        let mut j: usize = 0;
        proof {
            assert(exercises.take(0) =~= Seq::<ExerciseView>::empty());
            assert(middle + all_exercise_lines(exercises.take(0), 0) =~= middle);
        }
        while j < self.exercises.len()
            invariant
                j <= self.exercises.len(),
                exercises == crate::prompt_response::exercise_views(self.exercises@),
                out@ == joined_lines(middle + all_exercise_lines(exercises.take(j as int), 0)),
            decreases self.exercises.len() - j,
        {
            let exercise = &self.exercises[j];
            proof {
                let before = all_exercise_lines(exercises.take(j as int), 0);
                let added = exercise_lines(exercises[j as int], (j + 1) as nat);
                assert(exercises[j as int] == exercise@);
                assert(exercises.take(j + 1) =~= exercises.take(j as int).push(
                    exercises[j as int],
                ));
                lemma_exercise_lines_push(exercises.take(j as int), exercises[j as int], 0);
                lemma_joined_lines_concat(middle + before, added);
                assert(middle + (before + added) =~= (middle + before) + added);
            }
            push_record(
                &mut out,
                EXERCISE_OPEN,
                EXERCISE_TAG,
                j + 1,
                exercise.name.as_str(),
                exercise.description.as_str(),
                exercise.code.as_str(),
            );
            j += 1;
        }
        assert(exercises.take(j as int) =~= exercises);
        string_of(out.as_slice())
    }
}

/// The module made from a text that was written from `k` code snippets
/// and `m` exercises holds exactly those, in order; where there is none
/// of a kind, it holds exactly the one placeholder of that kind.
pub proof fn lemma_module_of_written_text(topic: Seq<char>, r: PromptResponseView)
    requires
        faithful(r),
    ensures
        ({
            let module = module_from(topic, parse_tutoring(render_tutoring(r)));
            &&& module.topic == topic
            &&& module.explanation == r.explanation
            &&& r.code_snippets.len() > 0 ==> module.code_snippets == r.code_snippets
            &&& r.code_snippets.len() == 0 ==> module.code_snippets == seq![placeholder_snippet()]
            &&& r.exercises.len() > 0 ==> module.exercises == r.exercises
            &&& r.exercises.len() == 0 ==> module.exercises == seq![placeholder_exercise()]
        }),
{
    lemma_tutoring_round_trip(r);
}

} // verus!
