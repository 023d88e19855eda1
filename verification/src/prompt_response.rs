//! The tutoring-module grammar: explanation, code snippets and exercises
//! recovered from a line-oriented text.

use crate::text::{
    chars_of, copy_range, find_from, first_index_of, has_prefix, lines, push_all, remove_all,
    repeated_prefix_end, rows, split_lines, starts_with, string_of, strip_repeated_prefix, trim,
    trim_class, trimmed, without, CharClass,
};
use vstd::prelude::*;

verus! {

/// Marker that opens the explanation.
pub const EXPLANATION_OPEN: &'static str = "<<<explanation:";

/// Marker that opens a code snippet.
pub const SNIPPET_OPEN: &'static str = "<<<code_snippet";

/// Marker that opens an exercise.
pub const EXERCISE_OPEN: &'static str = "<<<exercise";

/// Tag of the line that describes the code snippet it stands in.
pub const SNIPPET_TAG: &'static str = "# code snippet:";

/// Tag of the line that describes the exercise it stands in.
pub const EXERCISE_TAG: &'static str = "# exercise description:";

/// A code fence with the language tag.
pub const FENCE_RUST: &'static str = "```rust";

/// A bare code fence.
pub const FENCE: &'static str = "```";

/// A code sample with its title and description.
#[derive(Debug, Clone)]
pub struct CodeSnippet {
    pub title: String,
    pub description: String,
    pub code: String,
}

/// An exercise with its name and description.
#[derive(Debug, Clone)]
pub struct Exercise {
    pub name: String,
    pub description: String,
    pub code: String,
}

/// What the tutoring-module grammar yields for one text.
#[derive(Debug, Clone)]
pub struct PromptResponse {
    pub explanation: String,
    pub code_snippets: Vec<CodeSnippet>,
    pub exercises: Vec<Exercise>,
}

/// Mathematical value of a `CodeSnippet`.
pub struct CodeSnippetView {
    pub title: Seq<char>,
    pub description: Seq<char>,
    pub code: Seq<char>,
}

/// Mathematical value of an `Exercise`.
pub struct ExerciseView {
    pub name: Seq<char>,
    pub description: Seq<char>,
    pub code: Seq<char>,
}

/// Mathematical value of a `PromptResponse`.
pub struct PromptResponseView {
    pub explanation: Seq<char>,
    pub code_snippets: Seq<CodeSnippetView>,
    pub exercises: Seq<ExerciseView>,
}

impl View for CodeSnippet {
    type V = CodeSnippetView;

    open spec fn view(&self) -> CodeSnippetView {
        CodeSnippetView { title: self.title@, description: self.description@, code: self.code@ }
    }
}

impl View for Exercise {
    type V = ExerciseView;

    open spec fn view(&self) -> ExerciseView {
        ExerciseView { name: self.name@, description: self.description@, code: self.code@ }
    }
}

/// The values of a sequence of code snippets.
pub open spec fn snippet_views(v: Seq<CodeSnippet>) -> Seq<CodeSnippetView> {
    v.map_values(|s: CodeSnippet| s@)
}

/// The values of a sequence of exercises.
pub open spec fn exercise_views(v: Seq<Exercise>) -> Seq<ExerciseView> {
    v.map_values(|e: Exercise| e@)
}

impl View for PromptResponse {
    type V = PromptResponseView;

    open spec fn view(&self) -> PromptResponseView {
        PromptResponseView {
            explanation: self.explanation@,
            code_snippets: snippet_views(self.code_snippets@),
            exercises: exercise_views(self.exercises@),
        }
    }
}

/// The part of the text that the scan is in.
#[derive(Debug, Clone, Copy, PartialEq, Eq, Structural)]
pub enum TutoringSection {
    /// Before the first marker: lines are dropped.
    Outside,
    /// Lines go to the explanation.
    Explanation,
    /// Lines go to the staged code snippet.
    Snippet,
    /// Lines go to the staged exercise.
    Exercise,
}

/// State of the scan between two lines.
pub struct ScanState {
    pub section: TutoringSection,
    pub explanation: Seq<char>,
    pub snippet: CodeSnippetView,
    pub exercise: ExerciseView,
    pub snippets: Seq<CodeSnippetView>,
    pub exercises: Seq<ExerciseView>,
}

/// A line without its code fences.
pub open spec fn strip_fences(line: Seq<char>) -> Seq<char> {
    remove_all(remove_all(line, FENCE_RUST@), FENCE@)
}

/// A body with one more line: lines are separated by a line feed.
pub open spec fn append_line(body: Seq<char>, line: Seq<char>) -> Seq<char> {
    if body.len() == 0 {
        line
    } else {
        body + seq!['\n'] + line
    }
}

/// The label of a marker line: what follows the first colon, without the
/// closing angle brackets and the white space around it. Empty where the
/// line has no colon.
pub open spec fn label_of(line: Seq<char>) -> Seq<char> {
    let k = first_index_of(line, ':');
    if 0 <= k < line.len() {
        trim(trim_class(line.skip(k + 1), CharClass::Exactly('>')))
    } else {
        Seq::empty()
    }
}

/// What follows a description tag, without the white space around it.
pub open spec fn tagged_text(line: Seq<char>, tag: Seq<char>) -> Seq<char> {
    trim(strip_repeated_prefix(line, tag))
}

/// An empty staged code snippet.
pub open spec fn no_snippet() -> CodeSnippetView {
    CodeSnippetView { title: Seq::empty(), description: Seq::empty(), code: Seq::empty() }
}

/// An empty staged exercise.
pub open spec fn no_exercise() -> ExerciseView {
    ExerciseView { name: Seq::empty(), description: Seq::empty(), code: Seq::empty() }
}

/// The snippets found once the staged one is closed: it counts only with a
/// title and a body.
pub open spec fn with_closed_snippet(
    found: Seq<CodeSnippetView>,
    staged: CodeSnippetView,
) -> Seq<CodeSnippetView> {
    if staged.title.len() > 0 && staged.code.len() > 0 {
        found.push(staged)
    } else {
        found
    }
}

/// The exercises found once the staged one is closed: it counts only with a
/// name and a body.
pub open spec fn with_closed_exercise(
    found: Seq<ExerciseView>,
    staged: ExerciseView,
) -> Seq<ExerciseView> {
    if staged.name.len() > 0 && staged.code.len() > 0 {
        found.push(staged)
    } else {
        found
    }
}

/// State before the first line.
pub open spec fn initial_state() -> ScanState {
    ScanState {
        section: TutoringSection::Outside,
        explanation: Seq::empty(),
        snippet: no_snippet(),
        exercise: no_exercise(),
        snippets: Seq::empty(),
        exercises: Seq::empty(),
    }
}

/// State after one more line.
pub open spec fn step(st: ScanState, raw: Seq<char>) -> ScanState {
    let line = strip_fences(raw);
    if starts_with(line, EXPLANATION_OPEN@) {
        ScanState { section: TutoringSection::Explanation, ..st }
    } else if starts_with(line, SNIPPET_OPEN@) {
        ScanState {
            section: TutoringSection::Snippet,
            snippets: with_closed_snippet(st.snippets, st.snippet),
            snippet: CodeSnippetView { title: label_of(line), ..no_snippet() },
            ..st
        }
    } else if starts_with(line, EXERCISE_OPEN@) {
        ScanState {
            section: TutoringSection::Exercise,
            exercises: with_closed_exercise(st.exercises, st.exercise),
            exercise: ExerciseView { name: label_of(line), ..no_exercise() },
            ..st
        }
    } else if st.section == TutoringSection::Snippet && starts_with(line, SNIPPET_TAG@) {
        ScanState {
            snippet: CodeSnippetView {
                description: tagged_text(line, SNIPPET_TAG@),
                ..st.snippet
            },
            ..st
        }
    } else if st.section == TutoringSection::Exercise && starts_with(line, EXERCISE_TAG@) {
        ScanState {
            exercise: ExerciseView {
                description: tagged_text(line, EXERCISE_TAG@),
                ..st.exercise
            },
            ..st
        }
    } else if line.len() == 0 {
        st
    } else {
        match st.section {
            TutoringSection::Outside => st,
            TutoringSection::Explanation => ScanState {
                explanation: append_line(st.explanation, line),
                ..st
            },
            TutoringSection::Snippet => ScanState {
                snippet: CodeSnippetView { code: append_line(st.snippet.code, line), ..st.snippet },
                ..st
            },
            TutoringSection::Exercise => ScanState {
                exercise: ExerciseView {
                    code: append_line(st.exercise.code, line),
                    ..st.exercise
                },
                ..st
            },
        }
    }
}

/// State after the given lines, taken in order from `st`.
pub open spec fn scan_from(st: ScanState, lines: Seq<Seq<char>>) -> ScanState
    decreases lines.len(),
{
    if lines.len() == 0 {
        st
    } else {
        step(scan_from(st, lines.drop_last()), lines.last())
    }
}

/// What the scan has found when the text ends in state `st`.
pub open spec fn finish(st: ScanState) -> PromptResponseView {
    PromptResponseView {
        explanation: st.explanation,
        code_snippets: with_closed_snippet(st.snippets, st.snippet),
        exercises: with_closed_exercise(st.exercises, st.exercise),
    }
}

/// What the tutoring-module grammar yields for a text.
pub open spec fn parse_tutoring(text: Seq<char>) -> PromptResponseView {
    finish(scan_from(initial_state(), lines(text)))
}

/// A line without its code fences.
pub fn without_fences(raw: &[char]) -> (line: Vec<char>)
    ensures
        line@ == strip_fences(raw@),
{
    let first = without(raw, FENCE_RUST);
    without(first.as_slice(), FENCE)
}

/// Adds a line to a body.
pub fn add_line(body: &mut Vec<char>, line: &[char])
    ensures
        final(body)@ == append_line(old(body)@, line@),
{
    if body.len() > 0 {
        body.push('\n');
    }
    push_all(body, line);
    proof {
        if old(body)@.len() == 0 {
            assert(old(body)@ + line@ =~= line@);
        } else {
            assert(old(body)@.push('\n') + line@ =~= old(body)@ + seq!['\n'] + line@);
        }
    }
}

/// The label of a marker line.
pub fn marker_label(line: &[char]) -> (label: Vec<char>)
    ensures
        label@ == label_of(line@),
{
    assert(line@.skip(0) =~= line@);
    let k = find_from(line, 0, ':');
    if k < line.len() {
        let rest = copy_range(line, k + 1, line.len());
        assert(rest@ =~= line@.skip(k + 1));
        let inner = trimmed(rest.as_slice(), CharClass::Exactly('>'));
        trimmed(inner.as_slice(), CharClass::Whitespace)
    } else {
        Vec::new()
    }
}

/// What follows the description tag `tag` on `line`.
pub fn text_after_tag(line: &[char], tag: &str) -> (text: Vec<char>)
    ensures
        text@ == tagged_text(line@, tag@),
{
    let from = repeated_prefix_end(line, tag);
    let rest = copy_range(line, from, line.len());
    assert(rest@ =~= line@.skip(from as int));
    trimmed(rest.as_slice(), CharClass::Whitespace)
}

/// The scan's executable state.
struct Scanner {
    section: TutoringSection,
    explanation: Vec<char>,
    snippet_title: Vec<char>,
    snippet_description: Vec<char>,
    snippet_code: Vec<char>,
    exercise_name: Vec<char>,
    exercise_description: Vec<char>,
    exercise_code: Vec<char>,
    snippets: Vec<CodeSnippet>,
    exercises: Vec<Exercise>,
}

impl View for Scanner {
    type V = ScanState;

    closed spec fn view(&self) -> ScanState {
        ScanState {
            section: self.section,
            explanation: self.explanation@,
            snippet: CodeSnippetView {
                title: self.snippet_title@,
                description: self.snippet_description@,
                code: self.snippet_code@,
            },
            exercise: ExerciseView {
                name: self.exercise_name@,
                description: self.exercise_description@,
                code: self.exercise_code@,
            },
            snippets: snippet_views(self.snippets@),
            exercises: exercise_views(self.exercises@),
        }
    }
}

impl Scanner {
    fn new() -> (s: Scanner)
        ensures
            s@ == initial_state(),
    {
        let s = Scanner {
            section: TutoringSection::Outside,
            explanation: Vec::new(),
            snippet_title: Vec::new(),
            snippet_description: Vec::new(),
            snippet_code: Vec::new(),
            exercise_name: Vec::new(),
            exercise_description: Vec::new(),
            exercise_code: Vec::new(),
            snippets: Vec::new(),
            exercises: Vec::new(),
        };
        assert(snippet_views(s.snippets@) =~= Seq::<CodeSnippetView>::empty());
        assert(exercise_views(s.exercises@) =~= Seq::<ExerciseView>::empty());
        s
    }

    /// Closes the staged code snippet.
    fn close_snippet(&mut self)
        ensures
            final(self)@ == (ScanState {
                snippets: with_closed_snippet(old(self)@.snippets, old(self)@.snippet),
                ..old(self)@
            }),
    {
        if self.snippet_title.len() > 0 && self.snippet_code.len() > 0 {
            let snippet = CodeSnippet {
                title: string_of(self.snippet_title.as_slice()),
                description: string_of(self.snippet_description.as_slice()),
                code: string_of(self.snippet_code.as_slice()),
            };
            assert(snippet_views(self.snippets@.push(snippet)) =~= snippet_views(
                self.snippets@,
            ).push(snippet@));
            self.snippets.push(snippet);
        }
    }

    /// Closes the staged exercise.
    fn close_exercise(&mut self)
        ensures
            final(self)@ == (ScanState {
                exercises: with_closed_exercise(old(self)@.exercises, old(self)@.exercise),
                ..old(self)@
            }),
    {
        if self.exercise_name.len() > 0 && self.exercise_code.len() > 0 {
            let exercise = Exercise {
                name: string_of(self.exercise_name.as_slice()),
                description: string_of(self.exercise_description.as_slice()),
                code: string_of(self.exercise_code.as_slice()),
            };
            assert(exercise_views(self.exercises@.push(exercise)) =~= exercise_views(
                self.exercises@,
            ).push(exercise@));
            self.exercises.push(exercise);
        }
    }

    /// Takes one more line.
    fn take_line(&mut self, raw: &[char])
        ensures
            final(self)@ == step(old(self)@, raw@),
    {
        let line = without_fences(raw);
        if has_prefix(line.as_slice(), EXPLANATION_OPEN) {
            self.section = TutoringSection::Explanation;
        } else if has_prefix(line.as_slice(), SNIPPET_OPEN) {
            self.close_snippet();
            self.section = TutoringSection::Snippet;
            self.snippet_title = marker_label(line.as_slice());
            self.snippet_description = Vec::new();
            self.snippet_code = Vec::new();
        } else if has_prefix(line.as_slice(), EXERCISE_OPEN) {
            self.close_exercise();
            self.section = TutoringSection::Exercise;
            self.exercise_name = marker_label(line.as_slice());
            self.exercise_description = Vec::new();
            self.exercise_code = Vec::new();
        } else if self.section == TutoringSection::Snippet && has_prefix(line.as_slice(), SNIPPET_TAG) {
            self.snippet_description = text_after_tag(line.as_slice(), SNIPPET_TAG);
        } else if self.section == TutoringSection::Exercise && has_prefix(line.as_slice(), EXERCISE_TAG) {
            self.exercise_description = text_after_tag(line.as_slice(), EXERCISE_TAG);
        } else if line.len() > 0 {
            match self.section {
                TutoringSection::Outside => {},
                TutoringSection::Explanation => add_line(&mut self.explanation, line.as_slice()),
                TutoringSection::Snippet => add_line(&mut self.snippet_code, line.as_slice()),
                TutoringSection::Exercise => add_line(&mut self.exercise_code, line.as_slice()),
            }
        }
    }

    /// Closes what is staged and hands out what was found.
    fn finish(self) -> (r: PromptResponse)
        ensures
            r@ == finish(self@),
    {
        let mut s = self;
        s.close_snippet();
        s.close_exercise();
        PromptResponse {
            explanation: string_of(s.explanation.as_slice()),
            code_snippets: s.snippets,
            exercises: s.exercises,
        }
    }
}

impl PromptResponse {
    /// Reads a text in the tutoring-module grammar. Every text has a
    /// reading: lines that fit no rule are dropped, and a snippet or an
    /// exercise without a title or without a body is left out.
    pub fn parse_response(response: String) -> (r: Result<Self, String>)
        ensures
            r is Ok,
            r->Ok_0@ == parse_tutoring(response@),
            crate::grammar_laws::records_complete(
                r->Ok_0@.code_snippets,
                r->Ok_0@.exercises,
            ),
    {
        proof {
            crate::grammar_laws::lemma_tutoring_records_complete(response@);
        }
        let text = chars_of(response.as_str());
        let lines = split_lines(text.as_slice());
        let mut scanner = Scanner::new();
        let mut i: usize = 0;
        assert(rows(lines@).take(0) =~= Seq::<Seq<char>>::empty());
        while i < lines.len()
            invariant
                i <= lines.len(),
                scanner@ == scan_from(initial_state(), rows(lines@).take(i as int)),
            decreases lines.len() - i,
        {
            assert(rows(lines@).take(i + 1).drop_last() =~= rows(lines@).take(i as int));
            scanner.take_line(lines[i].as_slice());
            i += 1;
        }
        assert(rows(lines@).take(i as int) =~= rows(lines@));
        Ok(scanner.finish())
    }
}

} // verus!
