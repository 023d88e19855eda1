//! Quiz questions and the generated application: the records, the quiz
//! cursor and answers, and the two grammars that produce the records.

use crate::prompt_response::{
    append_line, label_of, snippet_views, strip_fences, without_fences, add_line, marker_label,
    CodeSnippet, CodeSnippetView,
};
use crate::text::{
    chars_of, contains_ignoring_ascii_case, copy_range, ends_with, has_at, has_prefix,
    leading_count, lines, mentions, push_all, push_str, remove_all, rows, skip_leading,
    split_lines, starts_with, string_of, trim, trimmed, without, ascii_lower_code, CharClass,
};
use vstd::prelude::*;

verus! {

/// Kind of a question.
#[derive(Debug, Clone, Copy, PartialEq, Eq, Structural)]
pub enum QuestionType {
    /// A yes/no question.
    Binary,
    /// A question with labelled options.
    Multiple,
}

impl QuestionType {
    /// Name of the kind as shown to the learner.
    pub open spec fn label_text(self) -> Seq<char> {
        match self {
            QuestionType::Binary => "Yes/No"@,
            QuestionType::Multiple => "Multiple Choice"@,
        }
    }

    /// Name of the kind as shown to the learner.
    pub fn label(&self) -> (s: String)
        ensures
            s@ == self.label_text(),
    {
        match self {
            QuestionType::Binary => "Yes/No".to_owned(),
            QuestionType::Multiple => "Multiple Choice".to_owned(),
        }
    }
}

/// One option of a multiple-choice question.
#[derive(Debug, Clone)]
pub struct AnswerOption {
    pub id: String,
    pub text: String,
}

/// A question of the quiz.
#[derive(Debug, Clone)]
pub struct Question {
    pub id: usize,
    pub text: String,
    pub question_type: QuestionType,
    pub options: Vec<AnswerOption>,
    pub selected_answer: Option<String>,
}

/// The questions on one topic, with the cursor that walks them.
#[derive(Debug, Clone)]
pub struct QuestionSet {
    pub topic: String,
    pub questions: Vec<Question>,
    pub current_question_index: usize,
}

/// The application generated from the learner's answers.
#[derive(Debug, Clone)]
pub struct GeneratedApplication {
    pub name: String,
    pub description: String,
    pub features: Vec<String>,
    pub code_snippets: Vec<CodeSnippet>,
}

/// Mathematical value of an `AnswerOption`.
pub struct AnswerOptionView {
    pub id: Seq<char>,
    pub text: Seq<char>,
}

/// Mathematical value of a `Question`.
pub struct QuestionView {
    pub id: nat,
    pub text: Seq<char>,
    pub kind: QuestionType,
    pub options: Seq<AnswerOptionView>,
    pub selected_answer: Option<Seq<char>>,
}

/// Mathematical value of a `QuestionSet`.
pub struct QuestionSetView {
    pub topic: Seq<char>,
    pub questions: Seq<QuestionView>,
    pub cursor: nat,
}

/// Mathematical value of a `GeneratedApplication`.
pub struct GeneratedApplicationView {
    pub name: Seq<char>,
    pub description: Seq<char>,
    pub features: Seq<Seq<char>>,
    pub code_snippets: Seq<CodeSnippetView>,
}

impl View for AnswerOption {
    type V = AnswerOptionView;

    open spec fn view(&self) -> AnswerOptionView {
        AnswerOptionView { id: self.id@, text: self.text@ }
    }
}

/// The values of a sequence of options.
pub open spec fn option_views(v: Seq<AnswerOption>) -> Seq<AnswerOptionView> {
    v.map_values(|o: AnswerOption| o@)
}

/// The text that an optional string holds.
pub open spec fn optional_text(s: Option<String>) -> Option<Seq<char>> {
    match s {
        Some(s) => Some(s@),
        None => None,
    }
}

impl View for Question {
    type V = QuestionView;

    open spec fn view(&self) -> QuestionView {
        QuestionView {
            id: self.id as nat,
            text: self.text@,
            kind: self.question_type,
            options: option_views(self.options@),
            selected_answer: optional_text(self.selected_answer),
        }
    }
}

/// The values of a sequence of questions.
pub open spec fn question_views(v: Seq<Question>) -> Seq<QuestionView> {
    v.map_values(|q: Question| q@)
}

impl View for QuestionSet {
    type V = QuestionSetView;

    open spec fn view(&self) -> QuestionSetView {
        QuestionSetView {
            topic: self.topic@,
            questions: question_views(self.questions@),
            cursor: self.current_question_index as nat,
        }
    }
}

/// The texts of a sequence of strings.
pub open spec fn texts(v: Seq<String>) -> Seq<Seq<char>> {
    v.map_values(|s: String| s@)
}

impl View for GeneratedApplication {
    type V = GeneratedApplicationView;

    open spec fn view(&self) -> GeneratedApplicationView {
        GeneratedApplicationView {
            name: self.name@,
            description: self.description@,
            features: texts(self.features@),
            code_snippets: snippet_views(self.code_snippets@),
        }
    }
}

/// Answer recorded for "yes" on a yes/no question.
pub const ANSWER_YES: &'static str = "Yes";

/// Answer recorded for "no" on a yes/no question.
pub const ANSWER_NO: &'static str = "No";

impl AnswerOptionView {
    /// Whether the key `key` picks this option: the label is the one
    /// character `key`, upper-case and lower-case ASCII letters counting as
    /// equal.
    pub open spec fn picked_by(self, key: char) -> bool {
        self.id.len() == 1 && ascii_lower_code(self.id[0]) == ascii_lower_code(key)
    }
}

/// Position of the first option that `key` picks, or the number of options.
pub open spec fn first_picked(options: Seq<AnswerOptionView>, key: char) -> int
    decreases options.len(),
{
    if options.len() == 0 || options[0].picked_by(key) {
        0
    } else {
        1 + first_picked(options.drop_first(), key)
    }
}

/// `first_picked` is the least position of an option that `key` picks.
pub proof fn lemma_first_picked(options: Seq<AnswerOptionView>, key: char)
    ensures
        0 <= first_picked(options, key) <= options.len(),
        first_picked(options, key) < options.len() ==> options[first_picked(
            options,
            key,
        )].picked_by(key),
        forall|i: int| 0 <= i < first_picked(options, key) ==> !options[i].picked_by(key),
    decreases options.len(),
{
    if options.len() == 0 || options[0].picked_by(key) {
    } else {
        let rest = options.drop_first();
        lemma_first_picked(rest, key);
        assert forall|i: int| 0 <= i < first_picked(options, key) implies !options[i].picked_by(
            key,
        ) by {
            if i > 0 {
                assert(options[i] == rest[i - 1]);
            }
        }
    }
}

impl QuestionView {
    /// Whether the question has an answer.
    pub open spec fn answered(self) -> bool {
        self.selected_answer matches Some(s) && s.len() > 0
    }

    /// The record's invariant: a yes/no question has no options and its
    /// answer, if it has one, is one of the two canonical answers; the
    /// answer of a multiple-choice question is the label of one of its
    /// options.
    pub open spec fn well_formed(self) -> bool {
        match self.kind {
            QuestionType::Binary => {
                &&& self.options.len() == 0
                &&& self.answered() ==> (self.selected_answer == Some(ANSWER_YES@)
                    || self.selected_answer == Some(ANSWER_NO@))
            },
            QuestionType::Multiple => self.answered() ==> exists|i: int|
                0 <= i < self.options.len() && #[trigger] self.options[i].id
                    == self.selected_answer->Some_0,
        }
    }

    /// The answer that the key `key` selects, if it selects one.
    pub open spec fn answer_for(self, key: char) -> Option<Seq<char>> {
        match self.kind {
            QuestionType::Binary => if key == 'y' || key == 'Y' {
                Some(ANSWER_YES@)
            } else if key == 'n' || key == 'N' {
                Some(ANSWER_NO@)
            } else {
                None
            },
            QuestionType::Multiple => {
                let k = first_picked(self.options, key);
                if 0 <= k < self.options.len() {
                    Some(self.options[k].id)
                } else {
                    None
                }
            },
        }
    }

    /// The question after the key `key`: the answer changes where the key
    /// selects one, and nothing changes otherwise.
    pub open spec fn after_key(self, key: char) -> QuestionView {
        match self.answer_for(key) {
            Some(answer) => QuestionView { selected_answer: Some(answer), ..self },
            None => self,
        }
    }
}

/// Number of answered questions.
pub open spec fn answered_count(questions: Seq<QuestionView>) -> nat
    decreases questions.len(),
{
    if questions.len() == 0 {
        0
    } else {
        answered_count(questions.drop_last()) + if questions.last().answered() {
            1nat
        } else {
            0nat
        }
    }
}

/// The count of answered questions is at most their number, and reaches it
/// exactly when every question is answered.
pub proof fn lemma_answered_count(questions: Seq<QuestionView>)
    ensures
        answered_count(questions) <= questions.len(),
        answered_count(questions) == questions.len() <==> forall|i: int|
            0 <= i < questions.len() ==> #[trigger] questions[i].answered(),
    decreases questions.len(),
{
    if questions.len() > 0 {
        let init = questions.drop_last();
        lemma_answered_count(init);
        if answered_count(questions) == questions.len() {
            assert forall|i: int| 0 <= i < questions.len() implies #[trigger] questions[i].answered() by {
                if i < init.len() {
                    assert(questions[i] == init[i]);
                }
            }
        }
        if forall|i: int| 0 <= i < questions.len() ==> #[trigger] questions[i].answered() {
            assert forall|i: int| 0 <= i < init.len() implies #[trigger] init[i].answered() by {
                assert(init[i] == questions[i]);
            }
        }
    }
}

impl QuestionSetView {
    /// The cursor's invariant: it points at a question, or at 0 where there
    /// is none.
    pub open spec fn cursor_in_range(self) -> bool {
        if self.questions.len() == 0 {
            self.cursor == 0
        } else {
            self.cursor < self.questions.len()
        }
    }

    /// Whether every question is answered.
    pub open spec fn complete(self) -> bool {
        forall|i: int| 0 <= i < self.questions.len() ==> #[trigger] self.questions[i].answered()
    }

    /// Whether every question meets its invariant.
    pub open spec fn well_formed(self) -> bool {
        &&& self.cursor_in_range()
        &&& forall|i: int|
            0 <= i < self.questions.len() ==> #[trigger] self.questions[i].well_formed()
    }
}

impl Question {
    /// Whether the question has a non-empty answer.
    pub fn is_answered(&self) -> (b: bool)
        ensures
            b == self@.answered(),
    {
        match &self.selected_answer {
            Some(s) => !s.as_str().is_empty(),
            None => false,
        }
    }

    /// Records the answer that the key `key` selects. A key that selects
    /// none leaves the question as it is. Returns whether an answer was
    /// recorded.
    pub fn select_answer(&mut self, key: char) -> (selected: bool)
        ensures
            final(self)@ == old(self)@.after_key(key),
            selected == old(self)@.answer_for(key).is_some(),
            old(self)@.well_formed() ==> final(self)@.well_formed(),
    {
        match self.question_type {
            QuestionType::Binary => {
                if key == 'y' || key == 'Y' {
                    self.selected_answer = Some(ANSWER_YES.to_owned());
                    proof {
                        reveal_strlit("Yes");
                    }
                    true
                } else if key == 'n' || key == 'N' {
                    self.selected_answer = Some(ANSWER_NO.to_owned());
                    proof {
                        reveal_strlit("No");
                    }
                    true
                } else {
                    false
                }
            },
            QuestionType::Multiple => {
                let mut i: usize = 0;
                let ghost options = option_views(self.options@);
                proof {
                    lemma_first_picked(options, key);
                }
                while i < self.options.len()
                    invariant
                        i <= self.options.len(),
                        options == option_views(self.options@),
                        *self == *old(self),
                        self.question_type == QuestionType::Multiple,
                        forall|j: int| 0 <= j < i ==> !options[j].picked_by(key),
                    decreases self.options.len() - i,
                {
                    let id = chars_of(self.options[i].id.as_str());
                    assert(options[i as int].id == id@);
                    if id.len() == 1 && lower_code_of(id[0]) == lower_code_of(key) {
                        proof {
                            assert(options[i as int].picked_by(key));
                            lemma_first_picked(options, key);
                            assert(first_picked(options, key) == i);
                        }
                        self.selected_answer = Some(string_of(id.as_slice()));
                        assert(final(self)@.options[i as int].id == id@);
                        return true;
                    }
                    i += 1;
                }
                proof {
                    lemma_first_picked(options, key);
                }
                false
            },
        }
    }
}

/// Code of `c` with the upper-case ASCII letters mapped to lower case.
pub fn lower_code_of(c: char) -> (n: u32)
    ensures
        n == ascii_lower_code(c),
{
    if c >= 'A' && c <= 'Z' {
        c as u32 + 32
    } else {
        c as u32
    }
}

impl QuestionSet {
    /// A question set on `topic` with the cursor on the first question.
    pub fn new(topic: String, questions: Vec<Question>) -> (set: Self)
        ensures
            set.topic == topic,
            set.questions == questions,
            set.current_question_index == 0,
            set@.cursor_in_range(),
    {
        Self { topic, questions, current_question_index: 0 }
    }

    /// The question under the cursor, if the cursor points at one.
    pub fn current_question(&self) -> (q: Option<&Question>)
        ensures
            self.current_question_index < self.questions.len() ==> q == Some(
                &self.questions[self.current_question_index as int],
            ),
            self.current_question_index >= self.questions.len() ==> q is None,
    {
        if self.current_question_index < self.questions.len() {
            Some(&self.questions[self.current_question_index])
        } else {
            None
        }
    }

    /// The question under the cursor, to be changed in place, if the cursor
    /// points at one. Whatever is written to it replaces that question and
    /// nothing else.
    pub fn current_question_mut(&mut self) -> (q: Option<&mut Question>)
        ensures
            final(self).topic == old(self).topic,
            final(self).current_question_index == old(self).current_question_index,
            old(self).current_question_index >= old(self).questions.len() ==> {
                &&& q is None
                &&& final(self).questions == old(self).questions
            },
            old(self).current_question_index < old(self).questions.len() ==> {
                &&& q is Some
                &&& *q->Some_0 == old(self).questions[old(self).current_question_index as int]
                &&& final(self).questions@ == old(self).questions@.update(
                    old(self).current_question_index as int,
                    *final(q->Some_0),
                )
            },
    {
        if self.current_question_index < self.questions.len() {
            Some(&mut self.questions[self.current_question_index])
        } else {
            None
        }
    }

    /// Moves the cursor to the next question and hands that question out.
    /// On the last question, and where there is no question, nothing moves
    /// and `None` is returned.
    pub fn next_question(&mut self) -> (q: Option<&Question>)
        ensures
            final(self).topic == old(self).topic,
            final(self).questions == old(self).questions,
            old(self).current_question_index + 1 < old(self).questions.len() ==> {
                &&& final(self).current_question_index == old(self).current_question_index + 1
                &&& q == Some(&final(self).questions[final(self).current_question_index as int])
            },
            old(self).current_question_index + 1 >= old(self).questions.len() ==> {
                &&& final(self).current_question_index == old(self).current_question_index
                &&& q is None
            },
            old(self)@.cursor_in_range() ==> final(self)@.cursor_in_range(),
    {
        if self.questions.len() > 0 && self.current_question_index < self.questions.len() - 1 {
            self.current_question_index += 1;
            Some(&self.questions[self.current_question_index])
        } else {
            None
        }
    }

    /// Moves the cursor to the previous question and hands out the question
    /// it then points at. On the first question nothing moves and `None` is
    /// returned.
    pub fn previous_question(&mut self) -> (q: Option<&Question>)
        ensures
            final(self).topic == old(self).topic,
            final(self).questions == old(self).questions,
            old(self).current_question_index > 0 ==> {
                &&& final(self).current_question_index == old(self).current_question_index - 1
                &&& final(self).current_question_index < final(self).questions.len() ==> q
                    == Some(&final(self).questions[final(self).current_question_index as int])
                &&& final(self).current_question_index >= final(self).questions.len() ==> q
                    is None
            },
            old(self).current_question_index == 0 ==> {
                &&& final(self).current_question_index == 0
                &&& q is None
            },
            old(self)@.cursor_in_range() ==> final(self)@.cursor_in_range(),
    {
        if self.current_question_index > 0 {
            self.current_question_index -= 1;
            if self.current_question_index < self.questions.len() {
                Some(&self.questions[self.current_question_index])
            } else {
                None
            }
        } else {
            None
        }
    }

    /// Whether every question has a non-empty answer.
    pub fn is_complete(&self) -> (b: bool)
        ensures
            b == self@.complete(),
    {
        let mut i: usize = 0;
        while i < self.questions.len()
            invariant
                i <= self.questions.len(),
                forall|j: int| 0 <= j < i ==> #[trigger] self@.questions[j].answered(),
            decreases self.questions.len() - i,
        {
            if !self.questions[i].is_answered() {
                assert(!self@.questions[i as int].answered());
                return false;
            }
            i += 1;
        }
        true
    }

    /// How many questions are answered, and how many there are.
    pub fn progress(&self) -> (p: (usize, usize))
        ensures
            p.0 == answered_count(self@.questions),
            p.1 == self.questions.len(),
            p.0 <= p.1,
            p.0 == p.1 <==> self@.complete(),
    {
        let mut answered: usize = 0;
        let mut i: usize = 0;
        assert(self@.questions.take(0) =~= Seq::<QuestionView>::empty());
        while i < self.questions.len()
            invariant
                i <= self.questions.len(),
                answered == answered_count(self@.questions.take(i as int)),
                answered <= i,
            decreases self.questions.len() - i,
        {
            assert(self@.questions.take(i + 1).drop_last() =~= self@.questions.take(i as int));
            if self.questions[i].is_answered() {
                answered += 1;
            }
            i += 1;
        }
        proof {
            assert(self@.questions.take(i as int) =~= self@.questions);
            lemma_answered_count(self@.questions);
        }
        (answered, self.questions.len())
    }

    /// Records on the question under the cursor the answer that the key
    /// `key` selects. Nothing changes where the key selects no answer or
    /// the cursor points at no question. Returns whether an answer was
    /// recorded.
    pub fn answer_current(&mut self, key: char) -> (selected: bool)
        ensures
            final(self).topic == old(self).topic,
            final(self).current_question_index == old(self).current_question_index,
            old(self)@.cursor < old(self)@.questions.len() ==> {
                &&& final(self)@.questions == old(self)@.questions.update(
                    old(self)@.cursor as int,
                    old(self)@.questions[old(self)@.cursor as int].after_key(key),
                )
                &&& selected == old(self)@.questions[old(self)@.cursor as int].answer_for(
                    key,
                ).is_some()
            },
            old(self)@.cursor >= old(self)@.questions.len() ==> {
                &&& final(self)@.questions == old(self)@.questions
                &&& !selected
            },
            old(self)@.well_formed() ==> final(self)@.well_formed(),
    {
        let i = self.current_question_index;
        if i < self.questions.len() {
            let ghost before = self.questions@;
            let mut question = self.questions.remove(i);
            let selected = question.select_answer(key);
            self.questions.insert(i, question);
            proof {
                assert(self.questions@ =~= before.update(i as int, question));
                assert(question_views(self.questions@) =~= question_views(before).update(
                    i as int,
                    question@,
                ));
            }
            selected
        } else {
            false
        }
    }
}

/// Marker that opens a question.
pub const QUESTION_OPEN: &'static str = "<<<question:";

/// What closes a marker.
pub const MARKER_CLOSE: &'static str = ">>>";

/// Marker that ends a record.
pub const RECORD_END: &'static str = "<<<end>>>";

/// Start of the field that gives a question's kind.
pub const TYPE_FIELD: &'static str = "[TYPE:";

/// Start of the field that lists the options of a multiple-choice question.
pub const OPTIONS_FIELD: &'static str = "[OPTIONS";

/// Start of the field that lists the two answers of a yes/no question.
pub const YESNO_FIELD: &'static str = "[YESNO";

/// Start of any bracketed field.
pub const FIELD_OPEN: &'static str = "[";

/// What closes a bracketed field.
pub const FIELD_CLOSE: &'static str = "]";

/// Word that marks a multiple-choice question.
pub const MULTIPLE_WORD: &'static str = "multiple";

/// What an option line begins with.
pub const OPTION_START: &'static str = "(";

/// Pattern of an option line: a letter or digit in parentheses, white
/// space, then the option's text.
pub const OPTION_PATTERN: &'static str = r"(?m)^\s*\(([a-zA-Z0-9])\)\s+(.*)";

/// What the `regex` crate finds when it searches `haystack` for the first
/// match of `pattern`: the text of each capture group, the whole match
/// first, with `None` for a group that took no part in the match. `None`
/// where nothing matches or the pattern does not compile.
pub uninterp spec fn captured_groups(pattern: Seq<char>, haystack: Seq<char>) -> Option<
    Seq<Option<Seq<char>>>,
>;

/// Searches `haystack` for the first match of `pattern` with
/// `regex::Regex::new` and `regex::Regex::captures`. Nothing is proved of
/// the search: the contract only names its result, `captured_groups`, a
/// function of the pattern and the haystack.
#[verifier::external_body]
fn capture_groups(pattern: &str, haystack: &str) -> (found: Option<Vec<Option<String>>>)
    ensures
        found.deep_view() == captured_groups(pattern@, haystack@),
{
    match regex::Regex::new(pattern) {
        Ok(re) => re.captures(haystack).map(
            |groups| groups.iter().map(|group| group.map(|m| m.as_str().to_string())).collect(),
        ),
        Err(_) => None,
    }
}

/// The option that the capture groups of an option line give: the label is
/// the first group and the text the second, each without the white space
/// around it. None where a group is missing or empty.
pub open spec fn option_from_groups(groups: Option<Seq<Option<Seq<char>>>>) -> Option<
    AnswerOptionView,
> {
    match groups {
        Some(found) => if found.len() >= 3 && found[1].is_some() && found[2].is_some() {
            let id = trim(found[1].unwrap());
            let text = trim(found[2].unwrap());
            if id.len() > 0 && text.len() > 0 {
                Some(AnswerOptionView { id, text })
            } else {
                None
            }
        } else {
            None
        },
        None => None,
    }
}

/// Maps an optional option to its value.
pub open spec fn optional_option(o: Option<AnswerOption>) -> Option<AnswerOptionView> {
    match o {
        Some(o) => Some(o@),
        None => None,
    }
}

/// Builds the option that the capture groups of an option line give.
pub fn answer_option_of(groups: &Option<Vec<Option<String>>>) -> (o: Option<AnswerOption>)
    ensures
        optional_option(o) == option_from_groups(groups.deep_view()),
{
    match groups {
        Some(found) => {
            if found.len() < 3 {
                return None;
            }
            assert(found.deep_view()[1] == found@[1].deep_view());
            assert(found.deep_view()[2] == found@[2].deep_view());
            match (&found[1], &found[2]) {
                (Some(label), Some(body)) => {
                    let label_chars = chars_of(label.as_str());
                    let body_chars = chars_of(body.as_str());
                    let id = trimmed(label_chars.as_slice(), CharClass::Whitespace);
                    let text = trimmed(body_chars.as_slice(), CharClass::Whitespace);
                    if id.len() > 0 && text.len() > 0 {
                        Some(
                            AnswerOption {
                                id: string_of(id.as_slice()),
                                text: string_of(text.as_slice()),
                            },
                        )
                    } else {
                        None
                    }
                },
                _ => None,
            }
        },
        None => None,
    }
}

/// The option that an option line gives, by the option pattern.
pub open spec fn option_on_line(line: Seq<char>) -> Option<AnswerOptionView> {
    if starts_with(line, OPTION_START@) {
        option_from_groups(captured_groups(OPTION_PATTERN@, line))
    } else {
        None
    }
}

/// The kind that a kind field gives: multiple choice where the field,
/// without its brackets, mentions the word for it in any ASCII case.
pub open spec fn kind_on_line(line: Seq<char>) -> QuestionType {
    if contains_ignoring_ascii_case(
        remove_all(remove_all(line, TYPE_FIELD@), FIELD_CLOSE@),
        MULTIPLE_WORD@,
    ) {
        QuestionType::Multiple
    } else {
        QuestionType::Binary
    }
}

/// A question's text with one more line: lines are joined by one space.
pub open spec fn append_words(text: Seq<char>, line: Seq<char>) -> Seq<char> {
    if text.len() == 0 {
        line
    } else {
        text + seq![' '] + line
    }
}

/// State of the question scan between two lines.
pub struct QuizScan {
    pub in_question: bool,
    pub in_options: bool,
    pub text: Seq<char>,
    pub kind: QuestionType,
    pub options: Seq<AnswerOptionView>,
    pub questions: Seq<QuestionView>,
}

/// State of the question scan before the first line.
pub open spec fn quiz_start() -> QuizScan {
    QuizScan {
        in_question: false,
        in_options: false,
        text: Seq::empty(),
        kind: QuestionType::Binary,
        options: Seq::empty(),
        questions: Seq::empty(),
    }
}

/// The questions found once the staged one is closed: it counts only with a
/// text. Its number is its place in the list, and a yes/no question keeps
/// no options.
pub open spec fn with_closed_question(st: QuizScan) -> Seq<QuestionView> {
    if st.text.len() > 0 {
        st.questions.push(
            QuestionView {
                id: st.questions.len(),
                text: st.text,
                kind: st.kind,
                options: if st.kind == QuestionType::Multiple {
                    st.options
                } else {
                    Seq::empty()
                },
                selected_answer: None,
            },
        )
    } else {
        st.questions
    }
}

/// The line as the question grammar reads it: without code fences and
/// without the white space around it.
pub open spec fn quiz_line(raw: Seq<char>) -> Seq<char> {
    trim(strip_fences(raw))
}

/// State of the question scan after one more line.
pub open spec fn quiz_step(st: QuizScan, raw: Seq<char>) -> QuizScan {
    let line = quiz_line(raw);
    if starts_with(line, QUESTION_OPEN@) && ends_with(line, MARKER_CLOSE@) {
        QuizScan { in_question: true, questions: with_closed_question(st), ..quiz_start() }
    } else if starts_with(line, RECORD_END@) {
        QuizScan { questions: with_closed_question(st), ..quiz_start() }
    } else if !st.in_question {
        st
    } else if starts_with(line, TYPE_FIELD@) {
        QuizScan { kind: kind_on_line(line), ..st }
    } else if starts_with(line, OPTIONS_FIELD@) || starts_with(line, YESNO_FIELD@) {
        QuizScan { in_options: true, ..st }
    } else if st.in_options {
        let closes = ends_with(line, FIELD_CLOSE@);
        let body = if closes {
            line.drop_last()
        } else {
            line
        };
        QuizScan {
            in_options: !closes,
            options: if st.kind == QuestionType::Multiple && option_on_line(body).is_some() {
                st.options.push(option_on_line(body).unwrap())
            } else {
                st.options
            },
            ..st
        }
    } else if line.len() > 0 && !starts_with(line, FIELD_OPEN@) {
        QuizScan { text: append_words(st.text, line), ..st }
    } else {
        st
    }
}

/// State of the question scan after the given lines, in order, from `st`.
pub open spec fn quiz_scan_from(st: QuizScan, lines: Seq<Seq<char>>) -> QuizScan
    decreases lines.len(),
{
    if lines.len() == 0 {
        st
    } else {
        quiz_step(quiz_scan_from(st, lines.drop_last()), lines.last())
    }
}

/// The questions that the question-set grammar finds in a text.
pub open spec fn parse_questions(text: Seq<char>) -> Seq<QuestionView> {
    with_closed_question(quiz_scan_from(quiz_start(), lines(text)))
}

/// Why a text has no reading.
#[derive(Debug, Clone, Copy, PartialEq, Eq, Structural)]
pub enum ParseError {
    /// The text holds no record of the kind that was asked for.
    NoRecordsFound,
}

impl ParseError {
    /// The error in words.
    pub fn message(&self) -> (s: String)
        ensures
            s@ == "No valid questions found in response"@,
    {
        "No valid questions found in response".to_owned()
    }
}

/// The question scan's executable state.
struct QuizScanner {
    in_question: bool,
    in_options: bool,
    text: Vec<char>,
    kind: QuestionType,
    options: Vec<AnswerOption>,
    questions: Vec<Question>,
}

impl View for QuizScanner {
    type V = QuizScan;

    closed spec fn view(&self) -> QuizScan {
        QuizScan {
            in_question: self.in_question,
            in_options: self.in_options,
            text: self.text@,
            kind: self.kind,
            options: option_views(self.options@),
            questions: question_views(self.questions@),
        }
    }
}

impl QuizScanner {
    fn new() -> (s: QuizScanner)
        ensures
            s@ == quiz_start(),
    {
        let s = QuizScanner {
            in_question: false,
            in_options: false,
            text: Vec::new(),
            kind: QuestionType::Binary,
            options: Vec::new(),
            questions: Vec::new(),
        };
        assert(option_views(s.options@) =~= Seq::<AnswerOptionView>::empty());
        assert(question_views(s.questions@) =~= Seq::<QuestionView>::empty());
        s
    }

    /// Closes the staged question and empties the staging fields.
    fn close_question(&mut self, opens: bool)
        ensures
            final(self)@ == (QuizScan {
                in_question: opens,
                questions: with_closed_question(old(self)@),
                ..quiz_start()
            }),
    {
        let mut options: Vec<AnswerOption> = Vec::new();
        std::mem::swap(&mut options, &mut self.options);
        if self.text.len() > 0 {
            let kept: Vec<AnswerOption> = match self.kind {
                QuestionType::Multiple => options,
                QuestionType::Binary => Vec::new(),
            };
            let question = Question {
                id: self.questions.len(),
                text: string_of(self.text.as_slice()),
                question_type: self.kind,
                options: kept,
                selected_answer: None,
            };
            proof {
                assert(option_views(Seq::<AnswerOption>::empty()) =~= Seq::<
                    AnswerOptionView,
                >::empty());
                assert(question_views(self.questions@.push(question)) =~= question_views(
                    self.questions@,
                ).push(question@));
            }
            self.questions.push(question);
        }
        self.in_question = opens;
        self.in_options = false;
        self.text = Vec::new();
        self.kind = QuestionType::Binary;
        assert(option_views(self.options@) =~= Seq::<AnswerOptionView>::empty());
    }

    /// Takes one more line.
    fn take_line(&mut self, raw: &[char])
        ensures
            final(self)@ == quiz_step(old(self)@, raw@),
    {
        let stripped = without_fences(raw);
        let line = trimmed(stripped.as_slice(), CharClass::Whitespace);
        if has_prefix(line.as_slice(), QUESTION_OPEN) && has_suffix(
            line.as_slice(),
            MARKER_CLOSE,
        ) {
            self.close_question(true);
        } else if has_prefix(line.as_slice(), RECORD_END) {
            self.close_question(false);
        } else if !self.in_question {
        } else if has_prefix(line.as_slice(), TYPE_FIELD) {
            self.kind = kind_of_field(line.as_slice());
        } else if has_prefix(line.as_slice(), OPTIONS_FIELD) || has_prefix(
            line.as_slice(),
            YESNO_FIELD,
        ) {
            self.in_options = true;
        } else if self.in_options {
            let closes = has_suffix(line.as_slice(), FIELD_CLOSE);
            proof {
                reveal_strlit("]");
            }
            let end = if closes {
                line.len() - 1
            } else {
                line.len()
            };
            let body = copy_range(line.as_slice(), 0, end);
            assert(body@ =~= if closes {
                line@.drop_last()
            } else {
                line@
            });
            if self.kind == QuestionType::Multiple {
                match option_of_line(body.as_slice()) {
                    Some(option) => {
                        assert(option_views(self.options@.push(option)) =~= option_views(
                            self.options@,
                        ).push(option@));
                        self.options.push(option);
                    },
                    None => {},
                }
            }
            self.in_options = !closes;
        } else if line.len() > 0 && !has_prefix(line.as_slice(), FIELD_OPEN) {
            if self.text.len() > 0 {
                self.text.push(' ');
            }
            let ghost before = self.text@;
            push_all(&mut self.text, line.as_slice());
            proof {
                if old(self)@.text.len() == 0 {
                    assert(before + line@ =~= line@);
                } else {
                    assert(old(self)@.text.push(' ') + line@ =~= old(self)@.text + seq![' ']
                        + line@);
                }
            }
        }
    }
}

/// Tests whether `s` ends with the string `pat`.
pub fn has_suffix(s: &[char], pat: &str) -> (b: bool)
    ensures
        b == ends_with(s@, pat@),
{
    let n = pat.unicode_len();
    if n > s.len() {
        return false;
    }
    has_at(s, s.len() - n, pat)
}

/// The kind that a kind field gives.
pub fn kind_of_field(line: &[char]) -> (kind: QuestionType)
    ensures
        kind == kind_on_line(line@),
{
    let first = without(line, TYPE_FIELD);
    let inner = without(first.as_slice(), FIELD_CLOSE);
    if mentions(inner.as_slice(), MULTIPLE_WORD) {
        QuestionType::Multiple
    } else {
        QuestionType::Binary
    }
}

/// The option that an option line gives.
pub fn option_of_line(line: &[char]) -> (o: Option<AnswerOption>)
    ensures
        optional_option(o) == option_on_line(line@),
{
    if has_prefix(line, OPTION_START) {
        let haystack = string_of(line);
        let groups = capture_groups(OPTION_PATTERN, haystack.as_str());
        answer_option_of(&groups)
    } else {
        None
    }
}

/// Reads a text in the question-set grammar. The questions come in the
/// order of the text, numbered from 0 and unanswered. A text without a
/// question has no reading.
pub fn parse_questions_response(response: String) -> (r: Result<Vec<Question>, ParseError>)
    ensures
        parse_questions(response@).len() > 0 ==> r is Ok && question_views(r->Ok_0@)
            == parse_questions(response@),
        parse_questions(response@).len() == 0 ==> r == Err::<Vec<Question>, ParseError>(
            ParseError::NoRecordsFound,
        ),
        r is Ok ==> crate::grammar_laws::questions_fresh(question_views(r->Ok_0@)),
{
    proof {
        crate::grammar_laws::lemma_questions_fresh(response@);
    }
    let text = chars_of(response.as_str());
    let lines = split_lines(text.as_slice());
    let mut scanner = QuizScanner::new();
    let mut i: usize = 0;
    assert(rows(lines@).take(0) =~= Seq::<Seq<char>>::empty());
    while i < lines.len()
        invariant
            i <= lines.len(),
            scanner@ == quiz_scan_from(quiz_start(), rows(lines@).take(i as int)),
        decreases lines.len() - i,
    {
        assert(rows(lines@).take(i + 1).drop_last() =~= rows(lines@).take(i as int));
        scanner.take_line(lines[i].as_slice());
        i += 1;
    }
    assert(rows(lines@).take(i as int) =~= rows(lines@));
    scanner.close_question(false);
    if scanner.questions.len() == 0 {
        Err(ParseError::NoRecordsFound)
    } else {
        Ok(scanner.questions)
    }
}

/// Marker that opens the application's name.
pub const APPLICATION_NAME_OPEN: &'static str = "<<<application_name>>>";

/// Marker that opens the application's description.
pub const APPLICATION_DESCRIPTION_OPEN: &'static str = "<<<application_description>>>";

/// Marker that opens the application's list of features.
pub const APPLICATION_FEATURES_OPEN: &'static str = "<<<application_features>>>";

/// Marker that opens a code snippet of the application.
pub const APPLICATION_SNIPPET_OPEN: &'static str = "<<<code_snippet:";

/// What stands before the topic in the name of an application without one.
pub const DEFAULT_NAME_HEAD: &'static str = "Rust ";

/// What stands after the topic in the name of an application without one.
pub const DEFAULT_NAME_TAIL: &'static str = " Application";

/// The part of an application text that the scan is in.
#[derive(Debug, Clone, Copy, PartialEq, Eq, Structural)]
pub enum ApplicationSection {
    /// Between records: lines are dropped.
    Outside,
    /// Lines go to the name.
    Name,
    /// Lines go to the description.
    Description,
    /// Lines go to the list of features.
    Features,
    /// Lines go to the staged code snippet.
    Snippet,
}

/// State of the application scan between two lines.
pub struct ApplicationScan {
    pub section: ApplicationSection,
    pub content: Seq<char>,
    pub title: Seq<char>,
    pub name: Seq<char>,
    pub description: Seq<char>,
    pub features: Seq<Seq<char>>,
    pub snippets: Seq<CodeSnippetView>,
}

/// State of the application scan before the first line.
pub open spec fn application_start() -> ApplicationScan {
    ApplicationScan {
        section: ApplicationSection::Outside,
        content: Seq::empty(),
        title: Seq::empty(),
        name: Seq::empty(),
        description: Seq::empty(),
        features: Seq::empty(),
        snippets: Seq::empty(),
    }
}

/// Whether a line, taken without the white space around it, is an item of
/// a list: it begins with a hyphen or an asterisk.
pub open spec fn is_bullet(item: Seq<char>) -> bool {
    item.len() > 0 && (item[0] == '-' || item[0] == '*')
}

/// The text of a list item: the item without its leading hyphens, then
/// without its leading asterisks, then without the white space around it.
pub open spec fn bullet_text(item: Seq<char>) -> Seq<char> {
    trim(skip_leading(skip_leading(item, CharClass::Exactly('-')), CharClass::Exactly('*')))
}

/// The features that the given lines list, in order: one for each line
/// that is a list item.
pub open spec fn feature_items(lines: Seq<Seq<char>>) -> Seq<Seq<char>>
    decreases lines.len(),
{
    if lines.len() == 0 {
        Seq::empty()
    } else if is_bullet(trim(lines.last())) {
        feature_items(lines.drop_last()).push(bullet_text(trim(lines.last())))
    } else {
        feature_items(lines.drop_last())
    }
}

/// The snippets found once the staged one is closed: it counts only in a
/// snippet section, with a title and a body.
pub open spec fn with_closed_application_snippet(st: ApplicationScan) -> Seq<CodeSnippetView> {
    if st.section == ApplicationSection::Snippet && st.title.len() > 0 && st.content.len() > 0 {
        st.snippets.push(
            CodeSnippetView { title: st.title, description: Seq::empty(), code: st.content },
        )
    } else {
        st.snippets
    }
}

/// State of the application scan once the open section is closed.
pub open spec fn application_closed(st: ApplicationScan) -> ApplicationScan {
    ApplicationScan {
        section: ApplicationSection::Outside,
        content: Seq::empty(),
        title: Seq::empty(),
        name: if st.section == ApplicationSection::Name {
            trim(st.content)
        } else {
            st.name
        },
        description: if st.section == ApplicationSection::Description {
            trim(st.content)
        } else {
            st.description
        },
        features: if st.section == ApplicationSection::Features {
            feature_items(lines(st.content))
        } else {
            st.features
        },
        snippets: with_closed_application_snippet(st),
    }
}

/// State of the application scan once a section of kind `section` opens.
pub open spec fn application_opened(
    st: ApplicationScan,
    section: ApplicationSection,
    title: Seq<char>,
) -> ApplicationScan {
    ApplicationScan { section, content: Seq::empty(), title, ..st }
}

/// State of the application scan after one more line.
pub open spec fn application_step(st: ApplicationScan, raw: Seq<char>) -> ApplicationScan {
    let line = strip_fences(raw);
    let marker = trim(line);
    if starts_with(marker, APPLICATION_NAME_OPEN@) {
        application_opened(st, ApplicationSection::Name, Seq::empty())
    } else if starts_with(marker, APPLICATION_DESCRIPTION_OPEN@) {
        application_opened(st, ApplicationSection::Description, Seq::empty())
    } else if starts_with(marker, APPLICATION_FEATURES_OPEN@) {
        application_opened(st, ApplicationSection::Features, Seq::empty())
    } else if starts_with(marker, APPLICATION_SNIPPET_OPEN@) {
        application_opened(
            ApplicationScan { snippets: with_closed_application_snippet(st), ..st },
            ApplicationSection::Snippet,
            label_of(marker),
        )
    } else if starts_with(marker, RECORD_END@) {
        application_closed(st)
    } else if st.section != ApplicationSection::Outside && line.len() > 0 {
        ApplicationScan { content: append_line(st.content, line), ..st }
    } else {
        st
    }
}

/// State of the application scan after the given lines, in order, from
/// `st`.
pub open spec fn application_scan_from(
    st: ApplicationScan,
    lines: Seq<Seq<char>>,
) -> ApplicationScan
    decreases lines.len(),
{
    if lines.len() == 0 {
        st
    } else {
        application_step(application_scan_from(st, lines.drop_last()), lines.last())
    }
}

/// Name of an application whose text gives none.
pub open spec fn default_name(topic: Seq<char>) -> Seq<char> {
    DEFAULT_NAME_HEAD@ + topic + DEFAULT_NAME_TAIL@
}

/// What the application grammar yields for a text on `topic`: the fields
/// of the sections that were closed, the code snippets in the order of the
/// text with one still open at the end, and a name made from the topic
/// where the text gives none.
pub open spec fn parse_application(text: Seq<char>, topic: Seq<char>) -> GeneratedApplicationView {
    let st = application_scan_from(application_start(), lines(text));
    GeneratedApplicationView {
        name: if st.name.len() == 0 {
            default_name(topic)
        } else {
            st.name
        },
        description: st.description,
        features: st.features,
        code_snippets: with_closed_application_snippet(st),
    }
}

/// The features that a list of lines gives.
pub fn features_of(content: &[char]) -> (features: Vec<String>)
    ensures
        texts(features@) == feature_items(lines(content@)),
{
    let rows_of_content = split_lines(content);
    let mut features: Vec<String> = Vec::new();
    let mut i: usize = 0;
    assert(rows(rows_of_content@).take(0) =~= Seq::<Seq<char>>::empty());
    assert(texts(features@) =~= Seq::<Seq<char>>::empty());
    while i < rows_of_content.len()
        invariant
            i <= rows_of_content.len(),
            texts(features@) == feature_items(rows(rows_of_content@).take(i as int)),
        decreases rows_of_content.len() - i,
    {
        assert(rows(rows_of_content@).take(i + 1).drop_last() =~= rows(rows_of_content@).take(
            i as int,
        ));
        let item = trimmed(rows_of_content[i].as_slice(), CharClass::Whitespace);
        if item.len() > 0 && (item[0] == '-' || item[0] == '*') {
            let hyphens = leading_count(item.as_slice(), CharClass::Exactly('-'));
            let rest = copy_range(item.as_slice(), hyphens, item.len());
            assert(rest@ =~= item@.skip(hyphens as int));
            let asterisks = leading_count(rest.as_slice(), CharClass::Exactly('*'));
            let body = copy_range(rest.as_slice(), asterisks, rest.len());
            assert(body@ =~= rest@.skip(asterisks as int));
            let feature = string_of(trimmed(body.as_slice(), CharClass::Whitespace).as_slice());
            assert(texts(features@.push(feature)) =~= texts(features@).push(feature@));
            features.push(feature);
        }
        i += 1;
    }
    assert(rows(rows_of_content@).take(i as int) =~= rows(rows_of_content@));
    features
}

/// The application scan's executable state.
struct ApplicationScanner {
    section: ApplicationSection,
    content: Vec<char>,
    title: Vec<char>,
    name: Vec<char>,
    description: Vec<char>,
    features: Vec<String>,
    snippets: Vec<CodeSnippet>,
}

impl View for ApplicationScanner {
    type V = ApplicationScan;

    closed spec fn view(&self) -> ApplicationScan {
        ApplicationScan {
            section: self.section,
            content: self.content@,
            title: self.title@,
            name: self.name@,
            description: self.description@,
            features: texts(self.features@),
            snippets: snippet_views(self.snippets@),
        }
    }
}

impl ApplicationScanner {
    fn new() -> (s: ApplicationScanner)
        ensures
            s@ == application_start(),
    {
        let s = ApplicationScanner {
            section: ApplicationSection::Outside,
            content: Vec::new(),
            title: Vec::new(),
            name: Vec::new(),
            description: Vec::new(),
            features: Vec::new(),
            snippets: Vec::new(),
        };
        assert(texts(s.features@) =~= Seq::<Seq<char>>::empty());
        assert(snippet_views(s.snippets@) =~= Seq::<CodeSnippetView>::empty());
        s
    }

    /// Closes the staged code snippet, if one is staged.
    fn close_snippet(&mut self)
        ensures
            final(self)@ == (ApplicationScan {
                snippets: with_closed_application_snippet(old(self)@),
                ..old(self)@
            }),
    {
        if self.section == ApplicationSection::Snippet && self.title.len() > 0
            && self.content.len() > 0 {
            let snippet = CodeSnippet {
                title: string_of(self.title.as_slice()),
                description: String::new(),
                code: string_of(self.content.as_slice()),
            };
            assert(snippet_views(self.snippets@.push(snippet)) =~= snippet_views(
                self.snippets@,
            ).push(snippet@));
            self.snippets.push(snippet);
        }
    }

    /// Opens a section.
    fn open(&mut self, section: ApplicationSection, title: Vec<char>)
        ensures
            final(self)@ == application_opened(old(self)@, section, title@),
    {
        self.section = section;
        self.content = Vec::new();
        self.title = title;
    }

    /// Closes the open section.
    fn close(&mut self)
        ensures
            final(self)@ == application_closed(old(self)@),
    {
        self.close_snippet();
        match self.section {
            ApplicationSection::Name => {
                self.name = trimmed(self.content.as_slice(), CharClass::Whitespace);
            },
            ApplicationSection::Description => {
                self.description = trimmed(self.content.as_slice(), CharClass::Whitespace);
            },
            ApplicationSection::Features => {
                self.features = features_of(self.content.as_slice());
            },
            _ => {},
        }
        self.section = ApplicationSection::Outside;
        self.content = Vec::new();
        self.title = Vec::new();
    }

    /// Takes one more line.
    fn take_line(&mut self, raw: &[char])
        ensures
            final(self)@ == application_step(old(self)@, raw@),
    {
        let line = without_fences(raw);
        let marker = trimmed(line.as_slice(), CharClass::Whitespace);
        if has_prefix(marker.as_slice(), APPLICATION_NAME_OPEN) {
            self.open(ApplicationSection::Name, Vec::new());
        } else if has_prefix(marker.as_slice(), APPLICATION_DESCRIPTION_OPEN) {
            self.open(ApplicationSection::Description, Vec::new());
        } else if has_prefix(marker.as_slice(), APPLICATION_FEATURES_OPEN) {
            self.open(ApplicationSection::Features, Vec::new());
        } else if has_prefix(marker.as_slice(), APPLICATION_SNIPPET_OPEN) {
            self.close_snippet();
            self.open(ApplicationSection::Snippet, marker_label(marker.as_slice()));
        } else if has_prefix(marker.as_slice(), RECORD_END) {
            self.close();
        } else if self.section != ApplicationSection::Outside && line.len() > 0 {
            add_line(&mut self.content, line.as_slice());
        }
    }
}

/// Reads a text in the application grammar. Every text has a reading.
pub fn parse_application_response(response: String, topic: &str) -> (app: GeneratedApplication)
    ensures
        app@ == parse_application(response@, topic@),
{
    let text = chars_of(response.as_str());
    let lines = split_lines(text.as_slice());
    let mut scanner = ApplicationScanner::new();
    let mut i: usize = 0;
    assert(rows(lines@).take(0) =~= Seq::<Seq<char>>::empty());
    while i < lines.len()
        invariant
            i <= lines.len(),
            scanner@ == application_scan_from(application_start(), rows(lines@).take(i as int)),
        decreases lines.len() - i,
    {
        assert(rows(lines@).take(i + 1).drop_last() =~= rows(lines@).take(i as int));
        scanner.take_line(lines[i].as_slice());
        i += 1;
    }
    assert(rows(lines@).take(i as int) =~= rows(lines@));
    scanner.close_snippet();
    let name = if scanner.name.len() == 0 {
        let mut made: Vec<char> = Vec::new();
        push_str(&mut made, DEFAULT_NAME_HEAD);
        push_str(&mut made, topic);
        push_str(&mut made, DEFAULT_NAME_TAIL);
        string_of(made.as_slice())
    } else {
        string_of(scanner.name.as_slice())
    };
    GeneratedApplication {
        name,
        description: string_of(scanner.description.as_slice()),
        features: scanner.features,
        code_snippets: scanner.snippets,
    }
}

} // verus!
