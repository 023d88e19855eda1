//! Writing an application in the application grammar, and reading it
//! back.

use crate::prompt_response::{label_of, strip_fences, CodeSnippetView};
use crate::question_generator::{
    application_closed, application_opened, application_scan_from, application_start,
    application_step, bullet_text, feature_items, is_bullet, parse_application,
    with_closed_application_snippet, ApplicationScan, ApplicationSection,
    GeneratedApplicationView, APPLICATION_DESCRIPTION_OPEN, APPLICATION_FEATURES_OPEN,
    APPLICATION_NAME_OPEN, APPLICATION_SNIPPET_OPEN, RECORD_END,
};
use crate::round_trip::{
    all_whole, body_lines, has_char, has_fence, joined_lines, lemma_all_whole_concat,
    lemma_differs_at, lemma_framed_fence, lemma_joined_lines_concat, lemma_lines_of_joined,
    lemma_skip_trailing_tail, lemma_split_lines_whole, lemma_strip_fences_plain,
    lemma_with_split_lines, plain_title, push_body, push_line, whole_line, with_lines,
};
use crate::text::{push_str, string_of};
use crate::text::{
    first_index_of, is_whitespace, lemma_first_index_is, lines, skip_leading, skip_trailing,
    starts_with, trim, trim_class, without_carriage_return, CharClass,
};
use vstd::prelude::*;

verus! {

/// Whether a line, taken without the white space around it, begins with
/// one of the markers of the application grammar.
pub open spec fn is_marker(line: Seq<char>) -> bool {
    ||| starts_with(trim(line), APPLICATION_NAME_OPEN@)
    ||| starts_with(trim(line), APPLICATION_DESCRIPTION_OPEN@)
    ||| starts_with(trim(line), APPLICATION_FEATURES_OPEN@)
    ||| starts_with(trim(line), APPLICATION_SNIPPET_OPEN@)
    ||| starts_with(trim(line), RECORD_END@)
}

/// Whether a line of a section is read back as it was written: it is not
/// empty, ends with no carriage return, holds no code fence, and is no
/// marker.
pub open spec fn plain_content_line(line: Seq<char>) -> bool {
    &&& line.len() > 0
    &&& line.last() != '\r'
    &&& !has_fence(line)
    &&& !is_marker(line)
}

/// Whether every line of a text is read back as it was written.
pub open spec fn plain_content(text: Seq<char>) -> bool {
    forall|i: int|
        0 <= i < body_lines(text).len() ==> plain_content_line(#[trigger] body_lines(text)[i])
}

/// Whether a name or a description is read back as it was written: every
/// line of it is, and it neither begins nor ends with white space.
pub open spec fn plain_field(text: Seq<char>) -> bool {
    &&& plain_content(text)
    &&& text.len() > 0 ==> !is_whitespace(text[0]) && !is_whitespace(text.last())
}

/// Whether a feature is read back as it was written: it is one line, holds
/// no code fence, and neither begins nor ends with white space.
pub open spec fn plain_feature(feature: Seq<char>) -> bool {
    &&& !has_char(feature, '\n')
    &&& !has_fence(feature)
    &&& feature.len() > 0 ==> !is_whitespace(feature[0]) && !is_whitespace(feature.last())
}

/// Whether a code snippet of an application is read back as it was
/// written: its title and every line of its code are, and it has no
/// description, for which the grammar has no place.
pub open spec fn faithful_application_snippet(s: CodeSnippetView) -> bool {
    &&& plain_title(s.title)
    &&& s.description.len() == 0
    &&& s.code.len() > 0
    &&& plain_content(s.code)
}

/// Whether an application is read back as it was written.
pub open spec fn faithful_application(a: GeneratedApplicationView) -> bool {
    &&& a.name.len() > 0
    &&& plain_field(a.name)
    &&& plain_field(a.description)
    &&& forall|i: int| 0 <= i < a.features.len() ==> plain_feature(#[trigger] a.features[i])
    &&& forall|i: int|
        0 <= i < a.code_snippets.len() ==> faithful_application_snippet(
            #[trigger] a.code_snippets[i],
        )
}

/// The lines of a section: its marker, its text, and the end marker.
pub open spec fn section_lines(open: Seq<char>, text: Seq<char>) -> Seq<Seq<char>> {
    seq![open] + body_lines(text) + seq![RECORD_END@]
}

/// The line of a feature.
pub open spec fn feature_line(feature: Seq<char>) -> Seq<char> {
    seq!['-', ' '] + feature
}

/// The lines of the given features.
pub open spec fn feature_lines(features: Seq<Seq<char>>) -> Seq<Seq<char>> {
    features.map_values(|f: Seq<char>| feature_line(f))
}

/// The line that opens a code snippet of an application.
pub open spec fn application_snippet_marker(title: Seq<char>) -> Seq<char> {
    APPLICATION_SNIPPET_OPEN@ + seq![' '] + title + ">>>"@
}

/// The lines of a code snippet of an application.
pub open spec fn application_snippet_lines(s: CodeSnippetView) -> Seq<Seq<char>> {
    seq![application_snippet_marker(s.title)] + body_lines(s.code) + seq![RECORD_END@]
}

/// The lines of the given code snippets of an application.
pub open spec fn all_application_snippet_lines(snippets: Seq<CodeSnippetView>) -> Seq<Seq<char>>
    decreases snippets.len(),
{
    if snippets.len() == 0 {
        Seq::empty()
    } else {
        application_snippet_lines(snippets[0]) + all_application_snippet_lines(
            snippets.drop_first(),
        )
    }
}

/// The lines of an application in the application grammar: the name, the
/// description, the features and the code snippets, each between its
/// marker and the end marker.
pub open spec fn application_lines(a: GeneratedApplicationView) -> Seq<Seq<char>> {
    section_lines(APPLICATION_NAME_OPEN@, a.name) + section_lines(
        APPLICATION_DESCRIPTION_OPEN@,
        a.description,
    ) + (seq![APPLICATION_FEATURES_OPEN@] + feature_lines(a.features) + seq![RECORD_END@])
        + all_application_snippet_lines(a.code_snippets)
}

/// An application written in the application grammar.
pub open spec fn render_application(a: GeneratedApplicationView) -> Seq<char> {
    joined_lines(application_lines(a))
}

/// The lines joined by line feeds, without one at the end.
pub open spec fn separated_lines(lines: Seq<Seq<char>>) -> Seq<char>
    decreases lines.len(),
{
    if lines.len() == 0 {
        Seq::empty()
    } else if lines.len() == 1 {
        lines[0]
    } else {
        lines[0] + seq!['\n'] + separated_lines(lines.drop_first())
    }
}

/// Lines added to a body that is not empty are added after a line feed,
/// joined by line feeds.
pub proof fn lemma_with_lines_separated(body: Seq<char>, ls: Seq<Seq<char>>)
    requires
        body.len() > 0,
        ls.len() > 0,
        forall|i: int| 0 <= i < ls.len() ==> (#[trigger] ls[i]).len() > 0,
    ensures
        with_lines(body, ls) == body + seq!['\n'] + separated_lines(ls),
    decreases ls.len(),
{
    let grown = body + seq!['\n'] + ls[0];
    let rest = ls.drop_first();
    if ls.len() == 1 {
        assert(rest =~= Seq::<Seq<char>>::empty());
        assert(with_lines(grown, rest) == grown);
    } else {
        assert forall|i: int| 0 <= i < rest.len() implies (#[trigger] rest[i]).len() > 0 by {
            assert(rest[i] == ls[i + 1]);
        }
        lemma_with_lines_separated(grown, rest);
        assert(grown + seq!['\n'] + separated_lines(rest) =~= body + seq!['\n']
            + separated_lines(ls));
    }
}

/// Lines added to an empty body are joined by line feeds.
pub proof fn lemma_with_lines_from_empty(ls: Seq<Seq<char>>)
    requires
        forall|i: int| 0 <= i < ls.len() ==> (#[trigger] ls[i]).len() > 0,
    ensures
        with_lines(Seq::<char>::empty(), ls) == separated_lines(ls),
{
    if ls.len() == 1 {
        assert(ls.drop_first() =~= Seq::<Seq<char>>::empty());
        assert(with_lines(ls[0], ls.drop_first()) == ls[0]);
    } else if ls.len() > 1 {
        let rest = ls.drop_first();
        assert forall|i: int| 0 <= i < rest.len() implies (#[trigger] rest[i]).len() > 0 by {
            assert(rest[i] == ls[i + 1]);
        }
        lemma_with_lines_separated(ls[0], rest);
    }
}

/// The lines of whole lines that were joined by line feeds are those
/// lines.
pub proof fn lemma_lines_of_separated(ls: Seq<Seq<char>>)
    requires
        all_whole(ls),
        forall|i: int| 0 <= i < ls.len() ==> (#[trigger] ls[i]).len() > 0,
    ensures
        lines(separated_lines(ls)) == ls,
    decreases ls.len(),
{
    if ls.len() == 0 {
    } else {
        let first = ls[0];
        assert(whole_line(first));
        assert(first.len() > 0);
        if ls.len() == 1 {
            assert forall|i: int| 0 <= i < first.len() implies first[i] != '\n' by {}
            lemma_first_index_is(first, '\n', first.len() as int);
            assert(lines(first) =~= seq![first]);
            assert(ls =~= seq![first]);
        } else {
            let rest = ls.drop_first();
            let text = separated_lines(ls);
            assert forall|i: int| 0 <= i < rest.len() implies whole_line(#[trigger] rest[i])
                && rest[i].len() > 0 by {
                assert(rest[i] == ls[i + 1]);
            }
            lemma_lines_of_separated(rest);
            assert(text == first + seq!['\n'] + separated_lines(rest));
            assert(text[first.len() as int] == '\n');
            assert forall|i: int| 0 <= i < first.len() implies text[i] != '\n' by {
                assert(text[i] == first[i]);
            }
            lemma_first_index_is(text, '\n', first.len() as int);
            assert(text.take(first.len() as int) =~= first);
            assert(text.skip(first.len() as int + 1) =~= separated_lines(rest));
            assert(without_carriage_return(first) == first);
            assert(lines(text) =~= seq![first] + rest);
            assert(seq![first] + rest =~= ls);
        }
    }
}

/// The features that the lines of plain features list are those
/// features.
pub proof fn lemma_features_of_lines(features: Seq<Seq<char>>)
    requires
        forall|i: int| 0 <= i < features.len() ==> plain_feature(#[trigger] features[i]),
    ensures
        feature_items(feature_lines(features)) == features,
        all_whole(feature_lines(features)),
        forall|i: int|
            0 <= i < features.len() ==> plain_content_line(#[trigger] feature_lines(features)[i]),
    decreases features.len(),
{
    lemma_marker_facts();
    let ls = feature_lines(features);
    if features.len() > 0 {
        let init = features.drop_last();
        let last = features.last();
        assert forall|i: int| 0 <= i < init.len() implies plain_feature(#[trigger] init[i]) by {
            assert(init[i] == features[i]);
        }
        lemma_features_of_lines(init);
        assert(ls.drop_last() =~= feature_lines(init));
        assert(plain_feature(last));
        lemma_feature_line(last);
        assert(ls.last() == feature_line(last));
        assert(feature_items(ls) =~= features);
        assert forall|i: int| 0 <= i < ls.len() implies whole_line(#[trigger] ls[i])
            && plain_content_line(ls[i]) by {
            if i < init.len() {
                assert(ls[i] == feature_lines(init)[i]);
            }
        }
    } else {
        assert(ls =~= Seq::<Seq<char>>::empty());
    }
}

/// What is read of the line of a plain feature: the line is a whole line
/// that is read back as it was written, and it lists the feature.
pub proof fn lemma_feature_line(feature: Seq<char>)
    requires
        plain_feature(feature),
    ensures
        whole_line(feature_line(feature)),
        plain_content_line(feature_line(feature)),
        is_bullet(trim(feature_line(feature))),
        bullet_text(trim(feature_line(feature))) == feature,
{
    lemma_marker_facts();
    let line = feature_line(feature);
    let head = seq!['-', ' '];
    assert(line =~= head + feature + Seq::<char>::empty());
    assert(!has_char(head, '`'));
    lemma_framed_fence(head, feature, Seq::<char>::empty());
    assert(is_whitespace(' '));
    assert(!is_whitespace('-'));
    assert(is_whitespace('\r'));
    assert(skip_leading(line, CharClass::Whitespace) == line);
    let trimmed = trim(line);
    if feature.len() == 0 {
        assert(line =~= head);
        assert(line.drop_last() =~= seq!['-']);
        assert(skip_trailing(seq!['-'], CharClass::Whitespace) == seq!['-']);
        assert(trimmed == seq!['-']);
        let rest = trimmed.drop_first();
        assert(rest =~= Seq::<char>::empty());
        assert(skip_leading(rest, CharClass::Exactly('-')) == rest);
        assert(skip_leading(trimmed, CharClass::Exactly('-')) == rest);
        assert(bullet_text(trimmed) =~= feature);
    } else {
        assert(line.last() == feature.last());
        assert(skip_trailing(line, CharClass::Whitespace) == line);
        assert(trimmed == line);
        let after_hyphen = line.drop_first();
        assert(after_hyphen =~= seq![' '] + feature);
        assert(skip_leading(after_hyphen, CharClass::Exactly('-')) == after_hyphen);
        assert(skip_leading(line, CharClass::Exactly('-')) == after_hyphen);
        assert(skip_leading(after_hyphen, CharClass::Exactly('*')) == after_hyphen);
        assert(after_hyphen.drop_first() =~= feature);
        assert(skip_leading(feature, CharClass::Whitespace) == feature);
        assert(skip_leading(after_hyphen, CharClass::Whitespace) == feature);
        assert(skip_trailing(feature, CharClass::Whitespace) == feature);
        assert(bullet_text(trimmed) == feature);
    }
    assert(trimmed[0] == '-');
    lemma_differs_at(trimmed, APPLICATION_NAME_OPEN@, 0);
    lemma_differs_at(trimmed, APPLICATION_DESCRIPTION_OPEN@, 0);
    lemma_differs_at(trimmed, APPLICATION_FEATURES_OPEN@, 0);
    lemma_differs_at(trimmed, APPLICATION_SNIPPET_OPEN@, 0);
    lemma_differs_at(trimmed, RECORD_END@, 0);
    assert forall|i: int| 0 <= i < line.len() implies line[i] != '\n' by {
        if i >= 2 {
            assert(line[i] == feature[i - 2]);
        }
    }
}

/// Whether a line is a marker as it stands: it holds no fence, has no
/// white space around it, and is a whole line.
pub open spec fn bare_marker(m: Seq<char>) -> bool {
    &&& strip_fences(m) == m
    &&& trim(m) == m
    &&& whole_line(m)
}

/// Every text begins with itself.
pub proof fn lemma_starts_with_self(s: Seq<char>)
    ensures
        starts_with(s, s),
{
    assert(s.subrange(0, s.len() as int) =~= s);
}

/// What the markers are made of.
pub proof fn lemma_marker_facts()
    ensures
        starts_with(APPLICATION_NAME_OPEN@, APPLICATION_NAME_OPEN@),
        starts_with(APPLICATION_DESCRIPTION_OPEN@, APPLICATION_DESCRIPTION_OPEN@),
        starts_with(APPLICATION_FEATURES_OPEN@, APPLICATION_FEATURES_OPEN@),
        starts_with(RECORD_END@, RECORD_END@),
        bare_marker(APPLICATION_NAME_OPEN@),
        bare_marker(APPLICATION_DESCRIPTION_OPEN@),
        bare_marker(APPLICATION_FEATURES_OPEN@),
        bare_marker(RECORD_END@),
        APPLICATION_NAME_OPEN@.len() == 22 && APPLICATION_NAME_OPEN@[0] == '<'
            && APPLICATION_NAME_OPEN@[3] == 'a' && APPLICATION_NAME_OPEN@[15] == 'n',
        APPLICATION_DESCRIPTION_OPEN@.len() == 29 && APPLICATION_DESCRIPTION_OPEN@[0] == '<'
            && APPLICATION_DESCRIPTION_OPEN@[3] == 'a' && APPLICATION_DESCRIPTION_OPEN@[15]
            == 'd',
        APPLICATION_FEATURES_OPEN@.len() == 26 && APPLICATION_FEATURES_OPEN@[0] == '<'
            && APPLICATION_FEATURES_OPEN@[3] == 'a' && APPLICATION_FEATURES_OPEN@[15] == 'f',
        APPLICATION_SNIPPET_OPEN@.len() == 16 && APPLICATION_SNIPPET_OPEN@[0] == '<'
            && APPLICATION_SNIPPET_OPEN@[3] == 'c' && APPLICATION_SNIPPET_OPEN@[15] == ':',
        RECORD_END@.len() == 9 && RECORD_END@[0] == '<' && RECORD_END@[3] == 'e',
        !has_char(APPLICATION_SNIPPET_OPEN@, '`'),
        !has_char(APPLICATION_SNIPPET_OPEN@, '\n'),
        forall|i: int| 0 <= i < 15 ==> APPLICATION_SNIPPET_OPEN@[i] != ':',
{
    reveal_strlit("<<<application_name>>>");
    reveal_strlit("<<<application_description>>>");
    reveal_strlit("<<<application_features>>>");
    reveal_strlit("<<<code_snippet:");
    reveal_strlit("<<<end>>>");
    assert(!has_fence(Seq::<char>::empty())) by {
        reveal_strlit("```");
    }
    lemma_starts_with_self(APPLICATION_NAME_OPEN@);
    lemma_starts_with_self(APPLICATION_DESCRIPTION_OPEN@);
    lemma_starts_with_self(APPLICATION_FEATURES_OPEN@);
    lemma_starts_with_self(RECORD_END@);
    lemma_bare(APPLICATION_NAME_OPEN@);
    lemma_bare(APPLICATION_DESCRIPTION_OPEN@);
    lemma_bare(APPLICATION_FEATURES_OPEN@);
    lemma_bare(RECORD_END@);
}

/// A line without a backtick, a line feed or white space at its ends is a
/// marker as it stands.
proof fn lemma_bare(m: Seq<char>)
    requires
        m.len() > 0,
        !has_char(m, '`'),
        !has_char(m, '\n'),
        !is_whitespace(m[0]),
        !is_whitespace(m.last()),
        !has_fence(Seq::<char>::empty()),
    ensures
        bare_marker(m),
{
    lemma_framed_fence(m, Seq::<char>::empty(), Seq::<char>::empty());
    assert(m + Seq::<char>::empty() + Seq::<char>::empty() =~= m);
    lemma_strip_fences_plain(m);
    assert(skip_leading(m, CharClass::Whitespace) == m);
    assert(skip_trailing(m, CharClass::Whitespace) == m);
    assert(is_whitespace('\r'));
}

/// State after the given lines, taken in order from `st`, the first line
/// first.
pub open spec fn application_scan_front(st: ApplicationScan, lines: Seq<Seq<char>>) -> ApplicationScan
    decreases lines.len(),
{
    if lines.len() == 0 {
        st
    } else {
        application_scan_front(application_step(st, lines[0]), lines.drop_first())
    }
}

/// The scan of one line is one step.
pub proof fn lemma_application_scan_one(st: ApplicationScan, line: Seq<char>)
    ensures
        application_scan_front(st, seq![line]) == application_step(st, line),
{
    let one = seq![line];
    assert(one.drop_first() =~= Seq::<Seq<char>>::empty());
    assert(application_scan_front(application_step(st, one[0]), one.drop_first())
        == application_step(st, line));
}

/// A scan can be taken up after its first line.
pub proof fn lemma_application_scan_from_first(st: ApplicationScan, lines: Seq<Seq<char>>)
    requires
        lines.len() > 0,
    ensures
        application_scan_from(st, lines) == application_scan_from(
            application_step(st, lines[0]),
            lines.drop_first(),
        ),
    decreases lines.len(),
{
    if lines.len() == 1 {
        assert(lines.drop_last() =~= Seq::<Seq<char>>::empty());
        assert(lines.drop_first() =~= Seq::<Seq<char>>::empty());
        assert(application_scan_from(st, lines.drop_last()) == st);
    } else {
        lemma_application_scan_from_first(st, lines.drop_last());
        assert(lines.drop_last().drop_first() =~= lines.drop_first().drop_last());
        assert(lines.drop_last()[0] == lines[0]);
        assert(lines.drop_first().last() == lines.last());
    }
}

/// Taking the lines first to last or last to first gives the same scan.
pub proof fn lemma_application_scan_front_is_scan(st: ApplicationScan, lines: Seq<Seq<char>>)
    ensures
        application_scan_front(st, lines) == application_scan_from(st, lines),
    decreases lines.len(),
{
    if lines.len() > 0 {
        lemma_application_scan_from_first(st, lines);
        lemma_application_scan_front_is_scan(application_step(st, lines[0]), lines.drop_first());
    }
}

/// A scan of two runs of lines is the scan of the second run from where
/// the scan of the first run ended.
pub proof fn lemma_application_scan_concat(
    st: ApplicationScan,
    a: Seq<Seq<char>>,
    b: Seq<Seq<char>>,
)
    ensures
        application_scan_front(st, a + b) == application_scan_front(
            application_scan_front(st, a),
            b,
        ),
    decreases a.len(),
{
    if a.len() == 0 {
        assert(a + b =~= b);
    } else {
        assert((a + b)[0] == a[0]);
        assert((a + b).drop_first() =~= a.drop_first() + b);
        lemma_application_scan_concat(application_step(st, a[0]), a.drop_first(), b);
    }
}

/// Plain lines are added to the content of the open section, one by one.
pub proof fn lemma_application_scan_content(st: ApplicationScan, lines: Seq<Seq<char>>)
    requires
        st.section != ApplicationSection::Outside,
        forall|i: int| 0 <= i < lines.len() ==> plain_content_line(#[trigger] lines[i]),
    ensures
        application_scan_front(st, lines) == (ApplicationScan {
            content: with_lines(st.content, lines),
            ..st
        }),
    decreases lines.len(),
{
    if lines.len() > 0 {
        let line = lines[0];
        assert(plain_content_line(line));
        lemma_strip_fences_plain(line);
        let next = application_step(st, line);
        assert(next == ApplicationScan {
            content: crate::prompt_response::append_line(st.content, line),
            ..st
        });
        assert forall|i: int| 0 <= i < lines.drop_first().len() implies plain_content_line(
            #[trigger] lines.drop_first()[i],
        ) by {
            assert(lines.drop_first()[i] == lines[i + 1]);
        }
        lemma_application_scan_content(next, lines.drop_first());
    }
}

/// Whether the scan stands between two sections.
pub open spec fn between_sections(st: ApplicationScan) -> bool {
    &&& st.section == ApplicationSection::Outside
    &&& st.content.len() == 0
    &&& st.title.len() == 0
}

/// The lines of a plain text are whole lines that are read back as they
/// were written, and adding them to an empty content gives the text.
pub proof fn lemma_plain_content_lines(text: Seq<char>)
    requires
        plain_content(text),
    ensures
        all_whole(body_lines(text)),
        with_lines(Seq::<char>::empty(), body_lines(text)) == text,
{
    if text.len() > 0 {
        lemma_split_lines_whole(text);
        assert forall|i: int| 0 <= i < body_lines(text).len() implies whole_line(
            #[trigger] body_lines(text)[i],
        ) && body_lines(text)[i].len() > 0 by {
            assert(plain_content_line(body_lines(text)[i]));
        }
        lemma_with_split_lines(Seq::<char>::empty(), text);
    } else {
        assert(text =~= Seq::<char>::empty());
    }
}

/// A text without white space at its ends is left as it is when white
/// space is cut from its ends.
pub proof fn lemma_trim_plain(text: Seq<char>)
    requires
        text.len() > 0 ==> !is_whitespace(text[0]) && !is_whitespace(text.last()),
    ensures
        trim(text) == text,
{
    assert(skip_leading(text, CharClass::Whitespace) == text);
    assert(skip_trailing(text, CharClass::Whitespace) == text);
}

/// Reading the section of the name between two sections sets the name and
/// nothing else, and ends between two sections.
pub proof fn lemma_scan_name(st: ApplicationScan, name: Seq<char>)
    requires
        between_sections(st),
        plain_field(name),
    ensures
        application_scan_front(st, section_lines(APPLICATION_NAME_OPEN@, name))
            == (ApplicationScan { name, ..st }),
        all_whole(section_lines(APPLICATION_NAME_OPEN@, name)),
{
    lemma_marker_facts();
    let open = APPLICATION_NAME_OPEN@;
    let end = RECORD_END@;
    let body = body_lines(name);
    let st1 = application_opened(st, ApplicationSection::Name, Seq::empty());
    assert(application_step(st, open) == st1);
    lemma_application_scan_one(st, open);
    lemma_plain_content_lines(name);
    lemma_application_scan_content(st1, body);
    let st2 = ApplicationScan { content: name, ..st1 };
    lemma_differs_at(end, APPLICATION_NAME_OPEN@, 3);
    lemma_differs_at(end, APPLICATION_DESCRIPTION_OPEN@, 3);
    lemma_differs_at(end, APPLICATION_FEATURES_OPEN@, 3);
    lemma_differs_at(end, APPLICATION_SNIPPET_OPEN@, 3);
    lemma_trim_plain(name);
    assert(st.content =~= Seq::<char>::empty());
    assert(st.title =~= Seq::<char>::empty());
    assert(application_step(st2, end) == ApplicationScan { name, ..st });
    lemma_application_scan_one(st2, end);
    lemma_application_scan_concat(st, seq![open], body);
    lemma_application_scan_concat(st, seq![open] + body, seq![end]);
    assert(all_whole(seq![open]));
    assert(all_whole(seq![end]));
    lemma_all_whole_concat(seq![open], body);
    lemma_all_whole_concat(seq![open] + body, seq![end]);
}

/// Reading the section of the description between two sections sets the
/// description and nothing else, and ends between two sections.
pub proof fn lemma_scan_description(st: ApplicationScan, description: Seq<char>)
    requires
        between_sections(st),
        plain_field(description),
    ensures
        application_scan_front(st, section_lines(APPLICATION_DESCRIPTION_OPEN@, description))
            == (ApplicationScan { description, ..st }),
        all_whole(section_lines(APPLICATION_DESCRIPTION_OPEN@, description)),
{
    lemma_marker_facts();
    let open = APPLICATION_DESCRIPTION_OPEN@;
    let end = RECORD_END@;
    let body = body_lines(description);
    let st1 = application_opened(st, ApplicationSection::Description, Seq::empty());
    lemma_differs_at(open, APPLICATION_NAME_OPEN@, 15);
    assert(application_step(st, open) == st1);
    lemma_application_scan_one(st, open);
    lemma_plain_content_lines(description);
    lemma_application_scan_content(st1, body);
    let st2 = ApplicationScan { content: description, ..st1 };
    lemma_differs_at(end, APPLICATION_NAME_OPEN@, 3);
    lemma_differs_at(end, APPLICATION_DESCRIPTION_OPEN@, 3);
    lemma_differs_at(end, APPLICATION_FEATURES_OPEN@, 3);
    lemma_differs_at(end, APPLICATION_SNIPPET_OPEN@, 3);
    lemma_trim_plain(description);
    assert(st.content =~= Seq::<char>::empty());
    assert(st.title =~= Seq::<char>::empty());
    assert(application_step(st2, end) == ApplicationScan { description, ..st });
    lemma_application_scan_one(st2, end);
    lemma_application_scan_concat(st, seq![open], body);
    lemma_application_scan_concat(st, seq![open] + body, seq![end]);
    assert(all_whole(seq![open]));
    assert(all_whole(seq![end]));
    lemma_all_whole_concat(seq![open], body);
    lemma_all_whole_concat(seq![open] + body, seq![end]);
}

/// Reading the section of the features between two sections sets the
/// features and nothing else, and ends between two sections.
pub proof fn lemma_scan_features(st: ApplicationScan, features: Seq<Seq<char>>)
    requires
        between_sections(st),
        forall|i: int| 0 <= i < features.len() ==> plain_feature(#[trigger] features[i]),
    ensures
        application_scan_front(
            st,
            seq![APPLICATION_FEATURES_OPEN@] + feature_lines(features) + seq![RECORD_END@],
        ) == (ApplicationScan { features, ..st }),
        all_whole(seq![APPLICATION_FEATURES_OPEN@] + feature_lines(features) + seq![RECORD_END@]),
{
    lemma_marker_facts();
    let open = APPLICATION_FEATURES_OPEN@;
    let end = RECORD_END@;
    let body = feature_lines(features);
    let st1 = application_opened(st, ApplicationSection::Features, Seq::empty());
    lemma_differs_at(open, APPLICATION_NAME_OPEN@, 15);
    lemma_differs_at(open, APPLICATION_DESCRIPTION_OPEN@, 15);
    assert(application_step(st, open) == st1);
    lemma_application_scan_one(st, open);
    lemma_features_of_lines(features);
    assert forall|i: int| 0 <= i < body.len() implies plain_content_line(#[trigger] body[i])
        && body[i].len() > 0 by {}
    lemma_application_scan_content(st1, body);
    lemma_with_lines_from_empty(body);
    lemma_lines_of_separated(body);
    let content = with_lines(Seq::<char>::empty(), body);
    let st2 = ApplicationScan { content, ..st1 };
    assert(st1.content =~= Seq::<char>::empty());
    lemma_differs_at(end, APPLICATION_NAME_OPEN@, 3);
    lemma_differs_at(end, APPLICATION_DESCRIPTION_OPEN@, 3);
    lemma_differs_at(end, APPLICATION_FEATURES_OPEN@, 3);
    lemma_differs_at(end, APPLICATION_SNIPPET_OPEN@, 3);
    assert(feature_items(lines(content)) == features);
    assert(st.content =~= Seq::<char>::empty());
    assert(st.title =~= Seq::<char>::empty());
    assert(application_step(st2, end) == ApplicationScan { features, ..st });
    lemma_application_scan_one(st2, end);
    lemma_application_scan_concat(st, seq![open], body);
    lemma_application_scan_concat(st, seq![open] + body, seq![end]);
    assert(all_whole(seq![open]));
    assert(all_whole(seq![end]));
    lemma_all_whole_concat(seq![open], body);
    lemma_all_whole_concat(seq![open] + body, seq![end]);
}

/// What is read of the marker of a code snippet that was written for a
/// plain title.
pub proof fn lemma_application_marker_reading(title: Seq<char>)
    requires
        plain_title(title),
    ensures
        bare_marker(application_snippet_marker(title)),
        label_of(application_snippet_marker(title)) == title,
        starts_with(application_snippet_marker(title), APPLICATION_SNIPPET_OPEN@),
        application_snippet_marker(title)[3] == 'c',
{
    lemma_marker_facts();
    reveal_strlit(">>>");
    let open = APPLICATION_SNIPPET_OPEN@;
    let m = application_snippet_marker(title);
    let before = open + seq![' '];
    let after = ">>>"@;
    assert(m =~= before + title + after);
    assert forall|i: int| 0 <= i < before.len() implies before[i] != '`' && before[i] != '\n' by {
        if i < open.len() {
            assert(before[i] == open[i]);
        }
    }
    assert(!has_char(before, '`'));
    assert(!has_char(after, '`'));
    lemma_framed_fence(before, title, after);
    lemma_strip_fences_plain(m);
    assert(m.subrange(0, 16) =~= open);
    assert(m[0] == open[0] && m[3] == open[3]);
    assert(m.last() == '>');
    assert(!is_whitespace('<') && !is_whitespace('>'));
    lemma_trim_plain(m);
    assert forall|i: int| 0 <= i < m.len() implies m[i] != '\n' by {
        if i < before.len() {
            assert(m[i] == before[i]);
        } else if i < before.len() + title.len() {
            assert(m[i] == title[i - before.len()]);
        } else {
            assert(m[i] == after[i - before.len() - title.len()]);
        }
    }
    assert(is_whitespace('\r'));
    // The first colon is the one that ends the marker's name.
    assert(m[15] == ':');
    assert forall|i: int| 0 <= i < 15 implies m[i] != ':' by {
        assert(m[i] == open[i]);
    }
    lemma_first_index_is(m, ':', 15);
    let rest = m.skip(16);
    let padded = seq![' '] + title;
    assert(rest =~= padded + after);
    assert(skip_leading(rest, CharClass::Exactly('>')) == rest);
    assert forall|i: int| 0 <= i < after.len() implies CharClass::Exactly('>').holds(
        #[trigger] after[i],
    ) by {}
    lemma_skip_trailing_tail(padded, after, CharClass::Exactly('>'));
    assert(padded.last() == title.last());
    assert(skip_trailing(padded, CharClass::Exactly('>')) == padded);
    assert(trim_class(rest, CharClass::Exactly('>')) == padded);
    assert(is_whitespace(' '));
    assert(padded.drop_first() =~= title);
    assert(skip_leading(title, CharClass::Whitespace) == title);
    assert(skip_leading(padded, CharClass::Whitespace) == title);
    assert(skip_trailing(title, CharClass::Whitespace) == title);
    assert(trim(padded) == title);
}

/// Reading the lines of a faithful code snippet between two sections adds
/// the snippet as it was written, and ends between two sections.
pub proof fn lemma_scan_application_snippet(st: ApplicationScan, s: CodeSnippetView)
    requires
        between_sections(st),
        faithful_application_snippet(s),
    ensures
        application_scan_front(st, application_snippet_lines(s)) == (ApplicationScan {
            snippets: st.snippets.push(s),
            ..st
        }),
        all_whole(application_snippet_lines(s)),
{
    lemma_marker_facts();
    let m = application_snippet_marker(s.title);
    let end = RECORD_END@;
    let body = body_lines(s.code);
    lemma_application_marker_reading(s.title);
    lemma_differs_at(m, APPLICATION_NAME_OPEN@, 3);
    lemma_differs_at(m, APPLICATION_DESCRIPTION_OPEN@, 3);
    lemma_differs_at(m, APPLICATION_FEATURES_OPEN@, 3);
    let st1 = application_opened(st, ApplicationSection::Snippet, s.title);
    assert(with_closed_application_snippet(st) == st.snippets);
    assert(application_step(st, m) == st1);
    lemma_application_scan_one(st, m);
    lemma_plain_content_lines(s.code);
    lemma_application_scan_content(st1, body);
    assert(st1.content =~= Seq::<char>::empty());
    let st2 = ApplicationScan { content: s.code, ..st1 };
    lemma_differs_at(end, APPLICATION_NAME_OPEN@, 3);
    lemma_differs_at(end, APPLICATION_DESCRIPTION_OPEN@, 3);
    lemma_differs_at(end, APPLICATION_FEATURES_OPEN@, 3);
    lemma_differs_at(end, APPLICATION_SNIPPET_OPEN@, 3);
    assert(s.description =~= Seq::<char>::empty());
    let closed = CodeSnippetView { title: s.title, description: Seq::empty(), code: s.code };
    assert(closed == s);
    assert(st.content =~= Seq::<char>::empty());
    assert(st.title =~= Seq::<char>::empty());
    assert(application_step(st2, end) == ApplicationScan {
        snippets: st.snippets.push(s),
        ..st
    });
    lemma_application_scan_one(st2, end);
    lemma_application_scan_concat(st, seq![m], body);
    lemma_application_scan_concat(st, seq![m] + body, seq![end]);
    assert(all_whole(seq![m]));
    assert(all_whole(seq![end]));
    lemma_all_whole_concat(seq![m], body);
    lemma_all_whole_concat(seq![m] + body, seq![end]);
}

/// Reading the lines of faithful code snippets between two sections adds
/// exactly those snippets, in order, and ends between two sections.
pub proof fn lemma_scan_application_snippets(st: ApplicationScan, snippets: Seq<CodeSnippetView>)
    requires
        between_sections(st),
        forall|i: int|
            0 <= i < snippets.len() ==> faithful_application_snippet(#[trigger] snippets[i]),
    ensures
        application_scan_front(st, all_application_snippet_lines(snippets))
            == (ApplicationScan { snippets: st.snippets + snippets, ..st }),
        all_whole(all_application_snippet_lines(snippets)),
    decreases snippets.len(),
{
    if snippets.len() == 0 {
        assert(st.snippets + snippets =~= st.snippets);
    } else {
        let first = snippets[0];
        let rest = snippets.drop_first();
        assert(faithful_application_snippet(first));
        lemma_scan_application_snippet(st, first);
        let st1 = ApplicationScan { snippets: st.snippets.push(first), ..st };
        assert forall|i: int| 0 <= i < rest.len() implies faithful_application_snippet(
            #[trigger] rest[i],
        ) by {
            assert(rest[i] == snippets[i + 1]);
        }
        lemma_scan_application_snippets(st1, rest);
        lemma_application_scan_concat(
            st,
            application_snippet_lines(first),
            all_application_snippet_lines(rest),
        );
        assert(st.snippets.push(first) + rest =~= st.snippets + snippets);
        lemma_all_whole_concat(
            application_snippet_lines(first),
            all_application_snippet_lines(rest),
        );
    }
}

/// Reading back what was written: a faithful application that is written
/// in the application grammar and read again is the same application,
/// field for field, whatever the topic.
pub proof fn lemma_application_round_trip(a: GeneratedApplicationView, topic: Seq<char>)
    requires
        faithful_application(a),
    ensures
        parse_application(render_application(a), topic) == a,
{
    let start = application_start();
    let named = section_lines(APPLICATION_NAME_OPEN@, a.name);
    let described = section_lines(APPLICATION_DESCRIPTION_OPEN@, a.description);
    let listed = seq![APPLICATION_FEATURES_OPEN@] + feature_lines(a.features) + seq![
        RECORD_END@,
    ];
    let coded = all_application_snippet_lines(a.code_snippets);
    let all = application_lines(a);
    lemma_scan_name(start, a.name);
    let st1 = ApplicationScan { name: a.name, ..start };
    lemma_scan_description(st1, a.description);
    let st2 = ApplicationScan { description: a.description, ..st1 };
    lemma_scan_features(st2, a.features);
    let st3 = ApplicationScan { features: a.features, ..st2 };
    lemma_scan_application_snippets(st3, a.code_snippets);
    let st4 = ApplicationScan { snippets: st3.snippets + a.code_snippets, ..st3 };
    lemma_application_scan_concat(start, named, described);
    lemma_application_scan_concat(start, named + described, listed);
    lemma_application_scan_concat(start, named + described + listed, coded);
    assert(application_scan_front(start, all) == st4);
    lemma_all_whole_concat(named, described);
    lemma_all_whole_concat(named + described, listed);
    lemma_all_whole_concat(named + described + listed, coded);
    lemma_lines_of_joined(all);
    lemma_application_scan_front_is_scan(start, all);
    assert(st4.snippets =~= a.code_snippets);
    assert(with_closed_application_snippet(st4) == st4.snippets);
    let read = parse_application(render_application(a), topic);
    assert(read.name == a.name);
    assert(read.description == a.description);
    assert(read.features == a.features);
    assert(read.code_snippets == a.code_snippets);
}

/// The lines of code snippets of an application with one more at the end.
pub proof fn lemma_application_snippet_lines_push(snippets: Seq<CodeSnippetView>, last: CodeSnippetView)
    ensures
        all_application_snippet_lines(snippets.push(last)) == all_application_snippet_lines(
            snippets,
        ) + application_snippet_lines(last),
    decreases snippets.len(),
{
    let more = snippets.push(last);
    if snippets.len() == 0 {
        assert(more.drop_first() =~= Seq::<CodeSnippetView>::empty());
        assert(all_application_snippet_lines(more.drop_first()) =~= Seq::<Seq<char>>::empty());
        assert(all_application_snippet_lines(more) =~= application_snippet_lines(last));
        assert(all_application_snippet_lines(snippets) + application_snippet_lines(last)
            =~= application_snippet_lines(last));
    } else {
        assert(more[0] == snippets[0]);
        assert(more.drop_first() =~= snippets.drop_first().push(last));
        lemma_application_snippet_lines_push(snippets.drop_first(), last);
        assert(all_application_snippet_lines(more) =~= all_application_snippet_lines(snippets)
            + application_snippet_lines(last));
    }
}

/// Appends a section: its marker, its text, and the end marker.
fn push_section(out: &mut Vec<char>, open: &str, text: &str)
    ensures
        final(out)@ == old(out)@ + joined_lines(section_lines(open@, text@)),
{
    proof {
        lemma_joined_lines_concat(seq![open@], body_lines(text@));
        lemma_joined_lines_concat(seq![open@] + body_lines(text@), seq![RECORD_END@]);
    }
    push_line(out, open);
    push_body(out, text);
    push_line(out, RECORD_END);
    assert(out@ =~= old(out)@ + (joined_lines(seq![open@]) + joined_lines(body_lines(text@))
        + joined_lines(seq![RECORD_END@])));
}

impl crate::question_generator::GeneratedApplication {
    /// Writes the application in the application grammar: the name, the
    /// description, the features as a list and every code snippet under
    /// its title, each between its marker and the end marker.
    pub fn to_grammar_text(&self) -> (text: String)
        ensures
            text@ == render_application(self@),
    {
        let mut out: Vec<char> = Vec::new();
        let ghost features = self@.features;
        let ghost snippets = self@.code_snippets;
        let ghost named = section_lines(APPLICATION_NAME_OPEN@, self@.name);
        let ghost described = section_lines(APPLICATION_DESCRIPTION_OPEN@, self@.description);
        push_section(&mut out, APPLICATION_NAME_OPEN, self.name.as_str());
        push_section(&mut out, APPLICATION_DESCRIPTION_OPEN, self.description.as_str());
        proof {
            lemma_joined_lines_concat(named, described);
            assert(out@ =~= joined_lines(named + described));
        }
        let ghost start = named + described;
        let ghost opened = seq![APPLICATION_FEATURES_OPEN@];
        push_line(&mut out, APPLICATION_FEATURES_OPEN);
        let mut i: usize = 0;
        proof {
            lemma_joined_lines_concat(start, opened);
            assert(features.take(0) =~= Seq::<Seq<char>>::empty());
            assert(feature_lines(features.take(0)) =~= Seq::<Seq<char>>::empty());
            assert(start + (opened + feature_lines(features.take(0))) =~= start + opened);
        }
        while i < self.features.len()
            invariant
                i <= self.features.len(),
                features == crate::question_generator::texts(self.features@),
                out@ == joined_lines(start + (opened + feature_lines(features.take(i as int)))),
            decreases self.features.len() - i,
        {
            let ghost before = start + (opened + feature_lines(features.take(i as int)));
            let ghost line = feature_line(features[i as int]);
            push_str(&mut out, "- ");
            push_str(&mut out, self.features[i].as_str());
            out.push('\n');
            proof {
                reveal_strlit("- ");
                assert("- "@ =~= seq!['-', ' ']);
                assert(features[i as int] == self.features[i as int]@);
                crate::round_trip::lemma_joined_one(line);
                crate::round_trip::lemma_joined_lines_push(before, line);
                assert(features.take(i + 1) =~= features.take(i as int).push(features[i as int]));
                assert(feature_lines(features.take(i + 1)) =~= feature_lines(
                    features.take(i as int),
                ).push(line));
                assert(before.push(line) =~= start + (opened + feature_lines(
                    features.take(i + 1),
                )));
                assert(out@ =~= joined_lines(before) + (line + seq!['\n']));
            }
            i += 1;
        }
        assert(features.take(i as int) =~= features);
        let ghost listed = opened + feature_lines(features) + seq![RECORD_END@];
        push_line(&mut out, RECORD_END);
        proof {
            crate::round_trip::lemma_joined_lines_push(
                start + (opened + feature_lines(features)),
                RECORD_END@,
            );
            assert((start + (opened + feature_lines(features))).push(RECORD_END@) =~= start
                + listed);
        }
        let ghost middle = start + listed;
        let mut j: usize = 0;
        proof {
            assert(snippets.take(0) =~= Seq::<CodeSnippetView>::empty());
            assert(middle + all_application_snippet_lines(snippets.take(0)) =~= middle);
        }
        while j < self.code_snippets.len()
            invariant
                j <= self.code_snippets.len(),
                snippets == crate::prompt_response::snippet_views(self.code_snippets@),
                out@ == joined_lines(
                    middle + all_application_snippet_lines(snippets.take(j as int)),
                ),
            decreases self.code_snippets.len() - j,
        {
            let snippet = &self.code_snippets[j];
            let ghost before = all_application_snippet_lines(snippets.take(j as int));
            let ghost s = snippets[j as int];
            let ghost marker = application_snippet_marker(s.title);
            let ghost body = body_lines(s.code);
            let ghost reached = out@;
            proof {
                assert(s == snippet@);
                assert(snippets.take(j + 1) =~= snippets.take(j as int).push(s));
                lemma_application_snippet_lines_push(snippets.take(j as int), s);
                lemma_joined_lines_concat(middle + before, application_snippet_lines(s));
                assert(middle + (before + application_snippet_lines(s)) =~= (middle + before)
                    + application_snippet_lines(s));
                lemma_joined_lines_concat(seq![marker], body);
                lemma_joined_lines_concat(seq![marker] + body, seq![RECORD_END@]);
                crate::round_trip::lemma_joined_one(marker);
                reveal_strlit(">>>");
            }
            push_str(&mut out, APPLICATION_SNIPPET_OPEN);
            out.push(' ');
            push_str(&mut out, snippet.title.as_str());
            push_str(&mut out, ">>>");
            out.push('\n');
            assert(out@ =~= reached + joined_lines(seq![marker]));
            push_body(&mut out, snippet.code.as_str());
            push_line(&mut out, RECORD_END);
            assert(out@ =~= reached + (joined_lines(seq![marker]) + joined_lines(body)
                + joined_lines(seq![RECORD_END@])));
            j += 1;
        }
        assert(snippets.take(j as int) =~= snippets);
        assert(middle + all_application_snippet_lines(snippets) =~= application_lines(self@));
        string_of(out.as_slice())
    }
}

} // verus!
