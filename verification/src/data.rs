//! The indexes of topics, and the choice of a topic that suits a level.
//!
//! The indexes are read from disk elsewhere. Here a topic is chosen from an
//! index that was read.

use crate::text::{decimal_text, push_decimal, push_str, string_of};
use vstd::prelude::*;

verus! {

/// A topic to generate a module on.
#[derive(Debug, Clone)]
pub struct Topic {
    pub topic: String,
    pub source: String,
    pub min_level: u8,
}

/// An entry of the index of libraries.
#[derive(Debug, Clone)]
pub struct LibraryTopic {
    pub library_name: String,
    pub description: String,
    pub programmer_level: u8,
    pub programmer_level_description: String,
}

/// The index of the book of examples.
#[derive(Debug)]
pub struct RustByExampleFull {
    pub book: RustByExampleBook,
}

/// The book of examples.
#[derive(Debug)]
pub struct RustByExampleBook {
    pub title: String,
    pub url: String,
    pub chapters: Vec<Chapter>,
}

/// A chapter of a book.
#[derive(Debug)]
pub struct Chapter {
    pub chapter_number: u8,
    pub title: String,
    pub sections: Vec<Section>,
    pub min_level: Option<u8>,
}

/// A section of a chapter.
#[derive(Debug)]
pub struct Section {
    pub section_number: String,
    pub title: String,
    pub description: Option<String>,
    pub min_level: u8,
    pub sub_sections: Option<Vec<SubSection>>,
}

/// A part of a section.
#[derive(Debug)]
pub struct SubSection {
    pub section_number: String,
    pub title: String,
    pub min_level: u8,
    pub sub_sections: Option<Vec<SubSection>>,
}

/// The index of the language book.
#[derive(Debug)]
pub struct RustProgrammingLanguage {
    pub book: RustProgrammingLanguageBook,
}

/// The language book.
#[derive(Debug)]
pub struct RustProgrammingLanguageBook {
    pub title: String,
    pub url: String,
    pub introduction: String,
    pub chapters: Vec<Chapter>,
    pub appendices: Vec<Appendix>,
}

/// An appendix of the language book.
#[derive(Debug)]
pub struct Appendix {
    pub appendix_letter: String,
    pub title: String,
    pub min_level: u8,
}

/// Mathematical value of a `Topic`.
pub struct TopicView {
    pub topic: Seq<char>,
    pub source: Seq<char>,
    pub min_level: u8,
}

impl View for Topic {
    type V = TopicView;

    open spec fn view(&self) -> TopicView {
        TopicView { topic: self.topic@, source: self.source@, min_level: self.min_level }
    }
}

/// The values of a sequence of topics.
pub open spec fn topic_views(v: Seq<Topic>) -> Seq<TopicView> {
    v.map_values(|t: Topic| t@)
}

/// An index that topics are drawn from.
#[derive(Debug, Clone, Copy, PartialEq, Eq, Structural)]
pub enum TopicSource {
    /// The index of libraries.
    RustLibrary,
    /// The book of examples.
    RustByExample,
    /// The language book.
    RustProgrammingLanguage,
}

/// Why no topic was chosen.
#[derive(Debug, Clone, Copy, PartialEq, Eq, Structural)]
pub struct NoSuitableTopic {
    /// The index that was searched.
    pub source: TopicSource,
    /// The level that no topic of the index suits.
    pub level: u8,
}

/// What stands before a library's name in its topic.
pub const LIBRARY_TOPIC_HEAD: &'static str = "Library: ";

/// What stands before a library's name in its source.
pub const LIBRARY_SOURCE_HEAD: &'static str = "Rust Library: ";

/// What stands between a chapter's title and a section's title.
pub const TITLE_SEPARATOR: &'static str = ": ";

/// What stands before a section number of the book of examples.
pub const EXAMPLES_SOURCE_HEAD: &'static str = "RBE ";

/// What stands before a section number of the language book.
pub const BOOK_SOURCE_HEAD: &'static str = "The Book Ch ";

impl TopicSource {
    /// What stands before a section number in the source of a topic.
    pub open spec fn source_head(self) -> Seq<char> {
        match self {
            TopicSource::RustLibrary => LIBRARY_SOURCE_HEAD@,
            TopicSource::RustByExample => EXAMPLES_SOURCE_HEAD@,
            TopicSource::RustProgrammingLanguage => BOOK_SOURCE_HEAD@,
        }
    }

    /// The index's name inside the message that no topic suits.
    pub open spec fn message_name(self) -> Seq<char> {
        match self {
            TopicSource::RustLibrary => "library"@,
            TopicSource::RustByExample => "Rust By Example"@,
            TopicSource::RustProgrammingLanguage => "Rust Programming Language"@,
        }
    }
}

impl NoSuitableTopic {
    /// The error in words.
    pub open spec fn message_text(self) -> Seq<char> {
        "No suitable "@ + self.source.message_name() + " topics found for level "@ + decimal_text(
            self.level as nat,
        )
    }

    /// The error in words.
    pub fn message(&self) -> (s: String)
        ensures
            s@ == self.message_text(),
    {
        let mut text: Vec<char> = Vec::new();
        push_str(&mut text, "No suitable ");
        match self.source {
            TopicSource::RustLibrary => push_str(&mut text, "library"),
            TopicSource::RustByExample => push_str(&mut text, "Rust By Example"),
            TopicSource::RustProgrammingLanguage => push_str(&mut text, "Rust Programming Language"),
        }
        push_str(&mut text, " topics found for level ");
        push_decimal(&mut text, self.level as u64);
        assert(text@ =~= self.message_text());
        string_of(text.as_slice())
    }
}

/// The topic that an entry of the index of libraries stands for.
pub open spec fn library_topic(entry: LibraryTopic) -> TopicView {
    TopicView {
        topic: LIBRARY_TOPIC_HEAD@ + entry.library_name@,
        source: LIBRARY_SOURCE_HEAD@ + entry.library_name@,
        min_level: entry.programmer_level,
    }
}

/// The topics of the libraries that suit `level`, in the order of the
/// index: those whose level is at most `level`.
pub open spec fn suitable_libraries(entries: Seq<LibraryTopic>, level: u8) -> Seq<TopicView>
    decreases entries.len(),
{
    if entries.len() == 0 {
        Seq::empty()
    } else if entries.last().programmer_level <= level {
        suitable_libraries(entries.drop_last(), level).push(library_topic(entries.last()))
    } else {
        suitable_libraries(entries.drop_last(), level)
    }
}

/// The topic that a section of a chapter stands for.
pub open spec fn section_topic(chapter: Chapter, section: Section, head: Seq<char>) -> TopicView {
    TopicView {
        topic: chapter.title@ + TITLE_SEPARATOR@ + section.title@,
        source: head + section.section_number@,
        min_level: section.min_level,
    }
}

/// The topics of the sections of `chapter` that suit `level`, in order.
pub open spec fn suitable_sections(
    chapter: Chapter,
    sections: Seq<Section>,
    level: u8,
    head: Seq<char>,
) -> Seq<TopicView>
    decreases sections.len(),
{
    if sections.len() == 0 {
        Seq::empty()
    } else if sections.last().min_level <= level {
        suitable_sections(chapter, sections.drop_last(), level, head).push(
            section_topic(chapter, sections.last(), head),
        )
    } else {
        suitable_sections(chapter, sections.drop_last(), level, head)
    }
}

/// The topics of the sections of `chapters` that suit `level`, chapter by
/// chapter.
pub open spec fn suitable_chapters(chapters: Seq<Chapter>, level: u8, head: Seq<char>) -> Seq<
    TopicView,
>
    decreases chapters.len(),
{
    if chapters.len() == 0 {
        Seq::empty()
    } else {
        suitable_chapters(chapters.drop_last(), level, head) + suitable_sections(
            chapters.last(),
            chapters.last().sections@,
            level,
            head,
        )
    }
}

/// The topics of the libraries that suit `level`.
pub fn library_topics_for_level(entries: &Vec<LibraryTopic>, level: u8) -> (topics: Vec<Topic>)
    ensures
        topic_views(topics@) == suitable_libraries(entries@, level),
{
    let mut topics: Vec<Topic> = Vec::new();
    let mut i: usize = 0;
    assert(entries@.take(0) =~= Seq::<LibraryTopic>::empty());
    assert(topic_views(topics@) =~= Seq::<TopicView>::empty());
    while i < entries.len()
        invariant
            i <= entries.len(),
            topic_views(topics@) == suitable_libraries(entries@.take(i as int), level),
        decreases entries.len() - i,
    {
        assert(entries@.take(i + 1).drop_last() =~= entries@.take(i as int));
        let entry = &entries[i];
        if entry.programmer_level <= level {
            let mut name: Vec<char> = Vec::new();
            push_str(&mut name, LIBRARY_TOPIC_HEAD);
            push_str(&mut name, entry.library_name.as_str());
            let mut source: Vec<char> = Vec::new();
            push_str(&mut source, LIBRARY_SOURCE_HEAD);
            push_str(&mut source, entry.library_name.as_str());
            let topic = Topic {
                topic: string_of(name.as_slice()),
                source: string_of(source.as_slice()),
                min_level: entry.programmer_level,
            };
            assert(topic@.topic =~= library_topic(*entry).topic);
            assert(topic@.source =~= library_topic(*entry).source);
            assert(topic_views(topics@.push(topic)) =~= topic_views(topics@).push(topic@));
            topics.push(topic);
        }
        i += 1;
    }
    assert(entries@.take(i as int) =~= entries@);
    topics
}

/// The topics of the sections of `chapters` that suit `level`, with
/// sources that begin with the head of `source`.
pub fn chapter_topics_for_level(chapters: &Vec<Chapter>, level: u8, source: TopicSource) -> (topics:
    Vec<Topic>)
    ensures
        topic_views(topics@) == suitable_chapters(chapters@, level, source.source_head()),
{
    let head = match source {
        TopicSource::RustLibrary => LIBRARY_SOURCE_HEAD,
        TopicSource::RustByExample => EXAMPLES_SOURCE_HEAD,
        TopicSource::RustProgrammingLanguage => BOOK_SOURCE_HEAD,
    };
    let mut topics: Vec<Topic> = Vec::new();
    let mut i: usize = 0;
    assert(chapters@.take(0) =~= Seq::<Chapter>::empty());
    assert(topic_views(topics@) =~= Seq::<TopicView>::empty());
    while i < chapters.len()
        invariant
            i <= chapters.len(),
            head@ == source.source_head(),
            topic_views(topics@) == suitable_chapters(chapters@.take(i as int), level, head@),
        decreases chapters.len() - i,
    {
        assert(chapters@.take(i + 1).drop_last() =~= chapters@.take(i as int));
        let chapter = &chapters[i];
        let ghost before = topic_views(topics@);
        let mut j: usize = 0;
        assert(chapter.sections@.take(0) =~= Seq::<Section>::empty());
        assert(before + Seq::<TopicView>::empty() =~= before);
        while j < chapter.sections.len()
            invariant
                j <= chapter.sections.len(),
                topic_views(topics@) == before + suitable_sections(
                    *chapter,
                    chapter.sections@.take(j as int),
                    level,
                    head@,
                ),
            decreases chapter.sections.len() - j,
        {
            assert(chapter.sections@.take(j + 1).drop_last() =~= chapter.sections@.take(j as int));
            let section = &chapter.sections[j];
            if section.min_level <= level {
                let mut name: Vec<char> = Vec::new();
                push_str(&mut name, chapter.title.as_str());
                push_str(&mut name, TITLE_SEPARATOR);
                push_str(&mut name, section.title.as_str());
                let mut origin: Vec<char> = Vec::new();
                push_str(&mut origin, head);
                push_str(&mut origin, section.section_number.as_str());
                let topic = Topic {
                    topic: string_of(name.as_slice()),
                    source: string_of(origin.as_slice()),
                    min_level: section.min_level,
                };
                assert(topic@.topic =~= section_topic(*chapter, *section, head@).topic);
                assert(topic@.source =~= section_topic(*chapter, *section, head@).source);
                assert(topic_views(topics@.push(topic)) =~= topic_views(topics@).push(topic@));
                let ghost found = suitable_sections(
                    *chapter,
                    chapter.sections@.take(j as int),
                    level,
                    head@,
                );
                assert((before + found).push(topic@) =~= before + found.push(topic@));
                topics.push(topic);
            }
            j += 1;
        }
        assert(chapter.sections@.take(j as int) =~= chapter.sections@);
        i += 1;
    }
    assert(chapters@.take(i as int) =~= chapters@);
    topics
}

/// Draws a number below `bound` with `rand::thread_rng` and
/// `rand::Rng::gen_range`. Of the number only its range is known.
#[verifier::external_body]
fn random_below(bound: usize) -> (n: usize)
    requires
        bound > 0,
    ensures
        n < bound,
{
    rand::Rng::gen_range(&mut rand::thread_rng(), 0..bound)
}

/// The topic at place `place` of `topics`.
pub fn topic_at(topics: Vec<Topic>, place: usize) -> (topic: Topic)
    requires
        place < topics.len(),
    ensures
        topic@ == topic_views(topics@)[place as int],
{
    let mut topics = topics;
    topics.swap_remove(place)
}

/// Draws one of the given topics. Which one is drawn is left to chance;
/// none is drawn only where there is none.
pub fn draw_topic(topics: Vec<Topic>, source: TopicSource, level: u8) -> (r: Result<
    Topic,
    NoSuitableTopic,
>)
    ensures
        topics.len() == 0 ==> r == Err::<Topic, NoSuitableTopic>(
            NoSuitableTopic { source, level },
        ),
        topics.len() > 0 ==> r is Ok && topic_views(topics@).contains(r->Ok_0@),
{
    if topics.len() == 0 {
        Err(NoSuitableTopic { source, level })
    } else {
        let place = random_below(topics.len());
        Ok(topic_at(topics, place))
    }
}

/// Draws a library that suits `level`.
pub fn random_library_topic(entries: &Vec<LibraryTopic>, level: u8) -> (r: Result<
    Topic,
    NoSuitableTopic,
>)
    ensures
        r is Ok <==> suitable_libraries(entries@, level).len() > 0,
        r is Ok ==> suitable_libraries(entries@, level).contains(r->Ok_0@),
        r is Err ==> r->Err_0 == (NoSuitableTopic { source: TopicSource::RustLibrary, level }),
{
    draw_topic(library_topics_for_level(entries, level), TopicSource::RustLibrary, level)
}

/// Draws a section of `chapters` that suits `level`.
pub fn random_chapter_topic(chapters: &Vec<Chapter>, level: u8, source: TopicSource) -> (r: Result<
    Topic,
    NoSuitableTopic,
>)
    ensures
        r is Ok <==> suitable_chapters(chapters@, level, source.source_head()).len() > 0,
        r is Ok ==> suitable_chapters(chapters@, level, source.source_head()).contains(
            r->Ok_0@,
        ),
        r is Err ==> r->Err_0 == (NoSuitableTopic { source, level }),
{
    draw_topic(chapter_topics_for_level(chapters, level, source), source, level)
}

/// Draws one of the three indexes: a place below three is drawn, and the
/// index at that place is taken, as `source_at` says. Which place is drawn
/// is left to chance and each of the three indexes can come out, so there
/// is nothing to promise of the result.
pub fn random_source() -> (source: TopicSource) {
    source_at(random_below(3))
}

/// The index at a place from 0 to 2; the language book for any other.
pub fn source_at(place: usize) -> (source: TopicSource)
    ensures
        source == match place {
            0usize => TopicSource::RustLibrary,
            1usize => TopicSource::RustByExample,
            _ => TopicSource::RustProgrammingLanguage,
        },
{
    match place {
        0 => TopicSource::RustLibrary,
        1 => TopicSource::RustByExample,
        _ => TopicSource::RustProgrammingLanguage,
    }
}

} // verus!
