//! The learning module shown to the learner, and the further reading that
//! is listed under it.

use crate::config::LearningResources;
use crate::prompt_response::{
    exercise_views, snippet_views, CodeSnippet, CodeSnippetView, Exercise, ExerciseView,
};
use crate::template::same_text;
use crate::text::{
    chars_of, copy_range, has_prefix, is_whitespace, leading_count, push_all, push_str, skip_leading,
    starts_with, string_of, CharClass,
};
use vstd::prelude::*;

verus! {

/// A link to further reading.
#[derive(Debug, Clone)]
pub struct Resource {
    pub title: String,
    pub url: String,
    pub description: String,
}

/// Further reading on a topic, by kind.
#[derive(Debug, Clone)]
pub struct AdditionalResources {
    pub official_docs: Vec<Resource>,
    pub community_resources: Vec<Resource>,
    pub crates_io: Vec<Resource>,
    pub github_repos: Vec<Resource>,
}

/// What the learner is shown on one topic.
#[derive(Debug, Clone)]
pub struct LearningModule {
    pub topic: String,
    pub explanation: String,
    pub code_snippets: Vec<CodeSnippet>,
    pub exercises: Vec<Exercise>,
    pub additional_resources: Option<AdditionalResources>,
}

/// Mathematical value of a `Resource`.
pub struct ResourceView {
    pub title: Seq<char>,
    pub url: Seq<char>,
    pub description: Seq<char>,
}

/// Mathematical value of an `AdditionalResources`.
pub struct AdditionalResourcesView {
    pub official_docs: Seq<ResourceView>,
    pub community_resources: Seq<ResourceView>,
    pub crates_io: Seq<ResourceView>,
    pub github_repos: Seq<ResourceView>,
}

/// Mathematical value of a `LearningModule`.
pub struct LearningModuleView {
    pub topic: Seq<char>,
    pub explanation: Seq<char>,
    pub code_snippets: Seq<CodeSnippetView>,
    pub exercises: Seq<ExerciseView>,
    pub additional_resources: Option<AdditionalResourcesView>,
}

impl View for Resource {
    type V = ResourceView;

    open spec fn view(&self) -> ResourceView {
        ResourceView { title: self.title@, url: self.url@, description: self.description@ }
    }
}

/// The values of a sequence of resources.
pub open spec fn resource_views(v: Seq<Resource>) -> Seq<ResourceView> {
    v.map_values(|r: Resource| r@)
}

impl View for AdditionalResources {
    type V = AdditionalResourcesView;

    open spec fn view(&self) -> AdditionalResourcesView {
        AdditionalResourcesView {
            official_docs: resource_views(self.official_docs@),
            community_resources: resource_views(self.community_resources@),
            crates_io: resource_views(self.crates_io@),
            github_repos: resource_views(self.github_repos@),
        }
    }
}

/// The value of optional further reading.
pub open spec fn optional_resources(r: Option<AdditionalResources>) -> Option<
    AdditionalResourcesView,
> {
    match r {
        Some(r) => Some(r@),
        None => None,
    }
}

impl View for LearningModule {
    type V = LearningModuleView;

    open spec fn view(&self) -> LearningModuleView {
        LearningModuleView {
            topic: self.topic@,
            explanation: self.explanation@,
            code_snippets: snippet_views(self.code_snippets@),
            exercises: exercise_views(self.exercises@),
            additional_resources: optional_resources(self.additional_resources),
        }
    }
}

/// Number of bytes that a character takes in UTF-8.
pub open spec fn utf8_width(c: char) -> nat {
    let n = c as u32;
    if n < 0x80 {
        1
    } else if n < 0x800 {
        2
    } else if n < 0x10000 {
        3
    } else {
        4
    }
}

/// Number of bytes that a text takes in UTF-8.
pub open spec fn utf8_length(s: Seq<char>) -> nat
    decreases s.len(),
{
    if s.len() == 0 {
        0
    } else {
        utf8_length(s.drop_last()) + utf8_width(s.last())
    }
}

/// Tests whether a text takes more than `bound` bytes in UTF-8.
pub fn longer_than(s: &[char], bound: usize) -> (b: bool)
    ensures
        b == (utf8_length(s@) > bound),
{
    let mut total: usize = 0;
    let mut i: usize = 0;
    assert(s@.take(0) =~= Seq::<char>::empty());
    while i < s.len()
        invariant
            i <= s.len(),
            total == utf8_length(s@.take(i as int)),
            total <= bound,
        decreases s.len() - i,
    {
        assert(s@.take(i + 1).drop_last() =~= s@.take(i as int));
        let n: u32 = s[i] as u32;
        let width: usize = if n < 0x80 {
            1
        } else if n < 0x800 {
            2
        } else if n < 0x10000 {
            3
        } else {
            4
        };
        if width > bound - total {
            proof {
                lemma_utf8_length_grows(s@, i + 1);
            }
            return true;
        }
        total += width;
        i += 1;
    }
    assert(s@.take(i as int) =~= s@);
    false
}

/// A text takes at least as many bytes as any of its prefixes.
pub proof fn lemma_utf8_length_grows(s: Seq<char>, n: int)
    requires
        0 <= n <= s.len(),
    ensures
        utf8_length(s.take(n)) <= utf8_length(s),
    decreases s.len() - n,
{
    if n == s.len() {
        assert(s.take(n) =~= s);
    } else {
        lemma_utf8_length_grows(s.drop_last(), n);
        assert(s.drop_last().take(n) =~= s.take(n));
    }
}

/// Place of the first white-space character of `s`, or its length.
pub open spec fn word_end(s: Seq<char>) -> int
    decreases s.len(),
{
    if s.len() == 0 || is_whitespace(s[0]) {
        0
    } else {
        1 + word_end(s.drop_first())
    }
}

/// `word_end` is the least place of a white-space character, or the length.
pub proof fn lemma_word_end(s: Seq<char>)
    ensures
        0 <= word_end(s) <= s.len(),
        word_end(s) < s.len() ==> is_whitespace(s[word_end(s)]),
        forall|i: int| 0 <= i < word_end(s) ==> !is_whitespace(s[i]),
    decreases s.len(),
{
    if s.len() == 0 || is_whitespace(s[0]) {
    } else {
        let t = s.drop_first();
        lemma_word_end(t);
        assert forall|i: int| 0 <= i < word_end(s) implies !is_whitespace(s[i]) by {
            if i > 0 {
                assert(s[i] == t[i - 1]);
            }
        }
    }
}

/// What is left of a text without its leading white space is a suffix of
/// it that does not begin with white space.
pub proof fn lemma_skip_leading_whitespace(s: Seq<char>)
    ensures
        skip_leading(s, CharClass::Whitespace).len() <= s.len(),
        skip_leading(s, CharClass::Whitespace).len() > 0 ==> !is_whitespace(
            skip_leading(s, CharClass::Whitespace)[0],
        ),
    decreases s.len(),
{
    if s.len() > 0 && is_whitespace(s[0]) {
        lemma_skip_leading_whitespace(s.drop_first());
    }
}

/// The words of a text: its longest runs of characters that are not white
/// space, in order.
pub open spec fn words(s: Seq<char>) -> Seq<Seq<char>>
    decreases s.len(),
{
    let rest = skip_leading(s, CharClass::Whitespace);
    let end = word_end(rest);
    if 0 < end <= rest.len() <= s.len() {
        seq![rest.take(end)] + words(rest.skip(end))
    } else {
        Seq::empty()
    }
}

/// Splits a text into its words.
pub fn split_words(s: &[char]) -> (out: Vec<Vec<char>>)
    ensures
        crate::text::rows(out@) == words(s@),
{
    let mut out: Vec<Vec<char>> = Vec::new();
    let mut at: usize = 0;
    assert(s@.skip(0) =~= s@);
    assert(crate::text::rows(out@) =~= Seq::<Seq<char>>::empty());
    while at < s.len()
        invariant
            at <= s.len(),
            words(s@) == crate::text::rows(out@) + words(s@.skip(at as int)),
        decreases s.len() - at,
    {
        let ghost tail = s@.skip(at as int);
        let rest_slice = copy_range(s, at, s.len());
        assert(rest_slice@ =~= tail);
        let skipped = leading_count(rest_slice.as_slice(), CharClass::Whitespace);
        let start = at + skipped;
        let ghost rest = tail.skip(skipped as int);
        proof {
            lemma_skip_leading_whitespace(tail);
            lemma_word_end(rest);
            assert(rest =~= s@.skip(start as int));
        }
        let mut end: usize = start;
        while end < s.len() && !CharClass::Whitespace.test(s[end])
            invariant
                start <= end <= s.len(),
                forall|j: int| start <= j < end ==> !is_whitespace(s@[j]),
            decreases s.len() - end,
        {
            end += 1;
        }
        proof {
            assert(word_end(rest) == end - start) by {
                if word_end(rest) < end - start {
                    assert(rest[word_end(rest)] == s@[start + word_end(rest)]);
                } else if word_end(rest) > end - start {
                    assert(rest[end - start] == s@[end as int]);
                }
            }
        }
        if end > start {
            let word = copy_range(s, start, end);
            proof {
                assert(word@ =~= rest.take(end - start));
                assert(rest.skip(end - start) =~= s@.skip(end as int));
                assert(crate::text::rows(out@.push(word)) =~= crate::text::rows(out@).push(word@));
            }
            out.push(word);
        } else {
            proof {
                assert(words(tail) =~= Seq::<Seq<char>>::empty());
                assert(end == s.len());
                assert(words(s@.skip(end as int)) =~= Seq::<Seq<char>>::empty());
            }
        }
        at = end;
    }
    proof {
        lemma_skip_leading_whitespace(s@.skip(at as int));
        assert(words(s@.skip(at as int)) =~= Seq::<Seq<char>>::empty());
    }
    out
}

/// Whether a word of a topic is a keyword: it takes more than three bytes
/// and is not the language's name.
pub open spec fn is_keyword(word: Seq<char>) -> bool {
    utf8_length(word) > 3 && word != "Rust"@ && word != "rust"@
}

/// The keywords among the given words, in order.
pub open spec fn keywords_among(words: Seq<Seq<char>>) -> Seq<Seq<char>>
    decreases words.len(),
{
    if words.len() == 0 {
        Seq::empty()
    } else if is_keyword(words.last()) {
        keywords_among(words.drop_last()).push(words.last())
    } else {
        keywords_among(words.drop_last())
    }
}

/// The keywords of a topic.
pub open spec fn keywords_of(topic: Seq<char>) -> Seq<Seq<char>> {
    keywords_among(words(topic))
}

/// The keywords of a topic.
pub fn topic_keywords(topic: &[char]) -> (found: Vec<Vec<char>>)
    ensures
        crate::text::rows(found@) == keywords_of(topic@),
{
    let all = split_words(topic);
    let rust_upper = chars_of("Rust");
    let rust_lower = chars_of("rust");
    let mut found: Vec<Vec<char>> = Vec::new();
    let mut i: usize = 0;
    let ghost all_rows = crate::text::rows(all@);
    assert(all_rows.take(0) =~= Seq::<Seq<char>>::empty());
    assert(crate::text::rows(found@) =~= Seq::<Seq<char>>::empty());
    while i < all.len()
        invariant
            i <= all.len(),
            all_rows == crate::text::rows(all@),
            rust_upper@ == "Rust"@,
            rust_lower@ == "rust"@,
            crate::text::rows(found@) == keywords_among(all_rows.take(i as int)),
        decreases all.len() - i,
    {
        assert(all_rows.take(i + 1).drop_last() =~= all_rows.take(i as int));
        let word = &all[i];
        if longer_than(word.as_slice(), 3) && !same_text(word.as_slice(), rust_upper.as_slice())
            && !same_text(word.as_slice(), rust_lower.as_slice()) {
            let kept = copy_range(word.as_slice(), 0, word.len());
            assert(kept@ =~= word@);
            assert(crate::text::rows(found@.push(kept)) =~= crate::text::rows(found@).push(kept@));
            found.push(kept);
        }
        i += 1;
    }
    assert(all_rows.take(i as int) =~= all_rows);
    found
}

/// How the resources of one kind are made: the fixed ones, and the three
/// texts of the one that each keyword adds, given as what stands before the
/// keyword, with a closing text for the description.
pub struct ResourceKind {
    pub fixed: Seq<ResourceView>,
    pub title_head: Seq<char>,
    pub url_head: Seq<char>,
    pub description_head: Seq<char>,
    pub description_tail: Seq<char>,
}

/// The resource that a keyword adds to a kind.
pub open spec fn keyword_resource(kind: ResourceKind, keyword: Seq<char>) -> ResourceView {
    ResourceView {
        title: kind.title_head + keyword,
        url: kind.url_head + keyword,
        description: kind.description_head + keyword + kind.description_tail,
    }
}

/// The resources that the given keywords add to a kind, in order.
pub open spec fn keyword_resources(kind: ResourceKind, keywords: Seq<Seq<char>>) -> Seq<
    ResourceView,
>
    decreases keywords.len(),
{
    if keywords.len() == 0 {
        Seq::empty()
    } else {
        keyword_resources(kind, keywords.drop_last()).push(
            keyword_resource(kind, keywords.last()),
        )
    }
}

/// The resources of a kind: none where the kind is switched off, else the
/// fixed ones and then one for each keyword.
pub open spec fn resources_of_kind(kind: ResourceKind, shown: bool, keywords: Seq<Seq<char>>) -> Seq<
    ResourceView,
> {
    if shown {
        kind.fixed + keyword_resources(kind, keywords)
    } else {
        Seq::empty()
    }
}

/// A resource with the given texts.
pub open spec fn resource_text(title: Seq<char>, url: Seq<char>, description: Seq<char>) -> ResourceView {
    ResourceView { title, url, description }
}

/// The official documentation.
pub open spec fn official_docs_kind() -> ResourceKind {
    ResourceKind {
        fixed: seq![
            resource_text(
                "Rust Standard Library Documentation"@,
                "https://doc.rust-lang.org/std/"@,
                "Official documentation for the Rust standard library"@,
            ),
            resource_text(
                "The Rust Programming Language Book"@,
                "https://doc.rust-lang.org/book/"@,
                "Comprehensive guide to the Rust programming language"@,
            ),
            resource_text(
                "Rust By Example"@,
                "https://doc.rust-lang.org/rust-by-example/"@,
                "Collection of runnable examples that illustrate various Rust concepts"@,
            ),
        ],
        title_head: "Rust Documentation Search: "@,
        url_head: "https://doc.rust-lang.org/std/?search="@,
        description_head: "Search results for '"@,
        description_tail: "' in the Rust documentation"@,
    }
}

/// The community resources.
pub open spec fn community_kind() -> ResourceKind {
    ResourceKind {
        fixed: seq![
            resource_text(
                "Rust Users Forum"@,
                "https://users.rust-lang.org/"@,
                "Official forum for Rust users to ask questions and share knowledge"@,
            ),
            resource_text(
                "Rust Subreddit"@,
                "https://www.reddit.com/r/rust/"@,
                "Reddit community for Rust developers"@,
            ),
        ],
        title_head: "Stack Overflow: Rust + "@,
        url_head: "https://stackoverflow.com/questions/tagged/rust+"@,
        description_head: "Stack Overflow questions about Rust and "@,
        description_tail: ""@,
    }
}

/// The package registry.
pub open spec fn crates_io_kind() -> ResourceKind {
    ResourceKind {
        fixed: seq![
            resource_text(
                "Crates.io - The Rust Package Registry"@,
                "https://crates.io/"@,
                "The official Rust package registry"@,
            ),
        ],
        title_head: "Crates.io Search: "@,
        url_head: "https://crates.io/search?q="@,
        description_head: "Rust packages related to "@,
        description_tail: ""@,
    }
}

/// The source repositories.
pub open spec fn github_kind() -> ResourceKind {
    ResourceKind {
        fixed: seq![
            resource_text(
                "Rust Language GitHub Repository"@,
                "https://github.com/rust-lang/rust"@,
                "The official Rust language repository"@,
            ),
        ],
        title_head: "GitHub: Rust + "@,
        url_head: "https://github.com/search?q=language:rust+"@,
        description_head: "GitHub repositories related to Rust and "@,
        description_tail: ""@,
    }
}

/// What marks the topic of a module that reports an error.
pub const ERROR_TOPIC_HEAD: &'static str = "Error";

/// The further reading on a topic. None is listed for a module that
/// reports an error, where every kind is switched off, and for a topic
/// without keywords.
pub open spec fn additional_resources_for(topic: Seq<char>, shown: LearningResources) -> Option<
    AdditionalResourcesView,
> {
    let keywords = keywords_of(topic);
    if starts_with(topic, ERROR_TOPIC_HEAD@) {
        None
    } else if !shown.show_official_docs && !shown.show_community_resources
        && !shown.show_crates_io && !shown.show_github_repos {
        None
    } else if keywords.len() == 0 {
        None
    } else {
        Some(
            AdditionalResourcesView {
                official_docs: resources_of_kind(
                    official_docs_kind(),
                    shown.show_official_docs,
                    keywords,
                ),
                community_resources: resources_of_kind(
                    community_kind(),
                    shown.show_community_resources,
                    keywords,
                ),
                crates_io: resources_of_kind(crates_io_kind(), shown.show_crates_io, keywords),
                github_repos: resources_of_kind(github_kind(), shown.show_github_repos, keywords),
            },
        )
    }
}

/// A resource with the given texts.
fn resource(title: &str, url: &str, description: &str) -> (r: Resource)
    ensures
        r@ == resource_text(title@, url@, description@),
{
    Resource { title: title.to_owned(), url: url.to_owned(), description: description.to_owned() }
}

/// Adds to `list` the resource of each keyword.
fn add_keyword_resources(
    list: &mut Vec<Resource>,
    keywords: &Vec<Vec<char>>,
    title_head: &str,
    url_head: &str,
    description_head: &str,
    description_tail: &str,
    Ghost(kind): Ghost<ResourceKind>,
)
    requires
        kind.title_head == title_head@,
        kind.url_head == url_head@,
        kind.description_head == description_head@,
        kind.description_tail == description_tail@,
    ensures
        resource_views(final(list)@) == resource_views(old(list)@) + keyword_resources(
            kind,
            crate::text::rows(keywords@),
        ),
{
    let mut i: usize = 0;
    let ghost all = crate::text::rows(keywords@);
    let ghost before = resource_views(list@);
    assert(all.take(0) =~= Seq::<Seq<char>>::empty());
    assert(before + Seq::<ResourceView>::empty() =~= before);
    while i < keywords.len()
        invariant
            i <= keywords.len(),
            all == crate::text::rows(keywords@),
            kind.title_head == title_head@,
            kind.url_head == url_head@,
            kind.description_head == description_head@,
            kind.description_tail == description_tail@,
            resource_views(list@) == before + keyword_resources(kind, all.take(i as int)),
        decreases keywords.len() - i,
    {
        assert(all.take(i + 1).drop_last() =~= all.take(i as int));
        let keyword = &keywords[i];
        let mut title: Vec<char> = Vec::new();
        push_str(&mut title, title_head);
        push_all(&mut title, keyword.as_slice());
        let mut url: Vec<char> = Vec::new();
        push_str(&mut url, url_head);
        push_all(&mut url, keyword.as_slice());
        let mut description: Vec<char> = Vec::new();
        push_str(&mut description, description_head);
        push_all(&mut description, keyword.as_slice());
        push_str(&mut description, description_tail);
        let made = Resource {
            title: string_of(title.as_slice()),
            url: string_of(url.as_slice()),
            description: string_of(description.as_slice()),
        };
        proof {
            let expected = keyword_resource(kind, keyword@);
            assert(made@.title =~= expected.title);
            assert(made@.url =~= expected.url);
            assert(made@.description =~= expected.description);
            assert(resource_views(list@.push(made)) =~= resource_views(list@).push(made@));
            let found = keyword_resources(kind, all.take(i as int));
            assert((before + found).push(made@) =~= before + found.push(made@));
        }
        list.push(made);
        i += 1;
    }
    assert(all.take(i as int) =~= all);
}

/// Lists the further reading on a topic.
pub fn generate_additional_resources(topic: &str, shown: &LearningResources) -> (r: Option<
    AdditionalResources,
>)
    ensures
        optional_resources(r) == additional_resources_for(topic@, *shown),
{
    let text = chars_of(topic);
    if has_prefix(text.as_slice(), ERROR_TOPIC_HEAD) {
        return None;
    }
    if !shown.show_official_docs && !shown.show_community_resources && !shown.show_crates_io
        && !shown.show_github_repos {
        return None;
    }
    let keywords = topic_keywords(text.as_slice());
    if keywords.len() == 0 {
        return None;
    }
    let mut official_docs: Vec<Resource> = Vec::new();
    let mut community_resources: Vec<Resource> = Vec::new();
    let mut crates_io: Vec<Resource> = Vec::new();
    let mut github_repos: Vec<Resource> = Vec::new();
    proof {
        assert(resource_views(official_docs@) =~= Seq::<ResourceView>::empty());
        assert(resource_views(community_resources@) =~= Seq::<ResourceView>::empty());
        assert(resource_views(crates_io@) =~= Seq::<ResourceView>::empty());
        assert(resource_views(github_repos@) =~= Seq::<ResourceView>::empty());
    }
    if shown.show_official_docs {
        official_docs.push(
            resource(
                "Rust Standard Library Documentation",
                "https://doc.rust-lang.org/std/",
                "Official documentation for the Rust standard library",
            ),
        );
        official_docs.push(
            resource(
                "The Rust Programming Language Book",
                "https://doc.rust-lang.org/book/",
                "Comprehensive guide to the Rust programming language",
            ),
        );
        official_docs.push(
            resource(
                "Rust By Example",
                "https://doc.rust-lang.org/rust-by-example/",
                "Collection of runnable examples that illustrate various Rust concepts",
            ),
        );
        assert(resource_views(official_docs@) =~= official_docs_kind().fixed);
        add_keyword_resources(
            &mut official_docs,
            &keywords,
            "Rust Documentation Search: ",
            "https://doc.rust-lang.org/std/?search=",
            "Search results for '",
            "' in the Rust documentation",
            Ghost(official_docs_kind()),
        );
    }
    if shown.show_community_resources {
        community_resources.push(
            resource(
                "Rust Users Forum",
                "https://users.rust-lang.org/",
                "Official forum for Rust users to ask questions and share knowledge",
            ),
        );
        community_resources.push(
            resource(
                "Rust Subreddit",
                "https://www.reddit.com/r/rust/",
                "Reddit community for Rust developers",
            ),
        );
        assert(resource_views(community_resources@) =~= community_kind().fixed);
        add_keyword_resources(
            &mut community_resources,
            &keywords,
            "Stack Overflow: Rust + ",
            "https://stackoverflow.com/questions/tagged/rust+",
            "Stack Overflow questions about Rust and ",
            "",
            Ghost(community_kind()),
        );
    }
    if shown.show_crates_io {
        crates_io.push(
            resource(
                "Crates.io - The Rust Package Registry",
                "https://crates.io/",
                "The official Rust package registry",
            ),
        );
        assert(resource_views(crates_io@) =~= crates_io_kind().fixed);
        add_keyword_resources(
            &mut crates_io,
            &keywords,
            "Crates.io Search: ",
            "https://crates.io/search?q=",
            "Rust packages related to ",
            "",
            Ghost(crates_io_kind()),
        );
    }
    if shown.show_github_repos {
        github_repos.push(
            resource(
                "Rust Language GitHub Repository",
                "https://github.com/rust-lang/rust",
                "The official Rust language repository",
            ),
        );
        assert(resource_views(github_repos@) =~= github_kind().fixed);
        add_keyword_resources(
            &mut github_repos,
            &keywords,
            "GitHub: Rust + ",
            "https://github.com/search?q=language:rust+",
            "GitHub repositories related to Rust and ",
            "",
            Ghost(github_kind()),
        );
    }
    Some(AdditionalResources { official_docs, community_resources, crates_io, github_repos })
}

} // verus!
