use rust_mentor::config::LearningResources;
use rust_mentor::data::{
    chapter_topics_for_level, draw_topic, library_topics_for_level, random_chapter_topic,
    random_library_topic, random_source, source_at, topic_at, Chapter, LibraryTopic,
    NoSuitableTopic, Section, Topic, TopicSource,
};
use rust_mentor::learning_module::{
    generate_additional_resources, longer_than, split_words, topic_keywords,
};

fn chars(text: &str) -> Vec<char> {
    text.chars().collect()
}

fn strings(rows: Vec<Vec<char>>) -> Vec<String> {
    rows.into_iter().map(|row| row.into_iter().collect()).collect()
}

fn library(name: &str, level: u8) -> LibraryTopic {
    LibraryTopic {
        library_name: name.to_string(),
        description: format!("about {}", name),
        programmer_level: level,
        programmer_level_description: "some".to_string(),
    }
}

fn section(number: &str, title: &str, level: u8) -> Section {
    Section {
        section_number: number.to_string(),
        title: title.to_string(),
        description: None,
        min_level: level,
        sub_sections: None,
    }
}

fn chapters() -> Vec<Chapter> {
    vec![
        Chapter {
            chapter_number: 1,
            title: "Basics".to_string(),
            sections: vec![section("1.1", "Hello", 1), section("1.2", "Macros", 6)],
            min_level: None,
        },
        Chapter { chapter_number: 2, title: "Empty".to_string(), sections: Vec::new(), min_level: Some(1) },
        Chapter {
            chapter_number: 3,
            title: "Types".to_string(),
            sections: vec![section("3.1", "Casting", 3)],
            min_level: None,
        },
    ]
}

fn all_shown() -> LearningResources {
    LearningResources {
        show_official_docs: true,
        show_community_resources: true,
        show_crates_io: true,
        show_github_repos: true,
    }
}

#[test]
fn libraries_that_suit_a_level() {
    let entries = vec![library("serde", 3), library("tokio", 7), library("rand", 5)];
    let topics = library_topics_for_level(&entries, 5);
    assert_eq!(topics.len(), 2);
    assert_eq!(topics[0].topic, "Library: serde");
    assert_eq!(topics[0].source, "Rust Library: serde");
    assert_eq!(topics[0].min_level, 3);
    assert_eq!(topics[1].topic, "Library: rand");
    assert_eq!(library_topics_for_level(&entries, 2).len(), 0);
    assert_eq!(library_topics_for_level(&entries, 10).len(), 3);
}

#[test]
fn sections_that_suit_a_level() {
    let topics = chapter_topics_for_level(&chapters(), 3, TopicSource::RustByExample);
    assert_eq!(topics.len(), 2);
    assert_eq!(topics[0].topic, "Basics: Hello");
    assert_eq!(topics[0].source, "RBE 1.1");
    assert_eq!(topics[1].topic, "Types: Casting");
    assert_eq!(topics[1].source, "RBE 3.1");
    assert_eq!(topics[1].min_level, 3);
    let topics = chapter_topics_for_level(&chapters(), 9, TopicSource::RustProgrammingLanguage);
    assert_eq!(topics.len(), 3);
    assert_eq!(topics[1].topic, "Basics: Macros");
    assert_eq!(topics[1].source, "The Book Ch 1.2");
    assert_eq!(chapter_topics_for_level(&chapters(), 0, TopicSource::RustByExample).len(), 0);
}

#[test]
fn a_drawn_topic_is_one_of_those_that_suit() {
    let entries = vec![library("serde", 3), library("tokio", 7), library("rand", 5)];
    for _ in 0..50 {
        let topic = random_library_topic(&entries, 6).expect("a topic");
        assert!(topic.topic == "Library: serde" || topic.topic == "Library: rand");
    }
    let only = random_library_topic(&entries, 3).expect("a topic");
    assert_eq!(only.topic, "Library: serde");
    let drawn = random_chapter_topic(&chapters(), 1, TopicSource::RustByExample).expect("a topic");
    assert_eq!(drawn.topic, "Basics: Hello");
    for _ in 0..20 {
        assert!(matches!(
            random_source(),
            TopicSource::RustLibrary
                | TopicSource::RustByExample
                | TopicSource::RustProgrammingLanguage
        ));
    }
}

#[test]
fn no_topic_is_an_error_with_a_message() {
    let entries = vec![library("tokio", 7)];
    let error = random_library_topic(&entries, 2).expect_err("nothing suits");
    assert_eq!(error, NoSuitableTopic { source: TopicSource::RustLibrary, level: 2 });
    assert_eq!(error.message(), "No suitable library topics found for level 2");
    let error =
        random_chapter_topic(&chapters(), 0, TopicSource::RustByExample).expect_err("nothing suits");
    assert_eq!(error.message(), "No suitable Rust By Example topics found for level 0");
    let error = draw_topic(Vec::new(), TopicSource::RustProgrammingLanguage, 255)
        .expect_err("nothing to draw from");
    assert_eq!(error.message(), "No suitable Rust Programming Language topics found for level 255");
}

#[test]
fn places() {
    assert_eq!(source_at(0), TopicSource::RustLibrary);
    assert_eq!(source_at(1), TopicSource::RustByExample);
    assert_eq!(source_at(2), TopicSource::RustProgrammingLanguage);
    assert_eq!(source_at(9), TopicSource::RustProgrammingLanguage);
    let topics = vec![
        Topic { topic: "a".to_string(), source: "s".to_string(), min_level: 1 },
        Topic { topic: "b".to_string(), source: "s".to_string(), min_level: 2 },
        Topic { topic: "c".to_string(), source: "s".to_string(), min_level: 3 },
    ];
    assert_eq!(topic_at(topics.clone(), 0).topic, "a");
    assert_eq!(topic_at(topics.clone(), 1).topic, "b");
    assert_eq!(topic_at(topics, 2).topic, "c");
}

#[test]
fn words_and_keywords() {
    assert_eq!(strings(split_words(&chars("  The  quick\tbrown\nfox "))), vec![
        "The", "quick", "brown", "fox"
    ]);
    assert_eq!(split_words(&chars("")).len(), 0);
    assert_eq!(split_words(&chars(" \u{a0}\u{3000} ")).len(), 0);
    assert_eq!(strings(topic_keywords(&chars("Rust and the Borrow checker for rust fans"))), vec![
        "Borrow", "checker", "fans"
    ]);
    assert_eq!(strings(topic_keywords(&chars("äö Rüst"))), vec!["äö", "Rüst"]);
    assert_eq!(topic_keywords(&chars("The and for")).len(), 0);
    assert!(longer_than(&chars("abcd"), 3));
    assert!(!longer_than(&chars("abc"), 3));
    assert!(longer_than(&chars("äö"), 3));
    assert!(!longer_than(&chars("€"), 3));
    assert!(longer_than(&chars("😀"), 3));
    assert!(longer_than(&chars("a"), 0));
    assert!(!longer_than(&chars(""), 0));
}

#[test]
fn further_reading_on_a_topic() {
    let resources =
        generate_additional_resources("Library: serde", &all_shown()).expect("further reading");
    assert_eq!(resources.official_docs.len(), 5);
    assert_eq!(resources.official_docs[0].title, "Rust Standard Library Documentation");
    assert_eq!(resources.official_docs[2].url, "https://doc.rust-lang.org/rust-by-example/");
    assert_eq!(resources.official_docs[3].title, "Rust Documentation Search: Library:");
    assert_eq!(resources.official_docs[3].url, "https://doc.rust-lang.org/std/?search=Library:");
    assert_eq!(
        resources.official_docs[4].description,
        "Search results for 'serde' in the Rust documentation"
    );
    assert_eq!(resources.community_resources.len(), 4);
    assert_eq!(resources.community_resources[1].title, "Rust Subreddit");
    assert_eq!(resources.community_resources[3].title, "Stack Overflow: Rust + serde");
    assert_eq!(
        resources.community_resources[3].url,
        "https://stackoverflow.com/questions/tagged/rust+serde"
    );
    assert_eq!(
        resources.community_resources[3].description,
        "Stack Overflow questions about Rust and serde"
    );
    assert_eq!(resources.crates_io.len(), 3);
    assert_eq!(resources.crates_io[0].url, "https://crates.io/");
    assert_eq!(resources.crates_io[2].title, "Crates.io Search: serde");
    assert_eq!(resources.crates_io[2].url, "https://crates.io/search?q=serde");
    assert_eq!(resources.crates_io[2].description, "Rust packages related to serde");
    assert_eq!(resources.github_repos.len(), 3);
    assert_eq!(resources.github_repos[0].title, "Rust Language GitHub Repository");
    assert_eq!(resources.github_repos[2].title, "GitHub: Rust + serde");
    assert_eq!(resources.github_repos[2].url, "https://github.com/search?q=language:rust+serde");
    assert_eq!(
        resources.github_repos[2].description,
        "GitHub repositories related to Rust and serde"
    );
}

#[test]
fn kinds_that_are_switched_off_stay_empty() {
    let shown = LearningResources {
        show_official_docs: false,
        show_community_resources: false,
        show_crates_io: true,
        show_github_repos: false,
    };
    let resources = generate_additional_resources("Closures", &shown).expect("further reading");
    assert_eq!(resources.official_docs.len(), 0);
    assert_eq!(resources.community_resources.len(), 0);
    assert_eq!(resources.crates_io.len(), 2);
    assert_eq!(resources.github_repos.len(), 0);
}

#[test]
fn no_further_reading() {
    assert!(generate_additional_resources("Error Generating Content", &all_shown()).is_none());
    assert!(generate_additional_resources("the Rust way", &all_shown()).is_none());
    assert!(generate_additional_resources("", &all_shown()).is_none());
    let hidden = LearningResources {
        show_official_docs: false,
        show_community_resources: false,
        show_crates_io: false,
        show_github_repos: false,
    };
    assert!(generate_additional_resources("Closures", &hidden).is_none());
}
