use rust_mentor::cargo_project::{
    application_directory_name, application_manifest_entries, application_project_files,
    application_readme, binary_manifest_entry,
    explanation_file_content, includes, module_directory_name, module_manifest_entries,
    module_project_files, place_of_snippet, project_package_name, project_slug,
    sanitize_filename, source_file, SnippetPlace,
};
use rust_mentor::learning_module::LearningModule;
use rust_mentor::prompt_response::{CodeSnippet, Exercise};
use rust_mentor::question_generator::GeneratedApplication;

fn chars(text: &str) -> Vec<char> {
    text.chars().collect()
}

fn module() -> LearningModule {
    LearningModule {
        topic: "Iterators".to_string(),
        explanation: "They yield items.".to_string(),
        code_snippets: vec![
            CodeSnippet {
                title: "Map And Filter".to_string(),
                description: "two adapters".to_string(),
                code: "fn main() {}".to_string(),
            },
            CodeSnippet {
                title: "2 loops".to_string(),
                description: String::new(),
                code: "loop {}".to_string(),
            },
        ],
        exercises: vec![Exercise {
            name: "Sum it".to_string(),
            description: "add up".to_string(),
            code: "fn sum() {}".to_string(),
        }],
        additional_resources: None,
    }
}

#[test]
fn file_names_are_lower_case_identifiers() {
    assert_eq!(sanitize_filename("Hello World!", 1), "hello_world_");
    assert_eq!(sanitize_filename("snake_case", 1), "snake_case");
    assert_eq!(sanitize_filename("ÜBER Größe", 1), "über_größe");
    assert_eq!(sanitize_filename("a-b.c", 3), "a_b_c");
}

#[test]
fn file_names_that_would_not_do_are_made_up() {
    assert_eq!(sanitize_filename("", 7), "exercise_7");
    assert_eq!(sanitize_filename("123abc", 2), "exercise_2");
    assert_eq!(sanitize_filename("٣ three", 12), "exercise_12");
    assert_eq!(sanitize_filename("_1", 0), "_1");
    assert_eq!(sanitize_filename("!", 4), "_");
}

#[test]
fn directory_names() {
    assert_eq!(project_slug("Tokio & Async I/O"), "tokio___async_i_o");
    assert_eq!(project_slug("under_score"), "under_score");
    assert_eq!(project_slug(""), "");
    assert_eq!(module_directory_name("Error Handling", 5, "2025-06-08"), "error_handling_5_2025-06-08");
    assert_eq!(module_directory_name("X", 10, "d"), "x_10_d");
    assert_eq!(application_directory_name("My App!", "2025-06-08"), "my_app__2025-06-08");
    assert_eq!(project_package_name("My Slug_x"), "my_slug_x");
}

#[test]
fn documents() {
    assert_eq!(explanation_file_content("T", "body\ntext"), "# T\n\nbody\ntext");
    let file = source_file("examples/", "name", "Title", "what it does", "fn main() {}");
    assert_eq!(file.path, "examples/name.rs");
    assert_eq!(file.content, "// Title\n// what it does\n\nfn main() {}");
    assert_eq!(
        binary_manifest_entry("sum_it"),
        "[[bin]]\nname = \"sum_it\"\npath = \"src/bin/sum_it.rs\"\n"
    );
}

#[test]
fn the_files_of_a_module() {
    let files = module_project_files(&module());
    assert_eq!(files.len(), 5);
    assert_eq!(files[0].path, "README.md");
    assert_eq!(files[0].content, "# Iterators\n\nThey yield items.");
    assert_eq!(files[1].path, "docs/explanation.md");
    assert_eq!(files[1].content, files[0].content);
    assert_eq!(files[2].path, "examples/map_and_filter.rs");
    assert_eq!(files[2].content, "// Map And Filter\n// two adapters\n\nfn main() {}");
    assert_eq!(files[3].path, "examples/exercise_2.rs");
    assert_eq!(files[3].content, "// 2 loops\n// \n\nloop {}");
    assert_eq!(files[4].path, "src/bin/sum_it.rs");
    assert_eq!(files[4].content, "// Sum it\n// add up\n\nfn sum() {}");
}

#[test]
fn the_manifest_lists_the_exercises() {
    let m = module();
    assert_eq!(
        module_manifest_entries(&m.exercises),
        "\n[[bin]]\nname = \"sum_it\"\npath = \"src/bin/sum_it.rs\"\n\n"
    );
    assert_eq!(module_manifest_entries(&Vec::new()), "\n");
    let two = vec![
        Exercise { name: "A".to_string(), description: String::new(), code: String::new() },
        Exercise { name: "9".to_string(), description: String::new(), code: String::new() },
    ];
    assert_eq!(
        module_manifest_entries(&two),
        "\n[[bin]]\nname = \"a\"\npath = \"src/bin/a.rs\"\n\n[[bin]]\nname = \"exercise_2\"\npath = \"src/bin/exercise_2.rs\"\n\n"
    );
}

#[test]
fn where_the_code_of_an_application_goes() {
    assert!(matches!(place_of_snippet("Anything", 0), SnippetPlace::Main));
    assert!(matches!(place_of_snippet("The MAIN part", 3), SnippetPlace::Main));
    assert!(matches!(place_of_snippet("Library code", 1), SnippetPlace::Library));
    assert!(matches!(place_of_snippet("my LIB", 1), SnippetPlace::Library));
    match place_of_snippet("Helper Module", 2) {
        SnippetPlace::Binary(name) => assert_eq!(name, "helper_module"),
        _ => panic!("expected a further program"),
    }
    match place_of_snippet("42", 2) {
        SnippetPlace::Binary(name) => assert_eq!(name, "exercise_3"),
        _ => panic!("expected a further program"),
    }
}

#[test]
fn contains() {
    assert!(includes(&chars("the main thing"), "main"));
    assert!(includes(&chars("main"), "main"));
    assert!(!includes(&chars("mai"), "main"));
    assert!(!includes(&chars("Main"), "main"));
    assert!(includes(&chars(""), ""));
    assert!(includes(&chars("abc"), ""));
    assert!(includes(&chars("xxlib"), "lib"));
}

#[test]
fn the_description_of_an_application() {
    let mut app = GeneratedApplication {
        name: "Tool".to_string(),
        description: "Does things.".to_string(),
        features: vec!["fast".to_string(), "small".to_string(), "safe".to_string()],
        code_snippets: Vec::new(),
    };
    assert_eq!(
        application_readme(&app),
        "# Tool\n\nDoes things.\n\n## Features\n\n- fast\n- small\n- safe"
    );
    app.features.clear();
    assert_eq!(application_readme(&app), "# Tool\n\nDoes things.\n\n## Features\n\n");
    app.features.push("one".to_string());
    assert_eq!(application_readme(&app), "# Tool\n\nDoes things.\n\n## Features\n\n- one");
}

#[test]
fn the_files_of_an_application() {
    let snippet = |title: &str, code: &str| CodeSnippet {
        title: title.to_string(),
        description: String::new(),
        code: code.to_string(),
    };
    let app = GeneratedApplication {
        name: "Tool".to_string(),
        description: "Does things.".to_string(),
        features: vec!["fast".to_string()],
        code_snippets: vec![
            snippet("Entry", "fn main() {}"),
            snippet("Library part", "pub fn f() {}"),
            snippet("Helper Module", "fn helper() {}"),
            snippet("Second main", "fn main() { f() }"),
            snippet("7 wonders", "fn seven() {}"),
        ],
    };
    let files = application_project_files(&app);
    assert_eq!(files.len(), 6);
    assert_eq!(files[0].path, "README.md");
    assert_eq!(files[0].content, "# Tool\n\nDoes things.\n\n## Features\n\n- fast");
    assert_eq!(files[1].path, "src/main.rs");
    assert_eq!(files[1].content, "fn main() {}");
    assert_eq!(files[2].path, "src/lib.rs");
    assert_eq!(files[2].content, "pub fn f() {}");
    assert_eq!(files[3].path, "src/bin/helper_module.rs");
    assert_eq!(files[3].content, "fn helper() {}");
    assert_eq!(files[4].path, "src/main.rs");
    assert_eq!(files[4].content, "fn main() { f() }");
    assert_eq!(files[5].path, "src/bin/exercise_5.rs");
    assert_eq!(
        application_manifest_entries(&app),
        "\n[[bin]]\nname = \"helper_module\"\npath = \"src/bin/helper_module.rs\"\n\n[[bin]]\nname = \"exercise_5\"\npath = \"src/bin/exercise_5.rs\"\n"
    );
    let none = GeneratedApplication {
        name: "N".to_string(),
        description: String::new(),
        features: Vec::new(),
        code_snippets: Vec::new(),
    };
    assert_eq!(application_project_files(&none).len(), 1);
    assert_eq!(application_manifest_entries(&none), "");
}
