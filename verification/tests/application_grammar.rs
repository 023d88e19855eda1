use rust_mentor::question_generator::{features_of, parse_application_response};

fn chars(text: &str) -> Vec<char> {
    text.chars().collect()
}

#[test]
fn all_sections_of_an_application() {
    let text = "<<<application_name>>>\nTodo List\n<<<end>>>\n\n<<<application_description>>>\nKeeps track\nof tasks.\n<<<end>>>\n\n<<<application_features>>>\n- add tasks\n* remove tasks\nnot a feature\n  - indented\n<<<end>>>\n\n<<<code_snippet:Main Code>>>\n```rust\nfn main() {\n    println!(\"hi\");\n}\n```\n<<<end>>>\n\n<<<code_snippet:Additional Module 1>>>\npub fn add() {}\n<<<end>>>\n";
    let app = parse_application_response(text.to_string(), "lists");
    assert_eq!(app.name, "Todo List");
    assert_eq!(app.description, "Keeps track\nof tasks.");
    assert_eq!(app.features, vec!["add tasks", "remove tasks", "indented"]);
    assert_eq!(app.code_snippets.len(), 2);
    assert_eq!(app.code_snippets[0].title, "Main Code");
    assert_eq!(app.code_snippets[0].description, "");
    assert_eq!(app.code_snippets[0].code, "fn main() {\n    println!(\"hi\");\n}");
    assert_eq!(app.code_snippets[1].title, "Additional Module 1");
    assert_eq!(app.code_snippets[1].code, "pub fn add() {}");
}

#[test]
fn an_application_without_a_name_is_named_after_the_topic() {
    let app = parse_application_response("no markers at all".to_string(), "Traits");
    assert_eq!(app.name, "Rust Traits Application");
    assert_eq!(app.description, "");
    assert_eq!(app.features.len(), 0);
    assert_eq!(app.code_snippets.len(), 0);
}

#[test]
fn a_snippet_still_open_at_the_end_is_kept() {
    let app = parse_application_response("<<<code_snippet:Main>>>\nfn main() {}".to_string(), "t");
    assert_eq!(app.code_snippets.len(), 1);
    assert_eq!(app.code_snippets[0].title, "Main");
    assert_eq!(app.code_snippets[0].code, "fn main() {}");
}

#[test]
fn a_snippet_without_body_or_title_is_left_out() {
    let app = parse_application_response(
        "<<<code_snippet:Empty>>>\n<<<end>>>\n<<<code_snippet:>>>\nbody\n<<<end>>>\n".to_string(),
        "t",
    );
    assert_eq!(app.code_snippets.len(), 0);
}

#[test]
fn a_new_snippet_closes_the_one_before() {
    let app = parse_application_response(
        "<<<code_snippet:A>>>\na\n<<<code_snippet:B>>>\nb\n<<<end>>>\n".to_string(),
        "t",
    );
    assert_eq!(app.code_snippets.len(), 2);
    assert_eq!(app.code_snippets[0].title, "A");
    assert_eq!(app.code_snippets[0].code, "a");
    assert_eq!(app.code_snippets[1].title, "B");
}

#[test]
fn a_section_that_is_not_closed_gives_no_field() {
    let app = parse_application_response("<<<application_name>>>\nLost".to_string(), "x");
    assert_eq!(app.name, "Rust x Application");
}

#[test]
fn the_last_name_wins() {
    let app = parse_application_response(
        "<<<application_name>>>\nOne\n<<<end>>>\n<<<application_name>>>\nTwo\n<<<end>>>\n".to_string(),
        "x",
    );
    assert_eq!(app.name, "Two");
}

#[test]
fn features_are_the_list_items() {
    assert_eq!(features_of(&chars("- a\n-- b\n-* c\n*- d\nplain\n -  e  ")), vec![
        "a", "b", "c", "- d", "e"
    ]);
    assert_eq!(features_of(&chars("")).len(), 0);
    assert_eq!(features_of(&chars("-")), vec![""]);
}

#[test]
fn an_application_written_in_the_grammar_is_read_back() {
    let text = "<<<application_name>>>\nWord Count\n<<<end>>>\n<<<application_description>>>\nCounts words.\nFast.\n<<<end>>>\n<<<application_features>>>\n- reads files\n- \n- prints a table\n<<<end>>>\n<<<code_snippet: Main Code>>>\nfn main() {\n    run();\n}\n<<<end>>>\n<<<code_snippet: counting: the core>>>\npub fn run() {}\n<<<end>>>\n";
    let app = parse_application_response(text.to_string(), "any topic");
    assert_eq!(app.name, "Word Count");
    assert_eq!(app.description, "Counts words.\nFast.");
    assert_eq!(app.features, vec!["reads files", "", "prints a table"]);
    assert_eq!(app.code_snippets.len(), 2);
    assert_eq!(app.code_snippets[0].title, "Main Code");
    assert_eq!(app.code_snippets[0].description, "");
    assert_eq!(app.code_snippets[0].code, "fn main() {\n    run();\n}");
    assert_eq!(app.code_snippets[1].title, "counting: the core");
    assert_eq!(app.code_snippets[1].code, "pub fn run() {}");
}
