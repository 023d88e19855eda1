use rust_mentor::prompt_response::PromptResponse;

fn parse(text: &str) -> PromptResponse {
    PromptResponse::parse_response(text.to_string()).expect("every text has a reading")
}

#[test]
fn explanation_and_one_exercise() {
    let r = parse(
        "<<<explanation: X>>>\nHello\n<<<exercise 1: Ex>>>\n# exercise description: d\nfn main(){}\n",
    );
    assert_eq!(r.explanation, "Hello");
    assert_eq!(r.code_snippets.len(), 0);
    assert_eq!(r.exercises.len(), 1);
    assert_eq!(r.exercises[0].name, "Ex");
    assert_eq!(r.exercises[0].description, "d");
    assert_eq!(r.exercises[0].code, "fn main(){}");
}

#[test]
fn marker_without_body_is_left_out() {
    let r = parse("<<<code_snippet 1: Foo>>>");
    assert_eq!(r.code_snippets.len(), 0);
    assert_eq!(r.exercises.len(), 0);
    assert_eq!(r.explanation, "");
}

#[test]
fn snippets_and_exercises_keep_source_order() {
    let text = "<<<explanation: T>>>\nintro\nmore\n<<<code_snippet 1: A>>>\n# code snippet: first\nlet a = 1;\n    let b = 2;\n<<<code_snippet 2: B>>>\nlet c = 3;\n<<<exercise 1: E1>>>\n# exercise description: do it\nfn f() {}\n<<<exercise 2: E2>>>\nfn g() {}\n";
    let r = parse(text);
    assert_eq!(r.explanation, "intro\nmore");
    assert_eq!(r.code_snippets.len(), 2);
    assert_eq!(r.code_snippets[0].title, "A");
    assert_eq!(r.code_snippets[0].description, "first");
    assert_eq!(r.code_snippets[0].code, "let a = 1;\n    let b = 2;");
    assert_eq!(r.code_snippets[1].title, "B");
    assert_eq!(r.code_snippets[1].description, "");
    assert_eq!(r.code_snippets[1].code, "let c = 3;");
    assert_eq!(r.exercises.len(), 2);
    assert_eq!(r.exercises[0].name, "E1");
    assert_eq!(r.exercises[1].name, "E2");
    assert_eq!(r.exercises[1].code, "fn g() {}");
}

#[test]
fn fences_are_stripped_from_every_line() {
    let r = parse("<<<code_snippet 1: A>>>\n```rust\nlet a = 1;\n```\n");
    assert_eq!(r.code_snippets.len(), 1);
    assert_eq!(r.code_snippets[0].code, "let a = 1;");
}

#[test]
fn label_keeps_what_follows_the_first_colon() {
    let r = parse("<<<code_snippet 1: Foo: Bar>>>\nx\n");
    assert_eq!(r.code_snippets[0].title, "Foo: Bar");
}

#[test]
fn lines_before_the_first_marker_are_dropped() {
    let r = parse("preamble\n<<<explanation: T>>>\nbody\r\n");
    assert_eq!(r.explanation, "body");
}

#[test]
fn repeated_title_does_not_merge() {
    let r = parse("<<<code_snippet 1: A>>>\nx\n<<<code_snippet 2: A>>>\ny\n");
    assert_eq!(r.code_snippets.len(), 2);
    assert_eq!(r.code_snippets[0].code, "x");
    assert_eq!(r.code_snippets[1].code, "y");
}

#[test]
fn parsing_twice_gives_equal_records() {
    let text = "<<<explanation: T>>>\nintro\n<<<code_snippet 1: A>>>\nx\n";
    let a = parse(text);
    let b = parse(text);
    assert_eq!(a.explanation, b.explanation);
    assert_eq!(a.code_snippets.len(), b.code_snippets.len());
    assert_eq!(a.code_snippets[0].title, b.code_snippets[0].title);
    assert_eq!(a.code_snippets[0].code, b.code_snippets[0].code);
}
