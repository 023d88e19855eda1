use rust_mentor::prompt_response::{CodeSnippet, Exercise, PromptResponse};

fn record() -> PromptResponse {
    PromptResponse {
        explanation: "Traits name behaviour.\nUse `impl` to give it.".to_string(),
        code_snippets: vec![
            CodeSnippet {
                title: "A trait: Shape".to_string(),
                description: "area of a shape".to_string(),
                code: "trait Shape {\n    fn area(&self) -> u32;\n}".to_string(),
            },
            CodeSnippet {
                title: "No description".to_string(),
                description: String::new(),
                code: "# exercise description: only a line of code here".to_string(),
            },
        ],
        exercises: vec![Exercise {
            name: "Write one".to_string(),
            description: "a trait of your own".to_string(),
            code: "// your code\nfn main() {}".to_string(),
        }],
    }
}

fn read(text: String) -> PromptResponse {
    PromptResponse::parse_response(text).expect("every text has a reading")
}

fn assert_same(a: &PromptResponse, b: &PromptResponse) {
    assert_eq!(a.explanation, b.explanation);
    assert_eq!(a.code_snippets.len(), b.code_snippets.len());
    for (x, y) in a.code_snippets.iter().zip(b.code_snippets.iter()) {
        assert_eq!(x.title, y.title);
        assert_eq!(x.description, y.description);
        assert_eq!(x.code, y.code);
    }
    assert_eq!(a.exercises.len(), b.exercises.len());
    for (x, y) in a.exercises.iter().zip(b.exercises.iter()) {
        assert_eq!(x.name, y.name);
        assert_eq!(x.description, y.description);
        assert_eq!(x.code, y.code);
    }
}

#[test]
fn a_record_is_written_in_the_grammar() {
    assert_eq!(
        record().to_grammar_text(),
        "<<<explanation:>>>\nTraits name behaviour.\nUse `impl` to give it.\n<<<code_snippet 1: A trait: Shape>>>\n# code snippet: area of a shape\ntrait Shape {\n    fn area(&self) -> u32;\n}\n<<<code_snippet 2: No description>>>\n# exercise description: only a line of code here\n<<<exercise 1: Write one>>>\n# exercise description: a trait of your own\n// your code\nfn main() {}\n"
    );
    let empty =
        PromptResponse { explanation: String::new(), code_snippets: Vec::new(), exercises: Vec::new() };
    assert_eq!(empty.to_grammar_text(), "<<<explanation:>>>\n");
}

#[test]
fn what_is_written_is_read_back() {
    let written = record();
    let back = read(written.to_grammar_text());
    assert_same(&written, &back);
    let again = read(back.to_grammar_text());
    assert_same(&written, &again);
}

#[test]
fn an_empty_record_is_read_back() {
    let empty =
        PromptResponse { explanation: String::new(), code_snippets: Vec::new(), exercises: Vec::new() };
    let back = read(empty.to_grammar_text());
    assert_same(&empty, &back);
}

#[test]
fn many_records_keep_their_order() {
    let mut written =
        PromptResponse { explanation: "e".to_string(), code_snippets: Vec::new(), exercises: Vec::new() };
    for i in 0..12 {
        written.code_snippets.push(CodeSnippet {
            title: format!("snippet {}", i),
            description: String::new(),
            code: format!("let x = {};", i),
        });
    }
    for i in 0..11 {
        written.exercises.push(Exercise {
            name: format!("exercise {}", i),
            description: format!("number {}", i),
            code: format!("let y = {};", i),
        });
    }
    let back = read(written.to_grammar_text());
    assert_eq!(back.code_snippets.len(), 12);
    assert_eq!(back.exercises.len(), 11);
    assert_same(&written, &back);
}

#[test]
fn what_the_grammar_cannot_carry_is_not_read_back() {
    let mut written = record();
    written.code_snippets[0].title = "ends with >".to_string();
    assert_eq!(read(written.to_grammar_text()).code_snippets[0].title, "ends with");
    let mut written = record();
    written.code_snippets[0].code = "a\n\nb".to_string();
    assert_eq!(read(written.to_grammar_text()).code_snippets[0].code, "a\nb");
    let mut written = record();
    written.exercises[0].code = "```rust\nfn main() {}\n```".to_string();
    assert_eq!(read(written.to_grammar_text()).exercises[0].code, "fn main() {}");
    let mut written = record();
    written.exercises[0].code = String::new();
    assert_eq!(read(written.to_grammar_text()).exercises.len(), 0);
}
