use rust_mentor::question_generator::{AnswerOption, Question, QuestionSet, QuestionType};

fn binary(id: usize, text: &str) -> Question {
    Question {
        id,
        text: text.to_string(),
        question_type: QuestionType::Binary,
        options: Vec::new(),
        selected_answer: None,
    }
}

fn multiple(id: usize, text: &str, labels: &[&str]) -> Question {
    Question {
        id,
        text: text.to_string(),
        question_type: QuestionType::Multiple,
        options: labels
            .iter()
            .map(|label| AnswerOption { id: label.to_string(), text: format!("option {}", label) })
            .collect(),
        selected_answer: None,
    }
}

fn three_questions() -> QuestionSet {
    QuestionSet::new(
        "topic".to_string(),
        vec![binary(0, "a"), multiple(1, "b", &["1", "2", "3", "4"]), multiple(2, "c", &["a", "B"])],
    )
}

#[test]
fn a_new_set_starts_at_the_first_question() {
    let set = three_questions();
    assert_eq!(set.topic, "topic");
    assert_eq!(set.current_question_index, 0);
    assert_eq!(set.current_question().map(|q| q.id), Some(0));
    assert!(!set.is_complete());
    assert_eq!(set.progress(), (0, 3));
}

#[test]
fn the_cursor_stays_within_the_questions() {
    let mut set = three_questions();
    assert!(set.previous_question().is_none());
    assert_eq!(set.current_question_index, 0);
    assert_eq!(set.next_question().map(|q| q.id), Some(1));
    assert_eq!(set.next_question().map(|q| q.id), Some(2));
    assert!(set.next_question().is_none());
    assert_eq!(set.current_question_index, 2);
    assert!(set.next_question().is_none());
    assert_eq!(set.current_question_index, 2);
    assert_eq!(set.previous_question().map(|q| q.id), Some(1));
    assert_eq!(set.previous_question().map(|q| q.id), Some(0));
    assert!(set.previous_question().is_none());
    assert_eq!(set.current_question_index, 0);
}

#[test]
fn an_empty_set_has_no_current_question_and_does_not_move() {
    let mut set = QuestionSet::new("t".to_string(), Vec::new());
    assert!(set.current_question().is_none());
    assert!(set.current_question_mut().is_none());
    assert!(set.next_question().is_none());
    assert!(set.previous_question().is_none());
    assert_eq!(set.current_question_index, 0);
    assert!(set.is_complete());
    assert_eq!(set.progress(), (0, 0));
    assert!(!set.answer_current('y'));
}

#[test]
fn binary_answers_are_the_two_canonical_ones() {
    let mut q = binary(0, "q");
    assert!(!q.select_answer('x'));
    assert!(q.selected_answer.is_none());
    assert!(q.select_answer('y'));
    assert_eq!(q.selected_answer.as_deref(), Some("Yes"));
    assert!(q.select_answer('N'));
    assert_eq!(q.selected_answer.as_deref(), Some("No"));
    assert!(q.select_answer('Y'));
    assert_eq!(q.selected_answer.as_deref(), Some("Yes"));
    assert!(q.select_answer('n'));
    assert_eq!(q.selected_answer.as_deref(), Some("No"));
    assert!(!q.select_answer('1'));
    assert_eq!(q.selected_answer.as_deref(), Some("No"));
}

#[test]
fn multiple_answers_are_labels_of_options() {
    let mut q = multiple(0, "q", &["a", "B", "3"]);
    assert!(!q.select_answer('c'));
    assert!(!q.select_answer('y'));
    assert!(q.selected_answer.is_none());
    assert!(q.select_answer('A'));
    assert_eq!(q.selected_answer.as_deref(), Some("a"));
    assert!(q.select_answer('b'));
    assert_eq!(q.selected_answer.as_deref(), Some("B"));
    assert!(q.select_answer('3'));
    assert_eq!(q.selected_answer.as_deref(), Some("3"));
    assert!(!q.select_answer('4'));
    assert_eq!(q.selected_answer.as_deref(), Some("3"));
}

#[test]
fn complete_means_every_question_has_a_non_empty_answer() {
    let mut set = three_questions();
    assert!(set.answer_current('y'));
    assert_eq!(set.progress(), (1, 3));
    assert!(!set.is_complete());
    set.next_question();
    assert!(set.answer_current('4'));
    set.next_question();
    assert!(!set.answer_current('z'));
    assert_eq!(set.progress(), (2, 3));
    assert!(!set.is_complete());
    assert!(set.answer_current('b'));
    assert_eq!(set.progress(), (3, 3));
    assert!(set.is_complete());
    assert_eq!(set.questions[0].selected_answer.as_deref(), Some("Yes"));
    assert_eq!(set.questions[1].selected_answer.as_deref(), Some("4"));
    assert_eq!(set.questions[2].selected_answer.as_deref(), Some("B"));
    set.questions[1].selected_answer = Some(String::new());
    assert!(!set.is_complete());
    assert_eq!(set.progress(), (2, 3));
    assert!(!set.questions[1].is_answered());
}

#[test]
fn the_current_question_can_be_changed_in_place() {
    let mut set = three_questions();
    set.next_question();
    if let Some(question) = set.current_question_mut() {
        question.text = "changed".to_string();
    }
    assert_eq!(set.questions[1].text, "changed");
    assert_eq!(set.questions[0].text, "a");
    assert_eq!(set.questions[2].text, "c");
    assert_eq!(set.current_question_index, 1);
}

#[test]
fn kinds_have_names() {
    assert_eq!(QuestionType::Binary.label(), "Yes/No");
    assert_eq!(QuestionType::Multiple.label(), "Multiple Choice");
}
