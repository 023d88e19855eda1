//! What holds of the session after every event.

use crate::app::{
    communication_error_module, is_pending_state, AppState, AppView, DeliveryView, EffectView,
    Key, OutcomeView, Step, COMMUNICATION_ERROR_TEXT, RETRY_HINT,
};
use crate::data::TopicView;
use crate::grammar_laws::lemma_questions_well_formed;
use crate::question_generator::{
    first_picked, lemma_first_picked, QuestionSetView, QuestionType, QuestionView,
};
use vstd::prelude::*;

verus! {

/// An answer that a key selects keeps a question within its invariant:
/// on a yes/no question it is one of the two canonical answers, on a
/// multiple-choice question it is the label of one of the options.
pub proof fn lemma_answer_keeps_question_well_formed(q: QuestionView, key: char)
    requires
        q.well_formed(),
    ensures
        q.after_key(key).well_formed(),
        q.after_key(key).options == q.options,
        q.after_key(key).kind == q.kind,
{
    match q.kind {
        QuestionType::Binary => {
            reveal_strlit("Yes");
            reveal_strlit("No");
        },
        QuestionType::Multiple => {
            lemma_first_picked(q.options, key);
            let k = first_picked(q.options, key);
            if 0 <= k < q.options.len() {
                assert(q.after_key(key).options[k].id == q.after_key(
                    key,
                ).selected_answer->Some_0);
            }
        },
    }
}

/// The quiz keeps its invariant when the answer that a key selects is
/// recorded on the question under the cursor.
pub proof fn lemma_answer_keeps_quiz_well_formed(set: QuestionSetView, key: char)
    requires
        set.well_formed(),
        set.cursor < set.questions.len(),
    ensures
        (QuestionSetView {
            questions: set.questions.update(
                set.cursor as int,
                set.questions[set.cursor as int].after_key(key),
            ),
            ..set
        }).well_formed(),
{
    let after = set.questions.update(
        set.cursor as int,
        set.questions[set.cursor as int].after_key(key),
    );
    lemma_answer_keeps_question_well_formed(set.questions[set.cursor as int], key);
    assert forall|i: int| 0 <= i < after.len() implies #[trigger] after[i].well_formed() by {
        if i != set.cursor {
            assert(after[i] == set.questions[i]);
        }
    }
}

/// A key on the help, on the question whether to quit, or of those that
/// every screen shares keeps the session within its invariant.
proof fn lemma_overlay_key_keeps_well_formed(app: AppView, key: Key)
    requires
        app.well_formed(),
    ensures
        app.after_help_key(key).well_formed(),
        app.after_quit_key(key).well_formed(),
        app.after_global_key(key).well_formed(),
{
}

/// A key on the welcome screen keeps the session within its invariant.
proof fn lemma_welcome_key_keeps_well_formed(app: AppView, key: Key)
    requires
        app.well_formed(),
        app.current_state == AppState::Welcome,
    ensures
        app.after_welcome_key(key).well_formed(),
{
}

/// A key on the list of indexes keeps the session within its invariant.
proof fn lemma_index_key_keeps_well_formed(app: AppView, key: Key, now: u64)
    requires
        app.well_formed(),
        app.current_state == AppState::IndexSelection,
    ensures
        app.after_index_key(key, now).app.well_formed(),
{
}

/// A key on the learning screen keeps the session within its invariant.
proof fn lemma_learning_key_keeps_well_formed(app: AppView, key: Key)
    requires
        app.well_formed(),
        app.current_state == AppState::Learning,
    ensures
        app.after_learning_key(key).app.well_formed(),
{
}

/// A key on the settings keeps the session within its invariant.
proof fn lemma_settings_key_keeps_well_formed(app: AppView, key: Key)
    requires
        app.well_formed(),
        app.current_state == AppState::Settings,
    ensures
        app.after_settings_key(key).app.well_formed(),
{
}

/// A key on the quiz keeps the session within its invariant.
proof fn lemma_quiz_key_keeps_well_formed(app: AppView, key: Key)
    requires
        app.well_formed(),
        app.current_state == AppState::QuestionAnswering,
    ensures
        app.after_quiz_key(key).app.well_formed(),
{
    let set = app.question_set.unwrap();
    match key {
        Key::Char(c) => {
            if set.cursor < set.questions.len() {
                lemma_answer_keeps_quiz_well_formed(set, c);
            }
        },
        _ => {},
    }
}

/// A key on the generated application keeps the session within its
/// invariant.
proof fn lemma_application_key_keeps_well_formed(app: AppView, key: Key)
    requires
        app.well_formed(),
        app.current_state == AppState::ApplicationDisplay,
    ensures
        app.after_application_key(key).app.well_formed(),
{
}

/// A key keeps the session within its invariant. In particular the quiz
/// cursor never leaves the questions, and the screen that awaits an
/// application is entered only with every question answered.
pub proof fn lemma_key_keeps_well_formed(app: AppView, key: Key, now: u64)
    requires
        app.well_formed(),
    ensures
        app.after_key(key, now).app.well_formed(),
{
    lemma_overlay_key_keeps_well_formed(app, key);
    if !app.show_help && !app.show_quit_confirmation {
        let shared = app.after_global_key(key);
        match shared.current_state {
            AppState::Welcome => lemma_welcome_key_keeps_well_formed(shared, key),
            AppState::IndexSelection => lemma_index_key_keeps_well_formed(shared, key, now),
            AppState::Learning => lemma_learning_key_keeps_well_formed(shared, key),
            AppState::Settings => lemma_settings_key_keeps_well_formed(shared, key),
            AppState::QuestionAnswering => lemma_quiz_key_keeps_well_formed(shared, key),
            AppState::ApplicationDisplay => lemma_application_key_keeps_well_formed(shared, key),
            _ => {},
        }
    }
}

/// A tick keeps the session within its invariant.
pub proof fn lemma_tick_keeps_well_formed(app: AppView, now: u64, delivery: Option<DeliveryView>)
    requires
        app.well_formed(),
    ensures
        app.after_tick(now, delivery).app.well_formed(),
{
    let timed = app.after_clock(now);
    assert(timed.well_formed());
    match delivery {
        Some(d) => {
            if timed.pending_request == Some(d.request) {
                match d.outcome {
                    OutcomeView::Arrived(text) => {
                        lemma_questions_well_formed(text);
                    },
                    _ => {},
                }
            }
        },
        None => {},
    }
}

/// A topic that is supplied keeps the session within its invariant.
pub proof fn lemma_topic_keeps_well_formed(app: AppView, supplied: Result<TopicView, Seq<char>>)
    requires
        app.well_formed(),
    ensures
        app.after_topic(supplied).app.well_formed(),
{
}

/// The news of the written files keeps the session within its invariant.
pub proof fn lemma_project_keeps_well_formed(app: AppView, created: bool)
    requires
        app.well_formed(),
    ensures
        app.after_project(created).well_formed(),
{
}

/// What is drained for another request than the one in flight changes
/// nothing: a late answer to a request that was given up is dropped.
pub proof fn lemma_stale_delivery_is_dropped(app: AppView, delivery: DeliveryView)
    requires
        app.pending_request != Some(delivery.request),
    ensures
        app.after_delivery(Some(delivery)) == (Step { app, effect: EffectView::Nothing }),
{
}

/// Whatever is drained for the request in flight ends the waiting: the
/// session leaves the screen that awaits a request, nothing is in flight
/// any more, and the screen it shows has its record: the learning screen
/// a module, the quiz a quiz, the application screen an application.
pub proof fn lemma_delivery_ends_waiting(app: AppView, delivery: DeliveryView)
    requires
        app.well_formed(),
        app.pending_request == Some(delivery.request),
    ensures
        !is_pending_state(app.after_delivery(Some(delivery)).app.current_state),
        app.after_delivery(Some(delivery)).app.pending_request.is_none(),
        app.after_delivery(Some(delivery)).app.current_state == AppState::Learning
            ==> app.after_delivery(Some(delivery)).app.current_module.is_some(),
        app.after_delivery(Some(delivery)).app.current_state == AppState::QuestionAnswering
            ==> app.after_delivery(Some(delivery)).app.question_set.is_some(),
        app.after_delivery(Some(delivery)).app.current_state == AppState::ApplicationDisplay
            ==> app.after_delivery(Some(delivery)).app.generated_application.is_some(),
{
}

/// A channel that closes without a message while a module is awaited
/// leads to the learning screen, with a module that says that the service
/// could not be reached.
pub proof fn lemma_closed_channel_while_loading(app: AppView, delivery: DeliveryView)
    requires
        app.current_state == AppState::Loading,
        app.pending_request == Some(delivery.request),
        delivery.outcome == OutcomeView::Closed,
    ensures
        app.after_delivery(Some(delivery)).app.current_state == AppState::Learning,
        app.after_delivery(Some(delivery)).app.current_module == Some(
            communication_error_module(),
        ),
        communication_error_module().explanation == COMMUNICATION_ERROR_TEXT@ + RETRY_HINT@,
        communication_error_module().explanation.len() > 0,
{
    reveal_strlit("There was an error communicating with the content generation service.");
}

/// A new request takes the place of the one before: once a key has sent a
/// request out, what is drained under any other number, such as a late
/// answer to the request before, changes nothing.
pub proof fn lemma_new_request_supersedes(app: AppView, key: Key, now: u64, late: DeliveryView)
    requires
        app.after_key(key, now).effect matches EffectView::Submit { request, .. } && request
            != late.request,
        app.well_formed(),
    ensures
        app.after_key(key, now).app.after_delivery(Some(late)) == (Step {
            app: app.after_key(key, now).app,
            effect: EffectView::Nothing,
        }),
{
    lemma_submitted_request_is_awaited(app, key, now);
}

/// A request goes out only together with its number being stored: after
/// every key, what the caller is told to submit is the request that the
/// session then awaits, on a screen that awaits one.
pub proof fn lemma_submitted_request_is_awaited(app: AppView, key: Key, now: u64)
    requires
        app.well_formed(),
    ensures
        app.after_key(key, now).effect matches EffectView::Submit { request, .. } ==> {
            &&& app.after_key(key, now).app.pending_request == Some(request)
            &&& is_pending_state(app.after_key(key, now).app.current_state)
            &&& request == app.next_request
        },
{
}

} // verus!
