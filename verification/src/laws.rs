//! What holds of the translator whatever it is given.

use crate::json::JsonValue;
use crate::keys::{insertion_of, word_selection};
use crate::request::{header_text_allowed, request_for};
use crate::translation::{
    is_success, key_accepted, outcome_of, outcome_of_document, shown_text, translations_of,
    ExchangeView, OutcomeView, TranslationView, FAILURE_TEXT,
};
use crate::worker::{
    asks, moved, next, run, taken_up, ActionView, EventView, Origin, PhaseView,
    Preferences, WorkerView,
};
use vstd::prelude::*;

verus! {

/// A credential is taken for valid only on an answer of success: not when
/// the request was not sent or was lost, and not on any other status.
pub proof fn lemma_only_success_validates(exchange: ExchangeView)
    ensures
        exchange is Unsent ==> !key_accepted(exchange),
        exchange is Lost ==> !key_accepted(exchange),
        exchange matches ExchangeView::Answered { status, .. } ==> (key_accepted(exchange)
            <==> 200 <= status < 300),
{
}

/// The same answer gives the same text, however often it is read.
pub proof fn lemma_same_answer_same_text(first: ExchangeView, second: ExchangeView)
    requires
        first == second,
    ensures
        shown_text(outcome_of(first)) == shown_text(outcome_of(second)),
{
}

/// An answer that holds an empty list of translations is no failure of the
/// reader: it is told apart as the empty result, and the failure text is
/// shown for it.
pub proof fn lemma_empty_list_is_empty_result(document: JsonValue)
    requires
        translations_of(document) == Some(Seq::<TranslationView>::empty()),
    ensures
        outcome_of_document(Some(document)) == OutcomeView::EmptyResult,
        shown_text(outcome_of_document(Some(document))) == FAILURE_TEXT@,
{
}

/// An answer with a status other than success shows the failure text,
/// whatever its body holds.
pub proof fn lemma_refusal_shows_failure_text(status: u16, body: Seq<char>)
    requires
        !is_success(status),
    ensures
        outcome_of(ExchangeView::Answered { status, body }) == OutcomeView::RequestFailed,
        shown_text(outcome_of(ExchangeView::Answered { status, body })) == FAILURE_TEXT@,
{
}

/// Keystrokes that write a translation are asked for only where the user
/// chose automatic translation.
pub proof fn lemma_typing_needs_permission(worker: WorkerView, event: EventView)
    ensures
        next(worker, event).1 is Type ==> worker.preferences.auto_translation,
{
}

/// A trigger from the mouse starts a translation exactly when the user chose
/// translation by click; otherwise the round goes on to the keyboard.
pub proof fn lemma_click_needs_permission(worker: WorkerView, pending: bool)
    requires
        worker.phase is PollingMouse,
    ensures
        pending && worker.preferences.click_translation ==> next(
            worker,
            EventView::Trigger(pending),
        ) == taken_up(worker, Origin::Mouse),
        !(pending && worker.preferences.click_translation) ==> next(
            worker,
            EventView::Trigger(pending),
        ) == moved(worker, PhaseView::PollingKeyboard, ActionView::PollKeyboard),
{
}

/// A trigger from the keyboard starts a translation whatever the user
/// chose.
pub proof fn lemma_hotkey_needs_no_permission(worker: WorkerView)
    requires
        worker.phase is PollingKeyboard,
    ensures
        next(worker, EventView::Trigger(true)) == taken_up(worker, Origin::Keyboard),
        next(worker, EventView::Trigger(true)).1 == ActionView::Capture(word_selection()),
{
}

/// A translation that has been taken up is carried through: the word is sent
/// off under the worker's credential, and the text for the answer is
/// published, after it has been typed where the user chose so. The round then
/// goes on where it was left.
pub proof fn lemma_cycle_publishes(
    worker: WorkerView,
    origin: Origin,
    word: Seq<char>,
    exchange: ExchangeView,
)
    requires
        worker.phase == PhaseView::Capturing(origin),
        header_text_allowed(worker.api_key),
    ensures
        ({
            let text = shown_text(outcome_of(exchange));
            let (sending, send) = next(worker, EventView::Captured(word));
            let (answered, after_answer) = next(sending, EventView::Exchanged(exchange));
            let (publishing, publish) = if worker.preferences.auto_translation {
                next(answered, EventView::Done)
            } else {
                (answered, after_answer)
            };
            &&& send == ActionView::Send(request_for(worker.api_key, word))
            &&& worker.preferences.auto_translation ==> after_answer == ActionView::Type(
                insertion_of(text),
            )
            &&& publish == ActionView::Publish(text)
            &&& publishing == WorkerView { phase: PhaseView::Publishing(origin), ..worker }
            &&& next(publishing, EventView::Done).0.phase == match origin {
                Origin::Mouse => PhaseView::PollingKeyboard,
                Origin::Keyboard => PhaseView::Sleeping,
            }
        }),
{
}

/// New preferences cost the mouse queue one trigger. The worker adopts the
/// preferences, and what it then takes off the mouse queue starts nothing,
/// whatever the old and the new preferences say: only the look at the queue
/// that follows can start a translation, and it goes by the new preferences.
pub proof fn lemma_update_discards_click(worker: WorkerView, update: Preferences, pending: bool)
    requires
        worker.phase is PollingPreferences,
    ensures
        ({
            let (adopted, first) = next(worker, EventView::Preferences(Some(update)));
            let (after, second) = next(adopted, EventView::Trigger(pending));
            &&& first == ActionView::PollMouse
            &&& second == ActionView::PollMouse
            &&& after == WorkerView {
                preferences: update,
                phase: PhaseView::PollingMouse,
                ..worker
            }
        }),
{
}

/// Without new preferences nothing is taken off the mouse queue but the one
/// trigger that the round looks for.
pub proof fn lemma_no_update_keeps_click(worker: WorkerView)
    requires
        worker.phase is PollingPreferences,
    ensures
        next(worker, EventView::Preferences(None)) == moved(
            worker,
            PhaseView::PollingMouse,
            ActionView::PollMouse,
        ),
{
}

/// A worker keeps the credential that it began with.
pub proof fn lemma_credential_is_kept(api_key: Seq<char>, reports: Seq<EventView>)
    ensures
        run(api_key, reports).0.api_key == api_key,
    decreases reports.len(),
{
    if reports.len() > 0 {
        lemma_credential_is_kept(api_key, reports.drop_last());
    }
}

/// A worker is at work only under a credential that the service has
/// accepted: whatever it has been told, it is past the trial and has not
/// ended only if the credential could be sent and the first report was an
/// answer of success to the trial request.
pub proof fn lemma_work_needs_valid_credential(api_key: Seq<char>, reports: Seq<EventView>)
    ensures
        ({
            let phase = run(api_key, reports).0.phase;
            &&& phase is Validating ==> reports.len() == 0 && header_text_allowed(api_key)
            &&& !(phase is Validating) && !(phase is Stopped) ==> {
                &&& header_text_allowed(api_key)
                &&& reports.len() > 0
                &&& reports[0] matches EventView::Exchanged(trial)
                &&& key_accepted(trial)
            }
        }),
    decreases reports.len(),
{
    if reports.len() > 0 {
        let before = reports.drop_last();
        lemma_work_needs_valid_credential(api_key, before);
        if before.len() > 0 {
            assert(before[0] == reports[0]);
        }
    }
}

/// What a worker asks for goes with what it waits for, whatever it has been
/// told. So every request that it sends is made of its own credential, and
/// it types nothing but the selection of a word and a text in brackets.
pub proof fn lemma_action_fits_phase(api_key: Seq<char>, reports: Seq<EventView>)
    ensures
        asks(run(api_key, reports).0, run(api_key, reports).1),
    decreases reports.len(),
{
    if reports.len() > 0 {
        lemma_step_fits(run(api_key, reports.drop_last()).0, reports.last());
    }
}

/// One step leaves the worker asking for what goes with what it waits for.
pub proof fn lemma_step_fits(worker: WorkerView, event: EventView)
    ensures
        asks(next(worker, event).0, next(worker, event).1),
{
    let (after, action) = next(worker, event);
    match (worker.phase, event) {
        (PhaseView::Capturing(_), EventView::Captured(word)) => {
            if header_text_allowed(worker.api_key) {
                assert(action == ActionView::Send(request_for(after.api_key, word)));
            }
        },
        _ => {},
    }
}

/// A worker that has ended stays so.
pub proof fn lemma_stopped_stays(worker: WorkerView, event: EventView)
    requires
        worker.phase is Stopped,
    ensures
        next(worker, event) == (worker, ActionView::Halt),
{
}

} // verus!
