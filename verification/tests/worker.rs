use ubersetzer::keys::{auto_insert_strokes, select_word_strokes, Key, KeyStroke};
use ubersetzer::request::{build_request, trial_request};
use ubersetzer::translation::{Exchange, FAILURE_TEXT};
use ubersetzer::worker::{Action, Event, Origin, Phase, Preferences, Worker, TICK_MILLIS};

const HOUSE: &str = r#"{"translations":[{"detected_source_language":"DE","text":"house"}]}"#;

fn answered(status: u16, body: &str) -> Event {
    Event::Exchanged(Exchange::Answered { status, body: body.to_string() })
}

fn preferences(auto_translation: bool, click_translation: bool) -> Preferences {
    Preferences { auto_translation, click_translation }
}

/// A worker whose credential is accepted, at the start of its first round.
fn ready() -> Worker {
    let (worker, action) = Worker::start("secret".to_string());
    assert_eq!(action, Action::Send(trial_request("secret").expect("a request")));
    let (worker, action) = worker.step(answered(200, ""));
    assert_eq!(action, Action::PollPreferences);
    worker
}

/// A worker that has adopted `chosen` and is about to look at the mouse queue.
fn at_mouse(chosen: Preferences) -> Worker {
    let (worker, action) = ready().step(Event::Preferences(Some(chosen)));
    assert_eq!(action, Action::PollMouse);
    let (worker, action) = worker.step(Event::Trigger(false));
    assert_eq!(action, Action::PollMouse);
    assert_eq!(worker.preferences(), chosen);
    worker
}

/// A worker that has adopted `chosen` and is about to look at the keyboard queue.
fn at_keyboard(chosen: Preferences) -> Worker {
    let (worker, action) = at_mouse(chosen).step(Event::Trigger(false));
    assert_eq!(action, Action::PollKeyboard);
    worker
}

#[test]
fn tick_is_ten_milliseconds() {
    assert_eq!(TICK_MILLIS, 10);
}

#[test]
fn worker_begins_with_both_preferences_off() {
    let (worker, _) = Worker::start("secret".to_string());
    assert_eq!(worker.preferences(), preferences(false, false));
    assert_eq!(worker.phase(), &Phase::Validating);
    assert!(!worker.is_stopped());
    assert_eq!(ready().preferences(), preferences(false, false));
}

#[test]
fn worker_ends_on_a_credential_that_cannot_be_sent() {
    let (worker, action) = Worker::start("bad\nkey".to_string());
    assert_eq!(action, Action::Halt);
    assert!(worker.is_stopped());
}

#[test]
fn worker_ends_on_a_credential_that_is_refused() {
    for event in [
        answered(403, ""),
        answered(199, HOUSE),
        answered(300, HOUSE),
        Event::Exchanged(Exchange::Lost),
        Event::Exchanged(Exchange::Unsent),
    ] {
        let (worker, _) = Worker::start("secret".to_string());
        let (worker, action) = worker.step(event);
        assert_eq!(action, Action::Halt);
        assert!(worker.is_stopped());
    }
}

#[test]
fn worker_that_has_ended_stays_so() {
    let (worker, _) = Worker::start("bad\nkey".to_string());
    let (worker, action) = worker.step(Event::Done);
    assert_eq!(action, Action::Halt);
    let (worker, action) = worker.step(Event::Trigger(true));
    assert_eq!(action, Action::Halt);
    assert!(worker.is_stopped());
}

#[test]
fn report_that_answers_nothing_ends_the_worker() {
    let (worker, action) = ready().step(Event::Trigger(true));
    assert_eq!(action, Action::Halt);
    assert!(worker.is_stopped());
    let (worker, action) = at_mouse(preferences(true, true)).step(Event::Done);
    assert_eq!(action, Action::Halt);
    assert!(worker.is_stopped());
}

#[test]
fn idle_round_looks_at_each_queue_and_rests() {
    let (worker, action) = ready().step(Event::Preferences(None));
    assert_eq!(action, Action::PollMouse);
    assert_eq!(worker.phase(), &Phase::PollingMouse);
    let (worker, action) = worker.step(Event::Trigger(false));
    assert_eq!(action, Action::PollKeyboard);
    let (worker, action) = worker.step(Event::Trigger(false));
    assert_eq!(action, Action::Sleep(10));
    assert_eq!(worker.phase(), &Phase::Sleeping);
    let (worker, action) = worker.step(Event::Done);
    assert_eq!(action, Action::PollPreferences);
    assert_eq!(worker.phase(), &Phase::PollingPreferences);
}

#[test]
fn click_is_translated_and_published_without_typing() {
    let worker = at_mouse(preferences(false, true));
    let (worker, action) = worker.step(Event::Trigger(true));
    assert_eq!(action, Action::Capture(select_word_strokes()));
    assert_eq!(worker.phase(), &Phase::Capturing(Origin::Mouse));
    let (worker, action) = worker.step(Event::Captured("Haus".to_string()));
    assert_eq!(action, Action::Send(build_request("secret", "Haus").expect("a request")));
    let (worker, action) = worker.step(answered(200, HOUSE));
    assert_eq!(action, Action::Publish("house".to_string()));
    assert_eq!(worker.phase(), &Phase::Publishing(Origin::Mouse));
    let (worker, action) = worker.step(Event::Done);
    assert_eq!(action, Action::PollKeyboard);
    let (_, action) = worker.step(Event::Trigger(false));
    assert_eq!(action, Action::Sleep(10));
}

#[test]
fn click_is_passed_over_when_clicks_are_off() {
    for auto_translation in [false, true] {
        let worker = at_mouse(preferences(auto_translation, false));
        let (worker, action) = worker.step(Event::Trigger(true));
        assert_eq!(action, Action::PollKeyboard);
        assert_eq!(worker.phase(), &Phase::PollingKeyboard);
        let (_, action) = worker.step(Event::Trigger(false));
        assert_eq!(action, Action::Sleep(10));
    }
}

#[test]
fn hotkey_is_translated_whatever_the_preferences() {
    for auto_translation in [false, true] {
        for click_translation in [false, true] {
            let worker = at_keyboard(preferences(auto_translation, click_translation));
            let (worker, action) = worker.step(Event::Trigger(true));
            assert_eq!(action, Action::Capture(select_word_strokes()));
            let (worker, action) = worker.step(Event::Captured("Haus".to_string()));
            assert_eq!(action, Action::Send(build_request("secret", "Haus").expect("a request")));
            let (worker, action) = worker.step(answered(200, HOUSE));
            let worker = if auto_translation {
                assert_eq!(action, Action::Type(auto_insert_strokes("house")));
                let (worker, action) = worker.step(Event::Done);
                assert_eq!(action, Action::Publish("house".to_string()));
                worker
            } else {
                assert_eq!(action, Action::Publish("house".to_string()));
                worker
            };
            let (worker, action) = worker.step(Event::Done);
            assert_eq!(action, Action::Sleep(10));
            assert_eq!(worker.preferences(), preferences(auto_translation, click_translation));
        }
    }
}

#[test]
fn translation_is_typed_in_brackets_before_it_is_published() {
    let worker = at_mouse(preferences(true, true));
    let (worker, _) = worker.step(Event::Trigger(true));
    let (worker, _) = worker.step(Event::Captured("Haus".to_string()));
    let (worker, action) = worker.step(answered(200, HOUSE));
    assert_eq!(
        action,
        Action::Type(vec![
            KeyStroke::Click(Key::RightArrow),
            KeyStroke::Sequence("(house)".to_string()),
        ])
    );
    assert_eq!(worker.phase(), &Phase::Inserting(Origin::Mouse, "house".to_string()));
    let (worker, action) = worker.step(Event::Done);
    assert_eq!(action, Action::Publish("house".to_string()));
    let (_, action) = worker.step(Event::Done);
    assert_eq!(action, Action::PollKeyboard);
}

#[test]
fn failure_is_published_as_the_failure_text() {
    for event in [
        Event::Exchanged(Exchange::Lost),
        answered(500, HOUSE),
        answered(200, "no json"),
        answered(200, r#"{"translations": []}"#),
    ] {
        let worker = at_keyboard(preferences(false, false));
        let (worker, _) = worker.step(Event::Trigger(true));
        let (worker, _) = worker.step(Event::Captured("Haus".to_string()));
        let (_, action) = worker.step(event);
        assert_eq!(action, Action::Publish(FAILURE_TEXT.to_string()));
    }
}

#[test]
fn failure_text_is_typed_too_where_typing_is_on() {
    let worker = at_keyboard(preferences(true, false));
    let (worker, _) = worker.step(Event::Trigger(true));
    let (worker, _) = worker.step(Event::Captured("Haus".to_string()));
    let (_, action) = worker.step(Event::Exchanged(Exchange::Lost));
    assert_eq!(action, Action::Type(auto_insert_strokes(FAILURE_TEXT)));
}

#[test]
fn empty_selection_is_sent_as_it_is() {
    let worker = at_keyboard(preferences(false, false));
    let (worker, _) = worker.step(Event::Trigger(true));
    let (_, action) = worker.step(Event::Captured(String::new()));
    assert_eq!(action, Action::Send(build_request("secret", "").expect("a request")));
}

#[test]
fn new_preferences_discard_the_pending_click() {
    let worker = at_keyboard(preferences(false, true));
    let (worker, _) = worker.step(Event::Trigger(false));
    let (worker, action) = worker.step(Event::Done);
    assert_eq!(action, Action::PollPreferences);
    let (worker, action) = worker.step(Event::Preferences(Some(preferences(true, true))));
    assert_eq!(action, Action::PollMouse);
    assert_eq!(worker.phase(), &Phase::DiscardingMouse);
    assert_eq!(worker.preferences(), preferences(true, true));
    let (worker, action) = worker.step(Event::Trigger(true));
    assert_eq!(action, Action::PollMouse);
    assert_eq!(worker.phase(), &Phase::PollingMouse);
    let (worker, action) = worker.step(Event::Trigger(false));
    assert_eq!(action, Action::PollKeyboard);
    let (_, action) = worker.step(Event::Trigger(false));
    assert_eq!(action, Action::Sleep(10));
}

#[test]
fn second_pending_click_goes_by_the_new_preferences() {
    let (worker, _) = ready().step(Event::Preferences(Some(preferences(true, true))));
    let (worker, _) = worker.step(Event::Trigger(true));
    let (worker, action) = worker.step(Event::Trigger(true));
    assert_eq!(action, Action::Capture(select_word_strokes()));
    let (worker, _) = worker.step(Event::Captured("Haus".to_string()));
    let (_, action) = worker.step(answered(200, HOUSE));
    assert_eq!(action, Action::Type(auto_insert_strokes("house")));

    let (worker, _) = ready().step(Event::Preferences(Some(preferences(true, false))));
    let (worker, _) = worker.step(Event::Trigger(true));
    let (_, action) = worker.step(Event::Trigger(true));
    assert_eq!(action, Action::PollKeyboard);
}

#[test]
fn click_and_hotkey_of_one_round_are_both_translated() {
    let worker = at_mouse(preferences(false, true));
    let (worker, _) = worker.step(Event::Trigger(true));
    let (worker, _) = worker.step(Event::Captured("Haus".to_string()));
    let (worker, _) = worker.step(answered(200, HOUSE));
    let (worker, action) = worker.step(Event::Done);
    assert_eq!(action, Action::PollKeyboard);
    let (worker, action) = worker.step(Event::Trigger(true));
    assert_eq!(action, Action::Capture(select_word_strokes()));
    assert_eq!(worker.phase(), &Phase::Capturing(Origin::Keyboard));
    let (worker, _) = worker.step(Event::Captured("Hund".to_string()));
    let body = r#"{"translations":[{"detected_source_language":"DE","text":"chien"}]}"#;
    let (worker, action) = worker.step(answered(200, body));
    assert_eq!(action, Action::Publish("chien".to_string()));
    let (_, action) = worker.step(Event::Done);
    assert_eq!(action, Action::Sleep(10));
}

#[test]
fn preferences_are_off_by_default() {
    assert_eq!(Preferences::default(), preferences(false, false));
}
