//! The background worker as a state machine. The worker itself does nothing
//! to the outside world: each step names the one thing to do next, and the
//! caller does it and reports back what came of it.

use crate::keys::{
    auto_insert_strokes, insertion_of, select_word_strokes, strokes_view, word_selection,
    KeyStroke, StrokeView,
};
use crate::request::{
    build_request, header_text_allowed, request_for, trial_request, RequestView,
    TranslationRequest, TRIAL_WORD,
};
use crate::translation::{
    get_translation, is_api_key_valid, key_accepted, outcome_of, shown_text, Exchange,
    ExchangeView, FAILURE_TEXT,
};
use vstd::prelude::*;
use vstd::string::*;

verus! {

/// How long the worker rests between two rounds, in milliseconds.
pub const TICK_MILLIS: u64 = 10;

/// What the user has chosen.
#[derive(Debug, Clone, Copy, PartialEq, Eq, Structural)]
pub struct Preferences {
    /// Write each translation behind its word.
    pub auto_translation: bool,
    /// Translate when the mouse button is let go.
    pub click_translation: bool,
}

impl Default for Preferences {
    /// Both preferences are off until the user turns them on.
    fn default() -> (preferences: Preferences)
        ensures
            preferences == (Preferences { auto_translation: false, click_translation: false }),
    {
        Preferences { auto_translation: false, click_translation: false }
    }
}

/// Where a request to translate came from.
#[derive(Debug, Clone, Copy, PartialEq, Eq, Structural)]
pub enum Origin {
    Mouse,
    Keyboard,
}

/// What the worker is waiting for.
#[derive(Debug, PartialEq, Eq)]
pub enum Phase {
    /// For the answer to the trial request.
    Validating,
    /// For nothing: the worker has ended.
    Stopped,
    /// For a look at the queue of new preferences.
    PollingPreferences,
    /// For the look at the mouse queue that follows new preferences.
    DiscardingMouse,
    /// For a look at the mouse queue.
    PollingMouse,
    /// For a look at the keyboard queue.
    PollingKeyboard,
    /// For the word at the cursor.
    Capturing(Origin),
    /// For the answer to a translation request.
    Translating(Origin),
    /// For the text to be typed; the text is published after that.
    Inserting(Origin, String),
    /// For the text to be published.
    Publishing(Origin),
    /// For the rest between two rounds to end.
    Sleeping,
}

/// The mathematical value of a [`Phase`].
pub enum PhaseView {
    Validating,
    Stopped,
    PollingPreferences,
    DiscardingMouse,
    PollingMouse,
    PollingKeyboard,
    Capturing(Origin),
    Translating(Origin),
    Inserting(Origin, Seq<char>),
    Publishing(Origin),
    Sleeping,
}

impl View for Phase {
    type V = PhaseView;

    open spec fn view(&self) -> PhaseView {
        match self {
            Phase::Validating => PhaseView::Validating,
            Phase::Stopped => PhaseView::Stopped,
            Phase::PollingPreferences => PhaseView::PollingPreferences,
            Phase::DiscardingMouse => PhaseView::DiscardingMouse,
            Phase::PollingMouse => PhaseView::PollingMouse,
            Phase::PollingKeyboard => PhaseView::PollingKeyboard,
            Phase::Capturing(origin) => PhaseView::Capturing(*origin),
            Phase::Translating(origin) => PhaseView::Translating(*origin),
            Phase::Inserting(origin, text) => PhaseView::Inserting(*origin, text@),
            Phase::Publishing(origin) => PhaseView::Publishing(*origin),
            Phase::Sleeping => PhaseView::Sleeping,
        }
    }
}

/// What the caller reports back to the worker.
#[derive(Debug, PartialEq, Eq)]
pub enum Event {
    /// What became of the request that was to be sent.
    Exchanged(Exchange),
    /// What the queue of new preferences held, if anything.
    Preferences(Option<Preferences>),
    /// Whether the queue that was looked at held a trigger.
    Trigger(bool),
    /// The text that is selected now that the keystrokes are typed.
    Captured(String),
    /// The keystrokes are typed, the text is published, or the rest is over.
    Done,
}

/// The mathematical value of an [`Event`].
pub enum EventView {
    Exchanged(ExchangeView),
    Preferences(Option<Preferences>),
    Trigger(bool),
    Captured(Seq<char>),
    Done,
}

impl View for Event {
    type V = EventView;

    open spec fn view(&self) -> EventView {
        match self {
            Event::Exchanged(exchange) => EventView::Exchanged(exchange@),
            Event::Preferences(update) => EventView::Preferences(*update),
            Event::Trigger(pending) => EventView::Trigger(*pending),
            Event::Captured(word) => EventView::Captured(word@),
            Event::Done => EventView::Done,
        }
    }
}

/// What the worker asks its caller to do.
#[derive(Debug, PartialEq, Eq)]
pub enum Action {
    /// Send the request; report what became of it.
    Send(TranslationRequest),
    /// End the worker: its credential is not valid, or it was told what
    /// answers none of its actions.
    Halt,
    /// Take one item off the queue of new preferences, if it holds one.
    PollPreferences,
    /// Take one trigger off the mouse queue, if it holds one.
    PollMouse,
    /// Take one trigger off the keyboard queue, if it holds one.
    PollKeyboard,
    /// Type the keystrokes, then report the text that is selected.
    Capture(Vec<KeyStroke>),
    /// Type the keystrokes.
    Type(Vec<KeyStroke>),
    /// Hand the text to the window.
    Publish(String),
    /// Rest for so many milliseconds.
    Sleep(u64),
}

/// The mathematical value of an [`Action`].
pub enum ActionView {
    Send(RequestView),
    Halt,
    PollPreferences,
    PollMouse,
    PollKeyboard,
    Capture(Seq<StrokeView>),
    Type(Seq<StrokeView>),
    Publish(Seq<char>),
    Sleep(u64),
}

impl View for Action {
    type V = ActionView;

    open spec fn view(&self) -> ActionView {
        match self {
            Action::Send(request) => ActionView::Send(request@),
            Action::Halt => ActionView::Halt,
            Action::PollPreferences => ActionView::PollPreferences,
            Action::PollMouse => ActionView::PollMouse,
            Action::PollKeyboard => ActionView::PollKeyboard,
            Action::Capture(strokes) => ActionView::Capture(strokes_view(strokes@)),
            Action::Type(strokes) => ActionView::Type(strokes_view(strokes@)),
            Action::Publish(text) => ActionView::Publish(text@),
            Action::Sleep(millis) => ActionView::Sleep(*millis),
        }
    }
}

/// The state of the background worker.
#[derive(Debug)]
pub struct Worker {
    api_key: String,
    preferences: Preferences,
    phase: Phase,
}

/// The mathematical value of a [`Worker`].
pub struct WorkerView {
    pub api_key: Seq<char>,
    pub preferences: Preferences,
    pub phase: PhaseView,
}

impl View for Worker {
    type V = WorkerView;

    closed spec fn view(&self) -> WorkerView {
        WorkerView {
            api_key: self.api_key@,
            preferences: self.preferences,
            phase: self.phase@,
        }
    }
}

/// The worker ends.
pub open spec fn halted(worker: WorkerView) -> (WorkerView, ActionView) {
    (WorkerView { phase: PhaseView::Stopped, ..worker }, ActionView::Halt)
}

/// The worker goes on to wait in `phase`, and asks for `action`.
pub open spec fn moved(worker: WorkerView, phase: PhaseView, action: ActionView) -> (
    WorkerView,
    ActionView,
) {
    (WorkerView { phase, ..worker }, action)
}

/// A request to translate is taken up: the word at the cursor is asked for.
pub open spec fn taken_up(worker: WorkerView, origin: Origin) -> (WorkerView, ActionView) {
    moved(worker, PhaseView::Capturing(origin), ActionView::Capture(word_selection()))
}

/// A text is ready to be shown: it is typed first where the user chose so,
/// and published in either case.
pub open spec fn delivered(worker: WorkerView, origin: Origin, text: Seq<char>) -> (
    WorkerView,
    ActionView,
) {
    if worker.preferences.auto_translation {
        moved(worker, PhaseView::Inserting(origin, text), ActionView::Type(insertion_of(text)))
    } else {
        moved(worker, PhaseView::Publishing(origin), ActionView::Publish(text))
    }
}

/// A text has been published: the round goes on where it was left.
pub open spec fn resumed(worker: WorkerView, origin: Origin) -> (WorkerView, ActionView) {
    match origin {
        Origin::Mouse => moved(worker, PhaseView::PollingKeyboard, ActionView::PollKeyboard),
        Origin::Keyboard => moved(worker, PhaseView::Sleeping, ActionView::Sleep(TICK_MILLIS)),
    }
}

/// How a worker begins: with both preferences off, it tries its credential
/// out. A credential that cannot be sent ends it at once.
pub open spec fn initial(api_key: Seq<char>) -> (WorkerView, ActionView) {
    let worker = WorkerView {
        api_key,
        preferences: Preferences { auto_translation: false, click_translation: false },
        phase: PhaseView::Validating,
    };
    if header_text_allowed(api_key) {
        (worker, ActionView::Send(request_for(api_key, TRIAL_WORD@)))
    } else {
        halted(worker)
    }
}

/// What a worker does when it is told what came of its last action. A round
/// looks at the new preferences, at the mouse and at the keyboard, in that
/// order, and then rests. A report that does not answer the last action ends
/// the worker.
pub open spec fn next(worker: WorkerView, event: EventView) -> (WorkerView, ActionView) {
    match (worker.phase, event) {
        (PhaseView::Validating, EventView::Exchanged(exchange)) => if key_accepted(exchange) {
            moved(worker, PhaseView::PollingPreferences, ActionView::PollPreferences)
        } else {
            halted(worker)
        },
        (PhaseView::PollingPreferences, EventView::Preferences(Some(update))) => moved(
            WorkerView { preferences: update, ..worker },
            PhaseView::DiscardingMouse,
            ActionView::PollMouse,
        ),
        (PhaseView::PollingPreferences, EventView::Preferences(None)) => moved(
            worker,
            PhaseView::PollingMouse,
            ActionView::PollMouse,
        ),
        (PhaseView::DiscardingMouse, EventView::Trigger(_)) => moved(
            worker,
            PhaseView::PollingMouse,
            ActionView::PollMouse,
        ),
        (PhaseView::PollingMouse, EventView::Trigger(pending)) => if pending
            && worker.preferences.click_translation {
            taken_up(worker, Origin::Mouse)
        } else {
            moved(worker, PhaseView::PollingKeyboard, ActionView::PollKeyboard)
        },
        (PhaseView::PollingKeyboard, EventView::Trigger(pending)) => if pending {
            taken_up(worker, Origin::Keyboard)
        } else {
            moved(worker, PhaseView::Sleeping, ActionView::Sleep(TICK_MILLIS))
        },
        (PhaseView::Capturing(origin), EventView::Captured(word)) => if header_text_allowed(
            worker.api_key,
        ) {
            moved(
                worker,
                PhaseView::Translating(origin),
                ActionView::Send(request_for(worker.api_key, word)),
            )
        } else {
            delivered(worker, origin, FAILURE_TEXT@)
        },
        (PhaseView::Translating(origin), EventView::Exchanged(exchange)) => delivered(
            worker,
            origin,
            shown_text(outcome_of(exchange)),
        ),
        (PhaseView::Inserting(origin, text), EventView::Done) => moved(
            worker,
            PhaseView::Publishing(origin),
            ActionView::Publish(text),
        ),
        (PhaseView::Publishing(origin), EventView::Done) => resumed(worker, origin),
        (PhaseView::Sleeping, EventView::Done) => moved(
            worker,
            PhaseView::PollingPreferences,
            ActionView::PollPreferences,
        ),
        _ => halted(worker),
    }
}

/// The worker, and what it asks for, once it has begun under the credential
/// `api_key` and has been given `reports` one after the other.
pub open spec fn run(api_key: Seq<char>, reports: Seq<EventView>) -> (WorkerView, ActionView)
    decreases reports.len(),
{
    if reports.len() == 0 {
        initial(api_key)
    } else {
        next(run(api_key, reports.drop_last()).0, reports.last())
    }
}

/// Whether `action` is what a worker asks for while it waits as `worker`
/// does.
pub open spec fn asks(worker: WorkerView, action: ActionView) -> bool {
    match worker.phase {
        PhaseView::Validating => action == ActionView::Send(
            request_for(worker.api_key, TRIAL_WORD@),
        ),
        PhaseView::Stopped => action == ActionView::Halt,
        PhaseView::PollingPreferences => action == ActionView::PollPreferences,
        PhaseView::DiscardingMouse => action == ActionView::PollMouse,
        PhaseView::PollingMouse => action == ActionView::PollMouse,
        PhaseView::PollingKeyboard => action == ActionView::PollKeyboard,
        PhaseView::Capturing(_) => action == ActionView::Capture(word_selection()),
        PhaseView::Translating(_) => exists|word: Seq<char>|
            action == ActionView::Send(#[trigger] request_for(worker.api_key, word)),
        PhaseView::Inserting(_, text) => action == ActionView::Type(insertion_of(text)),
        PhaseView::Publishing(_) => action is Publish,
        PhaseView::Sleeping => action == ActionView::Sleep(TICK_MILLIS),
    }
}

impl Worker {
    /// Begins a worker that will translate under the credential `api_key`.
    pub fn start(api_key: String) -> (started: (Worker, Action))
        ensures
            (started.0@, started.1@) == initial(api_key@),
    {
        let request = trial_request(api_key.as_str());
        let preferences = Preferences { auto_translation: false, click_translation: false };
        match request {
            Some(request) => (
                Worker { api_key, preferences, phase: Phase::Validating },
                Action::Send(request),
            ),
            None => (Worker { api_key, preferences, phase: Phase::Stopped }, Action::Halt),
        }
    }

    /// Takes the report of what came of the last action, and names the next.
    pub fn step(self, event: Event) -> (stepped: (Worker, Action))
        ensures
            (stepped.0@, stepped.1@) == next(self@, event@),
    {
        let Worker { api_key, preferences, phase } = self;
        match (phase, event) {
            (Phase::Validating, Event::Exchanged(exchange)) => {
                if is_api_key_valid(&exchange) {
                    (
                        Worker { api_key, preferences, phase: Phase::PollingPreferences },
                        Action::PollPreferences,
                    )
                } else {
                    (Worker { api_key, preferences, phase: Phase::Stopped }, Action::Halt)
                }
            },
            (Phase::PollingPreferences, Event::Preferences(Some(update))) => (
                Worker { api_key, preferences: update, phase: Phase::DiscardingMouse },
                Action::PollMouse,
            ),
            (Phase::PollingPreferences, Event::Preferences(None)) => (
                Worker { api_key, preferences, phase: Phase::PollingMouse },
                Action::PollMouse,
            ),
            (Phase::DiscardingMouse, Event::Trigger(_)) => (
                Worker { api_key, preferences, phase: Phase::PollingMouse },
                Action::PollMouse,
            ),
            (Phase::PollingMouse, Event::Trigger(pending)) => {
                if pending && preferences.click_translation {
                    Self::take_up(api_key, preferences, Origin::Mouse)
                } else {
                    (
                        Worker { api_key, preferences, phase: Phase::PollingKeyboard },
                        Action::PollKeyboard,
                    )
                }
            },
            (Phase::PollingKeyboard, Event::Trigger(pending)) => {
                if pending {
                    Self::take_up(api_key, preferences, Origin::Keyboard)
                } else {
                    (
                        Worker { api_key, preferences, phase: Phase::Sleeping },
                        Action::Sleep(TICK_MILLIS),
                    )
                }
            },
            (Phase::Capturing(origin), Event::Captured(word)) => {
                match build_request(api_key.as_str(), word.as_str()) {
                    Some(request) => (
                        Worker { api_key, preferences, phase: Phase::Translating(origin) },
                        Action::Send(request),
                    ),
                    None => {
                        let text = get_translation(&Exchange::Unsent);
                        Self::deliver(api_key, preferences, origin, text)
                    },
                }
            },
            (Phase::Translating(origin), Event::Exchanged(exchange)) => {
                let text = get_translation(&exchange);
                Self::deliver(api_key, preferences, origin, text)
            },
            (Phase::Inserting(origin, text), Event::Done) => (
                Worker { api_key, preferences, phase: Phase::Publishing(origin) },
                Action::Publish(text),
            ),
            (Phase::Publishing(origin), Event::Done) => match origin {
                Origin::Mouse => (
                    Worker { api_key, preferences, phase: Phase::PollingKeyboard },
                    Action::PollKeyboard,
                ),
                Origin::Keyboard => (
                    Worker { api_key, preferences, phase: Phase::Sleeping },
                    Action::Sleep(TICK_MILLIS),
                ),
            },
            (Phase::Sleeping, Event::Done) => (
                Worker { api_key, preferences, phase: Phase::PollingPreferences },
                Action::PollPreferences,
            ),
            _ => (Worker { api_key, preferences, phase: Phase::Stopped }, Action::Halt),
        }
    }

    fn take_up(api_key: String, preferences: Preferences, origin: Origin) -> (stepped: (
        Worker,
        Action,
    ))
        ensures
            (stepped.0@, stepped.1@) == taken_up(
                WorkerView { api_key: api_key@, preferences, phase: stepped.0@.phase },
                origin,
            ),
    {
        (
            Worker { api_key, preferences, phase: Phase::Capturing(origin) },
            Action::Capture(select_word_strokes()),
        )
    }

    fn deliver(api_key: String, preferences: Preferences, origin: Origin, text: String) -> (stepped:
        (Worker, Action))
        ensures
            (stepped.0@, stepped.1@) == delivered(
                WorkerView { api_key: api_key@, preferences, phase: stepped.0@.phase },
                origin,
                text@,
            ),
    {
        if preferences.auto_translation {
            let strokes = auto_insert_strokes(text.as_str());
            (
                Worker { api_key, preferences, phase: Phase::Inserting(origin, text) },
                Action::Type(strokes),
            )
        } else {
            (
                Worker { api_key, preferences, phase: Phase::Publishing(origin) },
                Action::Publish(text),
            )
        }
    }

    /// The preferences that the worker goes by.
    pub fn preferences(&self) -> (preferences: Preferences)
        ensures
            preferences == self@.preferences,
    {
        self.preferences
    }

    /// What the worker is waiting for.
    pub fn phase(&self) -> (phase: &Phase)
        ensures
            phase@ == self@.phase,
    {
        &self.phase
    }

    /// Whether the worker has ended.
    pub fn is_stopped(&self) -> (stopped: bool)
        ensures
            stopped == (self@.phase is Stopped),
    {
        match self.phase {
            Phase::Stopped => true,
            _ => false,
        }
    }
}

} // verus!
