//! The application shell's state machine. The surrounding process owns
//! the timer, the hotkey channel, the clipboard and the network; the
//! shell decides, for every event, what the process must do next and
//! how the enabled flag evolves.

use vstd::prelude::*;
use crate::shortcuts::ShortcutEvent;
use crate::text::{is_blank, spec_is_blank};

verus! {

/// The whole in-memory state of the shell: whether the shortcut is
/// enabled, and whether a rewriting client exists for this run.
#[derive(Debug, Clone, Copy, PartialEq, Eq)]
pub struct AppState {
    pub enabled: bool,
    pub openai_connected: bool,
}

impl AppState {
    /// The state at startup: the shortcut begins disabled, and the
    /// connection flag records whether a credential was resolved for
    /// this run.
    pub fn initial(openai_connected: bool) -> (s: AppState)
        ensures
            !s.enabled,
            s.openai_connected == openai_connected,
    {
        AppState { enabled: false, openai_connected }
    }
}

/// One occurrence the shell reacts to: a user action, a timer tick
/// with what one poll of the hotkey channel returned, or the outcome
/// of work the process performed on the shell's behalf.
#[derive(Debug, PartialEq, Eq)]
pub enum AppEvent {
    Enable,
    Disable,
    Quit,
    Tick(Option<ShortcutEvent>),
    ShortcutTriggered,
    Captured(Result<String, String>),
    TextImproved(Result<String, String>),
}

/// What the process around the shell must do next: nothing, terminate,
/// re-enter with `ShortcutTriggered`, read the selection, send the
/// text to the rewriting service, or write the result back.
#[derive(Debug, PartialEq, Eq)]
pub enum Action {
    Idle,
    Exit,
    Dispatch,
    Capture,
    Improve(String),
    Paste(String),
}

/// The state after one event: only Enable and Disable change it.
pub open spec fn spec_next_state(s: AppState, e: AppEvent) -> AppState {
    match e {
        AppEvent::Enable => AppState { enabled: true, openai_connected: s.openai_connected },
        AppEvent::Disable => AppState { enabled: false, openai_connected: s.openai_connected },
        _ => s,
    }
}

/// The action one event provokes. A pending hotkey event on a tick is
/// re-entered as `ShortcutTriggered`; a trigger starts a capture only
/// while enabled; captured text that is blank, unreadable, or arrives
/// without a client goes nowhere; improved text is always pasted.
pub open spec fn spec_action(s: AppState, e: AppEvent) -> Action {
    match e {
        AppEvent::Enable => Action::Idle,
        AppEvent::Disable => Action::Idle,
        AppEvent::Quit => Action::Exit,
        AppEvent::Tick(ev) => match ev {
            Option::Some(_) => Action::Dispatch,
            Option::None => Action::Idle,
        },
        AppEvent::ShortcutTriggered => if s.enabled {
            Action::Capture
        } else {
            Action::Idle
        },
        AppEvent::Captured(res) => match res {
            Result::Ok(t) => if spec_is_blank(t@) {
                Action::Idle
            } else if s.openai_connected {
                Action::Improve(t)
            } else {
                Action::Idle
            },
            Result::Err(_) => Action::Idle,
        },
        AppEvent::TextImproved(res) => match res {
            Result::Ok(t) => Action::Paste(t),
            Result::Err(_) => Action::Idle,
        },
    }
}

/// Drive the shell one step: fold `event` into the state and say what
/// the surrounding process must now do.
pub fn update(state: &mut AppState, event: AppEvent) -> (action: Action)
    ensures
        *final(state) == spec_next_state(*old(state), event),
        action == spec_action(*old(state), event),
{
    match event {
        AppEvent::Enable => {
            state.enabled = true;
            Action::Idle
        },
        AppEvent::Disable => {
            state.enabled = false;
            Action::Idle
        },
        AppEvent::Quit => Action::Exit,
        AppEvent::Tick(ev) => match ev {
            Option::Some(_) => Action::Dispatch,
            Option::None => Action::Idle,
        },
        AppEvent::ShortcutTriggered => if state.enabled {
            Action::Capture
        } else {
            Action::Idle
        },
        AppEvent::Captured(res) => match res {
            Result::Ok(t) => {
                if is_blank(t.as_str()) {
                    Action::Idle
                } else if state.openai_connected {
                    Action::Improve(t)
                } else {
                    Action::Idle
                }
            },
            Result::Err(_) => Action::Idle,
        },
        AppEvent::TextImproved(res) => match res {
            Result::Ok(t) => Action::Paste(t),
            Result::Err(_) => Action::Idle,
        },
    }
}

/// Pipeline work: the actions that read the selection, call the
/// network, or write the clipboard.
pub open spec fn spec_is_pipeline_action(a: Action) -> bool {
    match a {
        Action::Capture => true,
        Action::Improve(_) => true,
        Action::Paste(_) => true,
        _ => false,
    }
}

/// Hotkey traffic: the events that polling the listener produces.
pub open spec fn spec_is_hotkey_event(e: AppEvent) -> bool {
    match e {
        AppEvent::Tick(_) => true,
        AppEvent::ShortcutTriggered => true,
        _ => false,
    }
}

/// The state after a whole sequence of events.
pub open spec fn spec_run(s: AppState, events: Seq<AppEvent>) -> AppState
    decreases events.len(),
{
    if events.len() == 0 {
        s
    } else {
        spec_run(spec_next_state(s, events[0]), events.skip(1))
    }
}

/// Hotkey traffic never moves the state.
proof fn lemma_hotkey_drain_keeps_state(s: AppState, events: Seq<AppEvent>)
    requires
        forall|i: int| 0 <= i < events.len() ==> spec_is_hotkey_event(#[trigger] events[i]),
    ensures
        spec_run(s, events) == s,
    decreases events.len(),
{
    if events.len() > 0 {
        assert(spec_next_state(s, events[0]) == s);
        assert(forall|i: int|
            0 <= i < events.skip(1).len() ==> spec_is_hotkey_event(
                #[trigger] events.skip(1)[i],
            ));
        lemma_hotkey_drain_keeps_state(s, events.skip(1));
    }
}

/// While the enabled flag is false, any number of pending hotkey
/// events is drained without changing the state and without provoking
/// pipeline work; and the `Enable` that follows provokes none either,
/// so drained events are not replayed after re-enabling.
pub proof fn lemma_disabled_suppression(s: AppState, events: Seq<AppEvent>)
    requires
        !s.enabled,
        forall|i: int| 0 <= i < events.len() ==> spec_is_hotkey_event(#[trigger] events[i]),
    ensures
        spec_run(s, events) == s,
        forall|i: int|
            0 <= i < events.len() ==> !spec_is_pipeline_action(
                #[trigger] spec_action(spec_run(s, events.take(i)), events[i]),
            ),
        !spec_is_pipeline_action(spec_action(spec_run(s, events), AppEvent::Enable)),
{
    lemma_hotkey_drain_keeps_state(s, events);
    assert forall|i: int| 0 <= i < events.len() implies !spec_is_pipeline_action(
        #[trigger] spec_action(spec_run(s, events.take(i)), events[i]),
    ) by {
        assert(forall|j: int|
            0 <= j < events.take(i).len() ==> spec_is_hotkey_event(
                #[trigger] events.take(i)[j],
            ));
        lemma_hotkey_drain_keeps_state(s, events.take(i));
    }
}

/// Blank captured text short-circuits the pipeline: the shell asks for
/// nothing further and the state is unchanged, so neither the network
/// client nor the clipboard is touched.
pub proof fn lemma_blank_capture_short_circuit(s: AppState, t: String)
    requires
        spec_is_blank(t@),
    ensures
        spec_action(s, AppEvent::Captured(Result::Ok(t))) == Action::Idle,
        spec_next_state(s, AppEvent::Captured(Result::Ok(t))) == s,
{
}

} // verus!
