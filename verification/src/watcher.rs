//! The watcher of one spawned worker: it follows the process's events until
//! the first that ends it, and reports an abnormal end once.

use crate::text::{prefixed, signed_decimal, signed_decimal_string};
use vstd::prelude::*;

verus! {

/// What a spawned process reports about itself.
#[derive(Debug, PartialEq, Eq)]
pub enum ProcessEvent {
    /// The process ended, with its exit code if it has one.
    Terminated { code: Option<i32> },
    /// Spawning or running the process failed.
    Error(String),
    /// Anything else, such as a line of output.
    Other,
}

/// A [`ProcessEvent`] with its text as a sequence of characters.
pub enum ProcessEventView {
    Terminated { code: Option<i32> },
    Error(Seq<char>),
    Other,
}

impl View for ProcessEvent {
    type V = ProcessEventView;

    open spec fn view(&self) -> ProcessEventView {
        match self {
            ProcessEvent::Terminated { code } => ProcessEventView::Terminated { code: *code },
            ProcessEvent::Error(text) => ProcessEventView::Error(text@),
            ProcessEvent::Other => ProcessEventView::Other,
        }
    }
}

/// Where a watcher stands.
#[derive(Debug, PartialEq, Eq)]
pub enum WatcherState {
    /// The process has not ended yet.
    Running,
    /// The process ended with this exit code.
    Terminated(Option<i32>),
    /// The process failed with this error.
    Errored(String),
}

/// A [`WatcherState`] with its text as a sequence of characters.
pub enum WatcherStateView {
    Running,
    Terminated(Option<i32>),
    Errored(Seq<char>),
}

impl View for WatcherState {
    type V = WatcherStateView;

    open spec fn view(&self) -> WatcherStateView {
        match self {
            WatcherState::Running => WatcherStateView::Running,
            WatcherState::Terminated(code) => WatcherStateView::Terminated(*code),
            WatcherState::Errored(text) => WatcherStateView::Errored(text@),
        }
    }
}

/// What the caller does after handing an event to the watcher.
#[derive(Debug, PartialEq, Eq)]
pub enum WatcherAction {
    /// Wait for the next event.
    Continue,
    /// Stop watching, after sending this failure notification if there is
    /// one. Sending is best effort.
    Stop(Option<String>),
}

/// A [`WatcherAction`] with its text as a sequence of characters.
pub enum WatcherActionView {
    Continue,
    Stop(Option<Seq<char>>),
}

impl View for WatcherAction {
    type V = WatcherActionView;

    open spec fn view(&self) -> WatcherActionView {
        match self {
            WatcherAction::Continue => WatcherActionView::Continue,
            WatcherAction::Stop(Some(text)) => WatcherActionView::Stop(Some(text@)),
            WatcherAction::Stop(None) => WatcherActionView::Stop(None),
        }
    }
}

/// The notification for a process that ended with the non-zero exit code
/// `code`.
pub open spec fn crash_message(code: i32) -> Seq<char> {
    "Engine exited with code: "@ + signed_decimal(code as int)
        + ". This often means a missing DLL or GPU driver issue."@
}

/// The notification for a process that failed with the error `text`.
pub open spec fn failure_message(text: Seq<char>) -> Seq<char> {
    "Sidecar Error: "@ + text
}

/// The failure notification that `event` calls for, if any: one for an
/// error and for an end with a non-zero exit code, none for an end with
/// exit code zero or without an exit code, and none for anything else.
pub open spec fn notification_for(event: ProcessEventView) -> Option<Seq<char>> {
    match event {
        ProcessEventView::Terminated { code: Some(code) } => if code != 0 {
            Some(crash_message(code))
        } else {
            None
        },
        ProcessEventView::Terminated { code: None } => None,
        ProcessEventView::Error(text) => Some(failure_message(text)),
        ProcessEventView::Other => None,
    }
}

/// The watcher's state after `event`, and what the caller does then. A
/// watcher that has stopped stays as it is and sends nothing.
pub open spec fn watch_step(state: WatcherStateView, event: ProcessEventView) -> (
    WatcherStateView,
    WatcherActionView,
) {
    match state {
        WatcherStateView::Running => match event {
            ProcessEventView::Terminated { code } => (
                WatcherStateView::Terminated(code),
                WatcherActionView::Stop(notification_for(event)),
            ),
            ProcessEventView::Error(text) => (
                WatcherStateView::Errored(text),
                WatcherActionView::Stop(notification_for(event)),
            ),
            ProcessEventView::Other => (WatcherStateView::Running, WatcherActionView::Continue),
        },
        _ => (state, WatcherActionView::Stop(None)),
    }
}

/// The watcher of one spawned process.
pub struct Watcher {
    state: WatcherState,
}

impl View for Watcher {
    type V = WatcherStateView;

    closed spec fn view(&self) -> WatcherStateView {
        self.state@
    }
}

impl Watcher {
    /// The watcher of a process that has just been spawned.
    pub fn new() -> (w: Watcher)
        ensures
            w@ == WatcherStateView::Running,
    {
        Watcher { state: WatcherState::Running }
    }

    /// Where the watcher stands.
    pub fn state(&self) -> (state: &WatcherState)
        ensures
            state@ == self@,
    {
        &self.state
    }

    /// Whether the process has not ended yet.
    pub fn is_running(&self) -> (b: bool)
        ensures
            b == (self@ is Running),
    {
        match self.state {
            WatcherState::Running => true,
            _ => false,
        }
    }

    /// Takes the next event of the process and says what to do.
    pub fn observe(&mut self, event: ProcessEvent) -> (action: WatcherAction)
        ensures
            (final(self)@, action@) == watch_step(old(self)@, event@),
    {
        if !self.is_running() {
            return WatcherAction::Stop(None);
        }
        match event {
            ProcessEvent::Terminated { code } => {
                let notification = match code {
                    Some(code) => if code != 0 {
                        Some(crash_report(code))
                    } else {
                        None
                    },
                    None => None,
                };
                self.state = WatcherState::Terminated(code);
                WatcherAction::Stop(notification)
            },
            ProcessEvent::Error(text) => {
                let notification = prefixed("Sidecar Error: ", text.as_str());
                self.state = WatcherState::Errored(text);
                WatcherAction::Stop(Some(notification))
            },
            ProcessEvent::Other => WatcherAction::Continue,
        }
    }
}

/// The notification for a process that ended with the exit code `code`.
pub fn crash_report(code: i32) -> (text: String)
    ensures
        text@ == crash_message(code),
{
    let mut text = String::from_str("Engine exited with code: ");
    let numeral = signed_decimal_string(code);
    text.append(numeral.as_str());
    text.append(". This often means a missing DLL or GPU driver issue.");
    text
}

/// The notifications that a watcher in `state` sends while it is handed
/// `events` one after the other.
pub open spec fn notifications(state: WatcherStateView, events: Seq<ProcessEventView>) -> Seq<
    Seq<char>,
>
    decreases events.len(),
{
    if events.len() == 0 {
        seq![]
    } else {
        let (next, action) = watch_step(state, events[0]);
        let later = notifications(next, events.drop_first());
        match action {
            WatcherActionView::Stop(Some(text)) => seq![text] + later,
            _ => later,
        }
    }
}

/// The first of `events` that ends the watching: the first that is not
/// [`ProcessEventView::Other`].
pub open spec fn first_decisive(events: Seq<ProcessEventView>) -> Option<ProcessEventView>
    decreases events.len(),
{
    if events.len() == 0 {
        None
    } else if events[0] is Other {
        first_decisive(events.drop_first())
    } else {
        Some(events[0])
    }
}

/// A watcher that has stopped sends nothing, whatever it is handed.
pub proof fn lemma_stopped_watcher_is_silent(state: WatcherStateView, events: Seq<ProcessEventView>)
    requires
        !(state is Running),
    ensures
        notifications(state, events) == Seq::<Seq<char>>::empty(),
    decreases events.len(),
{
    if events.len() > 0 {
        lemma_stopped_watcher_is_silent(state, events.drop_first());
    }
}

/// Over any course of events a watcher sends at most one notification: the
/// one that the first decisive event calls for, and none if that event calls
/// for none or never comes.
pub proof fn lemma_watcher_notifies_at_most_once(events: Seq<ProcessEventView>)
    ensures
        notifications(WatcherStateView::Running, events) == match first_decisive(events) {
            Some(event) => match notification_for(event) {
                Some(text) => seq![text],
                None => Seq::<Seq<char>>::empty(),
            },
            None => Seq::<Seq<char>>::empty(),
        },
    decreases events.len(),
{
    if events.len() > 0 {
        let (next, action) = watch_step(WatcherStateView::Running, events[0]);
        if events[0] is Other {
            lemma_watcher_notifies_at_most_once(events.drop_first());
        } else {
            lemma_stopped_watcher_is_silent(next, events.drop_first());
            match notification_for(events[0]) {
                Some(text) => {
                    assert(seq![text] + Seq::<Seq<char>>::empty() =~= seq![text]);
                },
                None => {},
            }
        }
    }
}

/// A worker that exits with a non-zero code is reported exactly once, with
/// the message for that code, whatever else the process reports before or
/// after.
pub proof fn lemma_crash_is_reported_once(events: Seq<ProcessEventView>, code: i32)
    requires
        first_decisive(events) == Some(ProcessEventView::Terminated { code: Some(code) }),
        code != 0,
    ensures
        notifications(WatcherStateView::Running, events) == seq![crash_message(code)],
{
    lemma_watcher_notifies_at_most_once(events);
}

/// A worker that exits with code zero is not reported, whatever else the
/// process reports before or after.
pub proof fn lemma_clean_exit_is_silent(events: Seq<ProcessEventView>)
    requires
        first_decisive(events) == Some(ProcessEventView::Terminated { code: Some(0i32) }),
    ensures
        notifications(WatcherStateView::Running, events) == Seq::<Seq<char>>::empty(),
{
    lemma_watcher_notifies_at_most_once(events);
}

} // verus!
