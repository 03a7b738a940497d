//! The background task of the reporting extension, as a state machine: it
//! holds the behavior that is selected, takes the events that the task meets
//! and says how the task goes on.

use crate::reporting::{text_of, SpaceportConfig, SpaceportConfigModel};
use vstd::prelude::*;
use vstd::string::StringExecFns;

verus! {

/// Seconds to wait before a behavior that returned is started again.
pub const BACKOFF_SECS: u64 = 1;

/// What the task does between two configuration messages.
#[derive(Debug, PartialEq, Eq)]
pub enum Behavior {
    /// The collector runs outside this process: wait, without end.
    External,
    /// Serve a collector inside this process at the listener address.
    Embedded(String),
}

/// Mathematical value of a [`Behavior`].
pub enum BehaviorModel {
    External,
    Embedded(Seq<char>),
}

impl View for Behavior {
    type V = BehaviorModel;

    open spec fn view(&self) -> BehaviorModel {
        match self {
            Behavior::External => BehaviorModel::External,
            Behavior::Embedded(listener) => BehaviorModel::Embedded(listener@),
        }
    }
}

impl Clone for Behavior {
    fn clone(&self) -> (copy: Behavior)
        ensures
            copy@ == self@,
    {
        match self {
            Behavior::External => Behavior::External,
            Behavior::Embedded(listener) => Behavior::Embedded(listener.clone()),
        }
    }
}

/// What the task can meet while it runs.
#[derive(Debug, PartialEq, Eq)]
pub enum Event {
    /// A new configuration arrived.
    Configuration(SpaceportConfig),
    /// The configuration channel was closed.
    Closed,
    /// The selected behavior returned, with its result.
    Completed(bool),
}

/// Mathematical value of an [`Event`].
pub enum EventModel {
    Configuration(SpaceportConfigModel),
    Closed,
    Completed(bool),
}

impl View for Event {
    type V = EventModel;

    open spec fn view(&self) -> EventModel {
        match self {
            Event::Configuration(config) => EventModel::Configuration(config@),
            Event::Closed => EventModel::Closed,
            Event::Completed(result) => EventModel::Completed(*result),
        }
    }
}

/// How the task goes on after an event.
#[derive(Clone, Copy, Debug, PartialEq, Eq, Structural)]
pub enum Step {
    /// Run the selected behavior.
    Run,
    /// Wait for the given number of seconds, then run the selected behavior.
    Backoff(u64),
    /// Leave the loop.
    Terminate,
}

/// The behavior that a configuration selects.
pub open spec fn selected(config: SpaceportConfigModel) -> BehaviorModel {
    if config.external {
        BehaviorModel::External
    } else {
        BehaviorModel::Embedded(config.listener)
    }
}

/// One transition of the task: the behavior after the event, and the step.
///
/// A configuration selects its behavior. A behavior that returned is kept
/// and started again after the backoff. Closing the channel ends the task.
pub open spec fn transition(behavior: BehaviorModel, event: EventModel) -> (BehaviorModel, Step) {
    match event {
        EventModel::Configuration(config) => (selected(config), Step::Run),
        EventModel::Closed => (behavior, Step::Terminate),
        EventModel::Completed(_) => (behavior, Step::Backoff(1)),
    }
}

/// The behavior after a run of events, none of which ends the task.
pub open spec fn behavior_after(behavior: BehaviorModel, events: Seq<EventModel>) -> BehaviorModel
    decreases events.len(),
{
    if events.len() == 0 {
        behavior
    } else {
        transition(behavior_after(behavior, events.drop_last()), events.last()).0
    }
}

/// The task's state: the one behavior that is selected.
pub struct Orchestrator {
    behavior: Behavior,
}

impl View for Orchestrator {
    type V = BehaviorModel;

    closed spec fn view(&self) -> BehaviorModel {
        self.behavior@
    }
}

impl Orchestrator {
    /// The task before any configuration: it waits.
    pub fn new() -> (task: Orchestrator)
        ensures
            task@ == BehaviorModel::External,
    {
        Orchestrator { behavior: Behavior::External }
    }

    /// The behavior to run now.
    pub fn behavior(&self) -> (behavior: Behavior)
        ensures
            behavior@ == self@,
    {
        self.behavior.clone()
    }

    /// Takes one event and says how the task goes on.
    pub fn handle(&mut self, event: Event) -> (step: Step)
        ensures
            (final(self)@, step) == transition(old(self)@, event@),
    {
        match event {
            Event::Configuration(config) => {
                if config.external {
                    self.behavior = Behavior::External;
                } else {
                    self.behavior = Behavior::Embedded(config.listener);
                }
                Step::Run
            },
            Event::Closed => Step::Terminate,
            Event::Completed(_) => Step::Backoff(BACKOFF_SECS),
        }
    }
}

/// The task ends on the closing of the channel and on nothing else.
pub proof fn terminates_only_when_closed(behavior: BehaviorModel, event: EventModel)
    ensures
        transition(behavior, event).1 == Step::Terminate <==> event is Closed,
{
}

/// A behavior that returns, with whatever result, is retried as it is after
/// the fixed backoff: no new configuration is needed.
pub proof fn completion_retries_same_behavior(behavior: BehaviorModel, result: bool)
    ensures
        transition(behavior, EventModel::Completed(result)) == (behavior, Step::Backoff(1)),
{
}

/// Only the newest configuration matters: after a run of events that ends
/// with a configuration, the behavior is the one that this configuration
/// selects, whatever came before.
pub proof fn latest_configuration_wins(
    behavior: BehaviorModel,
    events: Seq<EventModel>,
    config: SpaceportConfigModel,
)
    ensures
        behavior_after(behavior, events.push(EventModel::Configuration(config))) == selected(config),
{
}

/// Failures of the selected behavior never change what is selected: a run of
/// completions leaves the behavior as it was.
pub proof fn completions_keep_behavior(behavior: BehaviorModel, events: Seq<EventModel>)
    requires
        forall|i: int| 0 <= i < events.len() ==> #[trigger] events[i] is Completed,
    ensures
        behavior_after(behavior, events) == behavior,
    decreases events.len(),
{
    if events.len() > 0 {
        let rest = events.drop_last();
        assert(forall|i: int| 0 <= i < rest.len() ==> #[trigger] rest[i] is Completed);
        completions_keep_behavior(behavior, rest);
    }
}

/// How an attempt to serve the embedded collector ended.
#[derive(Debug, PartialEq, Eq)]
pub enum ListenOutcome {
    /// The listener address does not parse; the parser's words.
    InvalidAddress(String),
    /// Serving failed: the error's words, and those of its source if it has
    /// one.
    Failed { error: String, source: Option<String> },
    /// Serving came to a regular end.
    Finished,
}

/// What an attempt to serve reports: its result, and the warning to log.
#[derive(Debug, PartialEq, Eq)]
pub struct ListenReport {
    pub completed: bool,
    pub warning: Option<String>,
}

/// The warning that goes with an outcome. A failure is told in the words of
/// its source where it has one.
pub open spec fn listen_warning(outcome: ListenOutcome) -> Option<Seq<char>> {
    match outcome {
        ListenOutcome::InvalidAddress(reason) => Some(
            "could not parse spaceport address: "@ + reason@,
        ),
        ListenOutcome::Failed { error, source } => Some(
            "spaceport did not terminate normally: "@ + (match source {
                Some(s) => s@,
                None => error@,
            }),
        ),
        ListenOutcome::Finished => None,
    }
}

/// The result of an attempt to serve the embedded collector: `true` for a
/// regular end only, and a warning for every other outcome.
pub fn do_listen(outcome: &ListenOutcome) -> (report: ListenReport)
    ensures
        report.completed == (*outcome is Finished),
        text_of(report.warning) == listen_warning(*outcome),
{
    match outcome {
        ListenOutcome::InvalidAddress(reason) => ListenReport {
            completed: false,
            warning: Some("could not parse spaceport address: ".to_owned().concat(reason.as_str())),
        },
        ListenOutcome::Failed { error, source } => {
            let words = match source {
                Some(s) => s.as_str(),
                None => error.as_str(),
            };
            ListenReport {
                completed: false,
                warning: Some("spaceport did not terminate normally: ".to_owned().concat(words)),
            }
        },
        ListenOutcome::Finished => ListenReport { completed: true, warning: None },
    }
}

} // verus!
