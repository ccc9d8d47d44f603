//! Counters: a number that commands raise, lower, set and reset.

use vstd::prelude::*;
use crate::component::{
    asks_for_state, is_state_request, Component, Data, EventListener, Reaction,
    ScoreboardComponent, Snapshot, TeamComponent,
};
use crate::event::states::{CounterEvent, ToggleEvent};
use crate::event::{Event, LogEvent, Notice};
use crate::time::Instant;

verus! {

/// The number a counter shows after a command, given the number it shows
/// now and the number it was constructed with. Raising stops at `u64::MAX`
/// and lowering stops at zero.
pub open spec fn counter_after(value: u64, orig_value: u64, event: Event) -> u64 {
    match event {
        Event::Reset => orig_value,
        Event::Counter(CounterEvent::Increment) => if value < u64::MAX {
            (value + 1) as u64
        } else {
            value
        },
        Event::Counter(CounterEvent::Decrement) => if value > 0 {
            (value - 1) as u64
        } else {
            0
        },
        Event::Counter(CounterEvent::SetTo(v)) => v,
        _ => value,
    }
}

/// The state of one counter.
#[derive(Debug, Clone)]
pub struct InternalCounter {
    pub orig_value: u64,
    pub value: u64,
    pub name: String,
}

impl InternalCounter {
    /// A counter that shows `value` and returns to it on a reset.
    pub fn new(name: String, value: u64) -> (counter: InternalCounter)
        ensures
            counter.value == value,
            counter.orig_value == value,
            counter.name == name,
    {
        InternalCounter { value, orig_value: value, name }
    }

    /// The counter after a command.
    pub open spec fn after(self, event: Event) -> InternalCounter {
        InternalCounter { value: counter_after(self.value, self.orig_value, event), ..self }
    }

    /// The counter after a series of commands, applied in order.
    pub open spec fn after_all(self, events: Seq<Event>) -> InternalCounter
        decreases events.len(),
    {
        if events.len() == 0 {
            self
        } else {
            self.after_all(events.drop_last()).after(events.last())
        }
    }

    /// A reset brings back the number the counter was constructed with,
    /// whatever commands came in between, and not the number last set:
    /// no command changes the number that a reset returns to.
    pub proof fn lemma_reset_restores_original(self, events: Seq<Event>)
        ensures
            self.after_all(events).orig_value == self.orig_value,
            self.after_all(events).name == self.name,
            self.after_all(events).after(Event::Reset).value == self.orig_value,
        decreases events.len(),
    {
        if events.len() > 0 {
            self.lemma_reset_restores_original(events.drop_last());
        }
    }

    /// Applies the command in `event`.
    pub fn process_event(&mut self, event: &LogEvent)
        ensures
            *final(self) == old(self).after(event.event),
    {
        if let Event::Reset = &event.event {
            self.value = self.orig_value;
            return;
        }
        let Event::Counter(counter_event) = &event.event else {
            return;
        };
        self.value = match *counter_event {
            CounterEvent::Increment => self.value.saturating_add(1),
            CounterEvent::Decrement => self.value.saturating_sub(1),
            CounterEvent::SetTo(value) => value,
        }
    }
}

impl InternalCounter {
    /// What the counter, owned by `component`, reports of itself.
    pub open spec fn report(self, component: Component) -> Snapshot {
        Snapshot { component, name: self.name, data: Data::Counter(self.value) }
    }

    /// Reports the state of the counter, owned by `component`.
    pub fn get_data(&self, component: Component) -> (snapshot: Snapshot)
        ensures
            snapshot == self.report(component),
    {
        Snapshot { component, name: self.name.clone(), data: Data::Counter(self.value) }
    }
}

/// The actor that owns a plain counter.
#[derive(Debug)]
pub struct Counter {
    pub component: Component,
    pub counter: InternalCounter,
}

impl Counter {
    /// A counter that shows `value`.
    pub fn new(component: Component, name: &str, value: u64) -> (actor: Counter)
        ensures
            actor.component == component,
            actor.counter.name@ == name@,
            actor.counter.value == value,
            actor.counter.orig_value == value,
    {
        Counter { component, counter: InternalCounter::new(name.to_owned(), value) }
    }
}

impl EventListener for Counter {
    /// The actor after it has taken an envelope that says `notice`: one
    /// that concerns it is applied to the counter.
    open spec fn after(self, notice: Notice) -> Counter {
        if self.component.concerns(notice.component) {
            Counter { component: self.component, counter: self.counter.after(notice.event) }
        } else {
            self
        }
    }

    /// The actor hands back nothing for publication.
    open spec fn publishes(self, notice: Notice) -> Seq<Notice> {
        Seq::empty()
    }

    /// The report that the actor sends back on account of `notice`: its
    /// state, if the envelope asks for it.
    open spec fn answers(self, notice: Notice) -> Option<Snapshot> {
        if asks_for_state(self.component, notice) {
            Some(self.counter.report(self.component))
        } else {
            None
        }
    }

    /// Takes one envelope.
    fn notify(&mut self, log_event: &LogEvent) -> (reaction: Reaction)
        ensures
            *final(self) == old(self).after(log_event.notice()),
            reaction.publish@ == old(self).publishes(log_event.notice()),
            reaction.reply == old(self).answers(log_event.notice()),
    {
        if is_state_request(&self.component, log_event) {
            return Reaction::reply(self.counter.get_data(self.component));
        }
        if self.component.is_event_component_relevant(&log_event.component) {
            self.counter.process_event(log_event);
        }
        Reaction::silent()
    }
}

impl ScoreboardComponent for Counter {
    open spec fn address(self) -> Component {
        self.component
    }

    open spec fn report_at(self, now: Instant) -> Snapshot {
        self.counter.report(self.component)
    }

    fn identity(&self) -> (component: Component)
        ensures
            component == self.address(),
    {
        self.component
    }

    fn get_data(&self, now: Instant) -> (snapshot: Snapshot)
        ensures
            snapshot == self.report_at(now),
    {
        self.counter.get_data(self.component)
    }

    proof fn lemma_answers_with_report(self, notice: Notice)
        ensures
            self.report_at(notice.timestamp).component == self.address(),
            self.answers(notice) == (if asks_for_state(self.address(), notice) {
                Some(self.report_at(notice.timestamp))
            } else {
                None
            }),
    {
    }
}

/// The command that a count of `value` team fouls calls for on the team's
/// foul warning, if any. Past five fouls the warning goes on one foul short
/// of each multiple of five; it goes off two fouls short of it, and at each
/// multiple of five, zero included.
pub open spec fn foul_warning(value: u64) -> Option<ToggleEvent> {
    if value > 5 && (value + 1) % 5 == 0 {
        Some(ToggleEvent::Activate)
    } else if (value > 5 && (value + 2) % 5 == 0) || value % 5 == 0 {
        Some(ToggleEvent::Deactivate)
    } else {
        None
    }
}

/// Decides [`foul_warning`].
pub fn foul_warning_for(value: u64) -> (command: Option<ToggleEvent>)
    ensures
        command == foul_warning(value),
{
    let rest: u64 = value % 5;
    if value > 5 && rest == 4 {
        Some(ToggleEvent::Activate)
    } else if (value > 5 && rest == 3) || rest == 0 {
        Some(ToggleEvent::Deactivate)
    } else {
        None
    }
}

/// The actor that owns a team's foul counter. It keeps the team's foul
/// warning in step with the count.
#[derive(Debug)]
pub struct TeamFoulCounter {
    pub component: Component,
    pub counter: InternalCounter,
}

impl TeamFoulCounter {
    /// The address of the foul warning of the team that `component` belongs
    /// to, if it belongs to a team.
    pub open spec fn warning_target(component: Component) -> Option<Component> {
        match component {
            Component::Away(_) => Some(Component::Away(TeamComponent::TeamFoulWarning)),
            Component::Home(_) => Some(Component::Home(TeamComponent::TeamFoulWarning)),
            _ => None,
        }
    }

    /// A foul counter that shows zero.
    pub fn new(component: Component, name: &str) -> (actor: TeamFoulCounter)
        ensures
            actor.component == component,
            actor.counter.name@ == name@,
            actor.counter.value == 0,
            actor.counter.orig_value == 0,
    {
        TeamFoulCounter { component, counter: InternalCounter::new(name.to_owned(), 0) }
    }
}

impl EventListener for TeamFoulCounter {
    /// The actor after it has taken an envelope that says `notice`: one
    /// that concerns it is applied to the counter.
    open spec fn after(self, notice: Notice) -> TeamFoulCounter {
        if self.component.concerns(notice.component) {
            TeamFoulCounter {
                component: self.component,
                counter: self.counter.after(notice.event),
            }
        } else {
            self
        }
    }

    /// The notices that the actor hands back for publication on account of
    /// `notice`: the command that the count calls for once the envelope has
    /// been applied, if any, addressed to the team's foul warning under the
    /// timestamp of `notice`. It goes out in an envelope of its own.
    /// Requests for state and envelopes that do not concern the counter
    /// bring about none.
    open spec fn publishes(self, notice: Notice) -> Seq<Notice> {
        if notice.event != Event::SnapshotRequest && self.component.concerns(
            notice.component,
        ) && TeamFoulCounter::warning_target(self.component) is Some && foul_warning(
            self.after(notice).counter.value,
        ) is Some {
            seq![
                Notice {
                    component: TeamFoulCounter::warning_target(self.component)->0,
                    event: Event::Toggle(foul_warning(self.after(notice).counter.value)->0),
                    timestamp: notice.timestamp,
                },
            ]
        } else {
            Seq::empty()
        }
    }

    /// The report that the actor sends back on account of `notice`: its
    /// state, if the envelope asks for it.
    open spec fn answers(self, notice: Notice) -> Option<Snapshot> {
        if asks_for_state(self.component, notice) {
            Some(self.counter.report(self.component))
        } else {
            None
        }
    }

    /// Takes one envelope.
    fn notify(&mut self, log_event: &LogEvent) -> (reaction: Reaction)
        ensures
            *final(self) == old(self).after(log_event.notice()),
            reaction.publish@ == old(self).publishes(log_event.notice()),
            reaction.reply == old(self).answers(log_event.notice()),
    {
        if is_state_request(&self.component, log_event) {
            return Reaction::reply(self.counter.get_data(self.component));
        }
        let mut reaction = Reaction::silent();
        if !self.component.is_event_component_relevant(&log_event.component) {
            return reaction;
        }
        self.counter.process_event(log_event);
        let target = match self.component {
            Component::Away(_) => Component::Away(TeamComponent::TeamFoulWarning),
            Component::Home(_) => Component::Home(TeamComponent::TeamFoulWarning),
            _ => {
                return reaction;
            },
        };
        if let Some(command) = foul_warning_for(self.counter.value) {
            reaction.publish.push(
                Notice {
                    component: target,
                    event: Event::Toggle(command),
                    timestamp: log_event.timestamp,
                },
            );
        }
        reaction
    }
}

impl ScoreboardComponent for TeamFoulCounter {
    open spec fn address(self) -> Component {
        self.component
    }

    open spec fn report_at(self, now: Instant) -> Snapshot {
        self.counter.report(self.component)
    }

    fn identity(&self) -> (component: Component)
        ensures
            component == self.address(),
    {
        self.component
    }

    fn get_data(&self, now: Instant) -> (snapshot: Snapshot)
        ensures
            snapshot == self.report_at(now),
    {
        self.counter.get_data(self.component)
    }

    proof fn lemma_answers_with_report(self, notice: Notice)
        ensures
            self.report_at(notice.timestamp).component == self.address(),
            self.answers(notice) == (if asks_for_state(self.address(), notice) {
                Some(self.report_at(notice.timestamp))
            } else {
                None
            }),
    {
    }
}

} // verus!
