//! Labels: a text that commands set and reset.

use vstd::prelude::*;
use crate::component::{
    asks_for_state, is_state_request, Component, Data, EventListener, Reaction,
    ScoreboardComponent, Snapshot,
};
use crate::event::states::LabelEvent;
use crate::event::{Event, LogEvent, Notice};
use crate::time::Instant;

verus! {

/// The text a label shows after a command, given the text it shows now and
/// the text it was constructed with.
pub open spec fn label_after(value: String, orig_value: String, event: Event) -> String {
    match event {
        Event::Reset => orig_value,
        Event::Label(LabelEvent::SetTo(text)) => text,
        _ => value,
    }
}

/// The state of one label.
#[derive(Debug, Clone)]
pub struct InternalLabel {
    pub name: String,
    pub orig_value: String,
    pub value: String,
}

impl InternalLabel {
    /// A label that shows `value` and returns to it on a reset.
    pub fn new(name: String, value: String) -> (label: InternalLabel)
        ensures
            label.value == value,
            label.orig_value == value,
            label.name == name,
    {
        InternalLabel { name, orig_value: value.clone(), value }
    }

    /// The label after a command.
    pub open spec fn after(self, event: Event) -> InternalLabel {
        InternalLabel { value: label_after(self.value, self.orig_value, event), ..self }
    }

    /// The label after a series of commands, applied in order.
    pub open spec fn after_all(self, events: Seq<Event>) -> InternalLabel
        decreases events.len(),
    {
        if events.len() == 0 {
            self
        } else {
            self.after_all(events.drop_last()).after(events.last())
        }
    }

    /// A reset brings back the text the label was constructed with,
    /// whatever commands came in between, and not the text last set: no
    /// command changes the text that a reset returns to.
    pub proof fn lemma_reset_restores_original(self, events: Seq<Event>)
        ensures
            self.after_all(events).orig_value == self.orig_value,
            self.after_all(events).name == self.name,
            self.after_all(events).after(Event::Reset).value == self.orig_value,
        decreases events.len(),
    {
        if events.len() > 0 {
            self.lemma_reset_restores_original(events.drop_last());
        }
    }

    /// Applies the command in `event`.
    pub fn process_event(&mut self, event: &LogEvent)
        ensures
            *final(self) == old(self).after(event.event),
    {
        if let Event::Reset = &event.event {
            self.value = self.orig_value.clone();
            return;
        }
        let Event::Label(label_event) = &event.event else {
            return;
        };
        self.value = match label_event {
            LabelEvent::SetTo(value) => value.clone(),
        }
    }
}

impl InternalLabel {
    /// What the label, owned by `component`, reports of itself.
    pub open spec fn report(self, component: Component) -> Snapshot {
        Snapshot { component, name: self.name, data: Data::Label(self.value) }
    }

    /// Reports the state of the label, owned by `component`.
    pub fn get_data(&self, component: Component) -> (snapshot: Snapshot)
        ensures
            snapshot == self.report(component),
    {
        Snapshot { component, name: self.name.clone(), data: Data::Label(self.value.clone()) }
    }
}

/// The actor that owns a label.
#[derive(Debug)]
pub struct Label {
    pub component: Component,
    pub label: InternalLabel,
}

impl Label {
    /// A label that shows `value`.
    pub fn new(component: Component, name: &str, value: &str) -> (actor: Label)
        ensures
            actor.component == component,
            actor.label.name@ == name@,
            actor.label.value@ == value@,
            actor.label.orig_value@ == value@,
    {
        Label { component, label: InternalLabel::new(name.to_owned(), value.to_owned()) }
    }
}

impl EventListener for Label {
    /// The actor after it has taken an envelope that says `notice`: one
    /// that concerns it is applied to the label.
    open spec fn after(self, notice: Notice) -> Label {
        if self.component.concerns(notice.component) {
            Label { component: self.component, label: self.label.after(notice.event) }
        } else {
            self
        }
    }

    /// The actor hands back nothing for publication.
    open spec fn publishes(self, notice: Notice) -> Seq<Notice> {
        Seq::empty()
    }

    /// The report that the actor sends back on account of `notice`: its
    /// state, if the envelope asks for it.
    open spec fn answers(self, notice: Notice) -> Option<Snapshot> {
        if asks_for_state(self.component, notice) {
            Some(self.label.report(self.component))
        } else {
            None
        }
    }

    /// Takes one envelope.
    fn notify(&mut self, log_event: &LogEvent) -> (reaction: Reaction)
        ensures
            *final(self) == old(self).after(log_event.notice()),
            reaction.publish@ == old(self).publishes(log_event.notice()),
            reaction.reply == old(self).answers(log_event.notice()),
    {
        if is_state_request(&self.component, log_event) {
            return Reaction::reply(self.label.get_data(self.component));
        }
        if self.component.is_event_component_relevant(&log_event.component) {
            self.label.process_event(log_event);
        }
        Reaction::silent()
    }
}

impl ScoreboardComponent for Label {
    open spec fn address(self) -> Component {
        self.component
    }

    open spec fn report_at(self, now: Instant) -> Snapshot {
        self.label.report(self.component)
    }

    fn identity(&self) -> (component: Component)
        ensures
            component == self.address(),
    {
        self.component
    }

    fn get_data(&self, now: Instant) -> (snapshot: Snapshot)
        ensures
            snapshot == self.report_at(now),
    {
        self.label.get_data(self.component)
    }

    proof fn lemma_answers_with_report(self, notice: Notice)
        ensures
            self.report_at(notice.timestamp).component == self.address(),
            self.answers(notice) == (if asks_for_state(self.address(), notice) {
                Some(self.report_at(notice.timestamp))
            } else {
                None
            }),
    {
    }
}

} // verus!
