//! Toggles: a switch that commands turn on and off.

use vstd::prelude::*;
use crate::component::{
    asks_for_state, is_state_request, Component, Data, EventListener, GlobalComponent, Reaction,
    ScoreboardComponent, Snapshot,
};
use crate::event::states::{ToggleEvent, ToggleState};
use crate::event::{Event, LogEvent, Notice};
use crate::time::Instant;

verus! {

/// The position of a toggle after a command. Only commands for toggles move
/// it: a reset leaves it where it is.
pub open spec fn toggle_after(state: ToggleState, event: Event) -> ToggleState {
    match event {
        Event::Toggle(ToggleEvent::Activate) => ToggleState::Active,
        Event::Toggle(ToggleEvent::Deactivate) => ToggleState::Inactive,
        _ => state,
    }
}

/// The state of one toggle.
#[derive(Debug, Clone)]
pub struct InteralToggle {
    pub state: ToggleState,
    pub name: String,
}

impl InteralToggle {
    /// A toggle that is off.
    pub fn new(name: String) -> (toggle: InteralToggle)
        ensures
            toggle.state == ToggleState::Inactive,
            toggle.name == name,
    {
        InteralToggle { state: ToggleState::Inactive, name }
    }

    /// The toggle after a command.
    pub open spec fn after(self, event: Event) -> InteralToggle {
        InteralToggle { state: toggle_after(self.state, event), ..self }
    }

    /// Applies the command in `event`.
    pub fn process_event(&mut self, event: &LogEvent)
        ensures
            *final(self) == old(self).after(event.event),
    {
        let Event::Toggle(toggle_event) = &event.event else {
            return;
        };
        self.state = match *toggle_event {
            ToggleEvent::Activate => ToggleState::Active,
            ToggleEvent::Deactivate => ToggleState::Inactive,
        }
    }
}

impl InteralToggle {
    /// What the toggle, owned by `component`, reports of itself.
    pub open spec fn report(self, component: Component) -> Snapshot {
        Snapshot {
            component,
            name: self.name,
            data: Data::Toggle(self.state == ToggleState::Active),
        }
    }

    /// Reports the state of the toggle, owned by `component`.
    pub fn get_data(&self, component: Component) -> (snapshot: Snapshot)
        ensures
            snapshot == self.report(component),
    {
        Snapshot {
            component,
            name: self.name.clone(),
            data: Data::Toggle(matches!(self.state, ToggleState::Active)),
        }
    }
}

/// The actor that owns a toggle.
#[derive(Debug)]
pub struct Toggle {
    pub component: Component,
    pub toggle: InteralToggle,
}

impl Toggle {
    /// A toggle that is off.
    pub fn new(component: Component, name: &str) -> (actor: Toggle)
        ensures
            actor.component == component,
            actor.toggle.name@ == name@,
            actor.toggle.state == ToggleState::Inactive,
    {
        Toggle { component, toggle: InteralToggle::new(name.to_owned()) }
    }
}

impl EventListener for Toggle {
    /// The actor after it has taken an envelope that says `notice`: one
    /// that concerns it is applied to the toggle.
    open spec fn after(self, notice: Notice) -> Toggle {
        if self.component.concerns(notice.component) {
            Toggle { component: self.component, toggle: self.toggle.after(notice.event) }
        } else {
            self
        }
    }

    /// The actor hands back nothing for publication.
    open spec fn publishes(self, notice: Notice) -> Seq<Notice> {
        Seq::empty()
    }

    /// The report that the actor sends back on account of `notice`: its
    /// state, if the envelope asks for it.
    open spec fn answers(self, notice: Notice) -> Option<Snapshot> {
        if asks_for_state(self.component, notice) {
            Some(self.toggle.report(self.component))
        } else {
            None
        }
    }

    /// Takes one envelope.
    fn notify(&mut self, log_event: &LogEvent) -> (reaction: Reaction)
        ensures
            *final(self) == old(self).after(log_event.notice()),
            reaction.publish@ == old(self).publishes(log_event.notice()),
            reaction.reply == old(self).answers(log_event.notice()),
    {
        if is_state_request(&self.component, log_event) {
            return Reaction::reply(self.toggle.get_data(self.component));
        }
        if self.component.is_event_component_relevant(&log_event.component) {
            self.toggle.process_event(log_event);
        }
        Reaction::silent()
    }
}

impl ScoreboardComponent for Toggle {
    open spec fn address(self) -> Component {
        self.component
    }

    open spec fn report_at(self, now: Instant) -> Snapshot {
        self.toggle.report(self.component)
    }

    fn identity(&self) -> (component: Component)
        ensures
            component == self.address(),
    {
        self.component
    }

    fn get_data(&self, now: Instant) -> (snapshot: Snapshot)
        ensures
            snapshot == self.report_at(now),
    {
        self.toggle.get_data(self.component)
    }

    proof fn lemma_answers_with_report(self, notice: Notice)
        ensures
            self.report_at(notice.timestamp).component == self.address(),
            self.answers(notice) == (if asks_for_state(self.address(), notice) {
                Some(self.report_at(notice.timestamp))
            } else {
                None
            }),
    {
    }
}

/// The actor that owns the siren.
#[derive(Debug)]
pub struct Siren {
    pub state: InteralToggle,
}

impl Siren {
    /// The address of the siren.
    pub open spec fn component() -> Component {
        Component::Global(GlobalComponent::Siren)
    }

    /// The siren, off, under the name `siren`.
    pub fn new() -> (actor: Siren)
        ensures
            actor.state.name@ == "siren"@,
            actor.state.state == ToggleState::Inactive,
    {
        Siren { state: InteralToggle::new("siren".to_owned()) }
    }
}

impl EventListener for Siren {
    /// The actor after it has taken an envelope that says `notice`: one
    /// that concerns the siren is applied to it.
    open spec fn after(self, notice: Notice) -> Siren {
        if Siren::component().concerns(notice.component) {
            Siren { state: self.state.after(notice.event) }
        } else {
            self
        }
    }

    /// The actor hands back nothing for publication.
    open spec fn publishes(self, notice: Notice) -> Seq<Notice> {
        Seq::empty()
    }

    /// The report that the actor sends back on account of `notice`: its
    /// state, if the envelope asks for it.
    open spec fn answers(self, notice: Notice) -> Option<Snapshot> {
        if asks_for_state(Siren::component(), notice) {
            Some(self.state.report(Siren::component()))
        } else {
            None
        }
    }

    /// Takes one envelope.
    fn notify(&mut self, log_event: &LogEvent) -> (reaction: Reaction)
        ensures
            *final(self) == old(self).after(log_event.notice()),
            reaction.publish@ == old(self).publishes(log_event.notice()),
            reaction.reply == old(self).answers(log_event.notice()),
    {
        let component = Component::Global(GlobalComponent::Siren);
        if is_state_request(&component, log_event) {
            return Reaction::reply(self.state.get_data(component));
        }
        if component.is_event_component_relevant(&log_event.component) {
            self.state.process_event(log_event);
        }
        Reaction::silent()
    }
}

impl ScoreboardComponent for Siren {
    open spec fn address(self) -> Component {
        Siren::component()
    }

    open spec fn report_at(self, now: Instant) -> Snapshot {
        self.state.report(Siren::component())
    }

    fn identity(&self) -> (component: Component)
        ensures
            component == self.address(),
    {
        Component::Global(GlobalComponent::Siren)
    }

    fn get_data(&self, now: Instant) -> (snapshot: Snapshot)
        ensures
            snapshot == self.report_at(now),
    {
        self.state.get_data(Component::Global(GlobalComponent::Siren))
    }

    proof fn lemma_answers_with_report(self, notice: Notice)
        ensures
            self.report_at(notice.timestamp).component == self.address(),
            self.answers(notice) == (if asks_for_state(self.address(), notice) {
                Some(self.report_at(notice.timestamp))
            } else {
                None
            }),
    {
    }
}

} // verus!
