//! The identity model: which components exist, what kind each one is, and
//! which envelopes concern which component.

pub mod clock;
pub mod counter;
pub mod label;
pub mod toggle;

use vstd::prelude::*;
use crate::event::states::ClockState;
use crate::event::{Event, LogEvent, Notice};
use crate::param::{
    eq_ignore_ascii_case, lemma_same_name_is_an_equivalence, same_name, ParseError,
};
use crate::time::{Duration, Instant};

verus! {

/// What a component holds, and therefore which commands it understands.
#[derive(Debug, Clone, Copy, Hash, PartialEq, Eq, Structural)]
pub enum Kind {
    Clock,
    Counter,
    Toggle,
    Label,
}

/// The components that exist once for the whole match.
#[derive(Debug, Clone, Copy, Hash, PartialEq, Eq, Structural)]
pub enum GlobalComponent {
    GameClock,
    ShotClock,
    StoppageClock,
    Period,
    Siren,
    MatchTitle,
}

/// The components that each team has.
#[derive(Debug, Clone, Copy, Hash, PartialEq, Eq, Structural)]
pub enum TeamComponent {
    InferiorityClock,
    Score,
    TeamFouls,
    TimeOutWarning,
    TeamFoulWarning,
    TeamName,
}

/// The address of a component: a scope and, within it, the component.
/// `All` addresses every component at once.
#[derive(Debug, Clone, Copy, Hash, PartialEq, Eq, Structural)]
pub enum Component {
    All,
    Global(GlobalComponent),
    Home(TeamComponent),
    Away(TeamComponent),
}

impl GlobalComponent {
    /// The global component that `param` names, if it names one.
    pub open spec fn named(param: Seq<char>) -> Option<GlobalComponent> {
        if same_name(param, "GameClock"@) {
            Some(GlobalComponent::GameClock)
        } else if same_name(param, "ShotClock"@) {
            Some(GlobalComponent::ShotClock)
        } else if same_name(param, "StoppageClock"@) {
            Some(GlobalComponent::StoppageClock)
        } else if same_name(param, "Period"@) {
            Some(GlobalComponent::Period)
        } else if same_name(param, "Siren"@) {
            Some(GlobalComponent::Siren)
        } else if same_name(param, "MatchTitle"@) {
            Some(GlobalComponent::MatchTitle)
        } else {
            None
        }
    }

    /// Two texts that differ only in the case of letters name the same
    /// global component, or both name none.
    pub proof fn lemma_named_whatever_the_case(a: Seq<char>, b: Seq<char>)
        requires
            same_name(a, b),
        ensures
            GlobalComponent::named(a) == GlobalComponent::named(b),
    {
        lemma_same_name_is_an_equivalence(a, b, "GameClock"@);
        lemma_same_name_is_an_equivalence(a, b, "ShotClock"@);
        lemma_same_name_is_an_equivalence(a, b, "StoppageClock"@);
        lemma_same_name_is_an_equivalence(a, b, "Period"@);
        lemma_same_name_is_an_equivalence(a, b, "Siren"@);
        lemma_same_name_is_an_equivalence(a, b, "MatchTitle"@);
    }

    /// Reads the name of a global component.
    pub fn from_param(param: &str) -> (outcome: Result<GlobalComponent, ParseError>)
        ensures
            outcome == (match GlobalComponent::named(param@) {
                Some(component) => Ok::<GlobalComponent, ParseError>(component),
                None => Err(ParseError::VariantNotFound),
            }),
    {
        if eq_ignore_ascii_case(param, "GameClock") {
            Ok(GlobalComponent::GameClock)
        } else if eq_ignore_ascii_case(param, "ShotClock") {
            Ok(GlobalComponent::ShotClock)
        } else if eq_ignore_ascii_case(param, "StoppageClock") {
            Ok(GlobalComponent::StoppageClock)
        } else if eq_ignore_ascii_case(param, "Period") {
            Ok(GlobalComponent::Period)
        } else if eq_ignore_ascii_case(param, "Siren") {
            Ok(GlobalComponent::Siren)
        } else if eq_ignore_ascii_case(param, "MatchTitle") {
            Ok(GlobalComponent::MatchTitle)
        } else {
            Err(ParseError::VariantNotFound)
        }
    }

    /// The kind of each global component.
    pub open spec fn kind(self) -> Kind {
        match self {
            GlobalComponent::GameClock => Kind::Clock,
            GlobalComponent::ShotClock => Kind::Clock,
            GlobalComponent::StoppageClock => Kind::Clock,
            GlobalComponent::Period => Kind::Counter,
            GlobalComponent::Siren => Kind::Toggle,
            GlobalComponent::MatchTitle => Kind::Label,
        }
    }

    pub fn is_clock(&self) -> (b: bool)
        ensures
            b == (self.kind() == Kind::Clock),
    {
        matches!(
            self,
            GlobalComponent::GameClock | GlobalComponent::ShotClock | GlobalComponent::StoppageClock
        )
    }

    pub fn is_counter(&self) -> (b: bool)
        ensures
            b == (self.kind() == Kind::Counter),
    {
        matches!(self, GlobalComponent::Period)
    }

    pub fn is_toggle(&self) -> (b: bool)
        ensures
            b == (self.kind() == Kind::Toggle),
    {
        matches!(self, GlobalComponent::Siren)
    }

    pub fn is_label(&self) -> (b: bool)
        ensures
            b == (self.kind() == Kind::Label),
    {
        matches!(self, GlobalComponent::MatchTitle)
    }
}

impl TeamComponent {
    /// The team component that `param` names, if it names one.
    pub open spec fn named(param: Seq<char>) -> Option<TeamComponent> {
        if same_name(param, "InferiorityClock"@) {
            Some(TeamComponent::InferiorityClock)
        } else if same_name(param, "Score"@) {
            Some(TeamComponent::Score)
        } else if same_name(param, "TeamFouls"@) {
            Some(TeamComponent::TeamFouls)
        } else if same_name(param, "TimeOutWarning"@) {
            Some(TeamComponent::TimeOutWarning)
        } else if same_name(param, "TeamFoulWarning"@) {
            Some(TeamComponent::TeamFoulWarning)
        } else if same_name(param, "TeamName"@) {
            Some(TeamComponent::TeamName)
        } else {
            None
        }
    }

    /// Two texts that differ only in the case of letters name the same team
    /// component, or both name none.
    pub proof fn lemma_named_whatever_the_case(a: Seq<char>, b: Seq<char>)
        requires
            same_name(a, b),
        ensures
            TeamComponent::named(a) == TeamComponent::named(b),
    {
        lemma_same_name_is_an_equivalence(a, b, "InferiorityClock"@);
        lemma_same_name_is_an_equivalence(a, b, "Score"@);
        lemma_same_name_is_an_equivalence(a, b, "TeamFouls"@);
        lemma_same_name_is_an_equivalence(a, b, "TimeOutWarning"@);
        lemma_same_name_is_an_equivalence(a, b, "TeamFoulWarning"@);
        lemma_same_name_is_an_equivalence(a, b, "TeamName"@);
    }

    /// Reads the name of a team component.
    pub fn from_param(param: &str) -> (outcome: Result<TeamComponent, ParseError>)
        ensures
            outcome == (match TeamComponent::named(param@) {
                Some(component) => Ok::<TeamComponent, ParseError>(component),
                None => Err(ParseError::VariantNotFound),
            }),
    {
        if eq_ignore_ascii_case(param, "InferiorityClock") {
            Ok(TeamComponent::InferiorityClock)
        } else if eq_ignore_ascii_case(param, "Score") {
            Ok(TeamComponent::Score)
        } else if eq_ignore_ascii_case(param, "TeamFouls") {
            Ok(TeamComponent::TeamFouls)
        } else if eq_ignore_ascii_case(param, "TimeOutWarning") {
            Ok(TeamComponent::TimeOutWarning)
        } else if eq_ignore_ascii_case(param, "TeamFoulWarning") {
            Ok(TeamComponent::TeamFoulWarning)
        } else if eq_ignore_ascii_case(param, "TeamName") {
            Ok(TeamComponent::TeamName)
        } else {
            Err(ParseError::VariantNotFound)
        }
    }

    /// The kind of each team component.
    pub open spec fn kind(self) -> Kind {
        match self {
            TeamComponent::InferiorityClock => Kind::Clock,
            TeamComponent::Score => Kind::Counter,
            TeamComponent::TeamFouls => Kind::Counter,
            TeamComponent::TimeOutWarning => Kind::Toggle,
            TeamComponent::TeamFoulWarning => Kind::Toggle,
            TeamComponent::TeamName => Kind::Label,
        }
    }

    pub fn is_clock(&self) -> (b: bool)
        ensures
            b == (self.kind() == Kind::Clock),
    {
        matches!(self, TeamComponent::InferiorityClock)
    }

    pub fn is_counter(&self) -> (b: bool)
        ensures
            b == (self.kind() == Kind::Counter),
    {
        matches!(self, TeamComponent::Score | TeamComponent::TeamFouls)
    }

    pub fn is_toggle(&self) -> (b: bool)
        ensures
            b == (self.kind() == Kind::Toggle),
    {
        matches!(self, TeamComponent::TimeOutWarning | TeamComponent::TeamFoulWarning)
    }

    pub fn is_label(&self) -> (b: bool)
        ensures
            b == (self.kind() == Kind::Label),
    {
        matches!(self, TeamComponent::TeamName)
    }
}

impl Component {
    /// The kind of the component addressed, if the address names one.
    pub open spec fn kind(self) -> Option<Kind> {
        match self {
            Component::All => None,
            Component::Global(c) => Some(c.kind()),
            Component::Home(c) => Some(c.kind()),
            Component::Away(c) => Some(c.kind()),
        }
    }

    /// Whether an envelope addressed to `event_component` concerns the
    /// component `self`: it does when it names this component or `All`.
    pub open spec fn concerns(self, event_component: Component) -> bool {
        self == event_component || event_component == Component::All
    }

    pub fn is_clock(&self) -> (b: bool)
        ensures
            b == (self.kind() == Some(Kind::Clock)),
    {
        match self {
            Component::Global(c) => c.is_clock(),
            Component::Home(c) | Component::Away(c) => c.is_clock(),
            _ => false,
        }
    }

    pub fn is_counter(&self) -> (b: bool)
        ensures
            b == (self.kind() == Some(Kind::Counter)),
    {
        match self {
            Component::Global(c) => c.is_counter(),
            Component::Home(c) | Component::Away(c) => c.is_counter(),
            _ => false,
        }
    }

    pub fn is_toggle(&self) -> (b: bool)
        ensures
            b == (self.kind() == Some(Kind::Toggle)),
    {
        match self {
            Component::Global(c) => c.is_toggle(),
            Component::Home(c) | Component::Away(c) => c.is_toggle(),
            _ => false,
        }
    }

    pub fn is_label(&self) -> (b: bool)
        ensures
            b == (self.kind() == Some(Kind::Label)),
    {
        match self {
            Component::Global(c) => c.is_label(),
            Component::Home(c) | Component::Away(c) => c.is_label(),
            _ => false,
        }
    }

    pub fn is_event_component_relevant(&self, event_component: &Component) -> (b: bool)
        ensures
            b == self.concerns(*event_component),
    {
        *self == *event_component || *event_component == Component::All
    }
}

/// What a clock reports of itself: its state as it stands, and the time
/// that remains on it at the instant of the report.
#[derive(Debug, Clone, Copy, PartialEq, Eq)]
pub struct ClockData {
    pub state: ClockState,
    pub last_state_change: Instant,
    pub last_time_remaining: Duration,
    pub time_remaining: Duration,
}

/// What a component reports of itself.
#[derive(Debug, Clone, PartialEq, Eq)]
pub enum Data {
    Clock(ClockData),
    Counter(u64),
    /// Whether the toggle is on.
    Toggle(bool),
    Label(String),
}

/// The reply of one component to a request for its state.
#[derive(Debug, Clone, PartialEq, Eq)]
pub struct Snapshot {
    pub component: Component,
    pub name: String,
    pub data: Data,
}

/// What a component does about one envelope, besides changing its own
/// state: the notices it hands back for publication, in order, each to go
/// out in an envelope of its own, and the report it sends back if the
/// envelope asked for one.
#[derive(Debug)]
pub struct Reaction {
    pub publish: Vec<Notice>,
    pub reply: Option<Snapshot>,
}

impl Reaction {
    /// The reaction of a component that neither publishes nor replies.
    pub fn silent() -> (reaction: Reaction)
        ensures
            reaction.publish@ == Seq::<Notice>::empty(),
            reaction.reply is None,
    {
        Reaction { publish: Vec::new(), reply: None }
    }

    /// The reaction of a component that only reports `snapshot`.
    pub fn reply(snapshot: Snapshot) -> (reaction: Reaction)
        ensures
            reaction.publish@ == Seq::<Notice>::empty(),
            reaction.reply == Some(snapshot),
    {
        Reaction { publish: Vec::new(), reply: Some(snapshot) }
    }
}

/// Whether an envelope asks the component `component` for its state.
pub open spec fn asks_for_state(component: Component, notice: Notice) -> bool {
    notice.event == Event::SnapshotRequest && component.concerns(notice.component)
}

/// Decides [`asks_for_state`].
pub fn is_state_request(component: &Component, log_event: &LogEvent) -> (asks: bool)
    ensures
        asks == asks_for_state(*component, log_event.notice()),
{
    match log_event.event {
        Event::SnapshotRequest => component.is_event_component_relevant(&log_event.component),
        _ => false,
    }
}

/// Something that takes envelopes: an actor.
pub trait EventListener: Sized {
    /// The actor after it has taken `notice`.
    spec fn after(self, notice: Notice) -> Self;

    /// The notices that the actor hands back for publication on account of
    /// `notice`, in order.
    spec fn publishes(self, notice: Notice) -> Seq<Notice>;

    /// The report that the actor sends back on account of `notice`.
    spec fn answers(self, notice: Notice) -> Option<Snapshot>;

    /// Takes one envelope.
    fn notify(&mut self, log_event: &LogEvent) -> (reaction: Reaction)
        ensures
            *final(self) == old(self).after(log_event.notice()),
            reaction.publish@ == old(self).publishes(log_event.notice()),
            reaction.reply == old(self).answers(log_event.notice()),
    ;
}

/// An actor of a scoreboard: it takes envelopes and reports its state.
pub trait ScoreboardComponent: EventListener {
    /// The address of the actor.
    spec fn address(self) -> Component;

    /// What the actor reports of itself at the instant `now`.
    spec fn report_at(self, now: Instant) -> Snapshot;

    /// The address of the actor.
    fn identity(&self) -> (component: Component)
        ensures
            component == self.address(),
    ;

    /// Reports the state of the actor at the instant `now`.
    fn get_data(&self, now: Instant) -> (snapshot: Snapshot)
        ensures
            snapshot == self.report_at(now),
    ;

    /// An actor reports under its own address, and answers exactly the
    /// requests for state that concern it, each with its report as of the
    /// request's timestamp.
    proof fn lemma_answers_with_report(self, notice: Notice)
        ensures
            self.report_at(notice.timestamp).component == self.address(),
            self.answers(notice) == (if asks_for_state(self.address(), notice) {
                Some(self.report_at(notice.timestamp))
            } else {
                None
            }),
    ;
}

} // verus!
