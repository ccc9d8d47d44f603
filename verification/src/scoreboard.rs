//! The scoreboard as a whole: its actors, the queue of envelopes that are
//! on their way to them, and the record of those that were delivered.
//!
//! Envelopes are delivered one at a time, in the order they were submitted
//! or published, and each one to every actor; an actor that an envelope
//! does not concern ignores it.

use vstd::prelude::*;
use crate::component::clock::{
    ClockReading, ExpiryWatcher, GameClock, GameDependentClock, StoppageClock,
};
use crate::component::counter::{Counter, TeamFoulCounter};
use crate::component::label::Label;
use crate::component::toggle::{Siren, Toggle};
use crate::component::{
    asks_for_state, Component, EventListener, GlobalComponent, Kind, Reaction,
    ScoreboardComponent, Snapshot, TeamComponent,
};
use crate::event::states::{ClockEvent, ToggleState};
use crate::event::{Event, EventLogger, LogEvent, Notice};
use crate::intake::Rejected;
use crate::snapshot::{
    collect_all, identities, is_complete, is_tidy, lemma_one_entry_per_component,
};
use crate::time::Instant;

verus! {

/// Any one of the actors that a scoreboard can hold.
#[derive(Debug)]
pub enum Actor {
    GameClock(GameClock),
    GameDependentClock(GameDependentClock),
    StoppageClock(StoppageClock),
    Counter(Counter),
    TeamFoulCounter(TeamFoulCounter),
    Label(Label),
    Toggle(Toggle),
    Siren(Siren),
}

impl Actor {
    /// The watcher that goes with the actor: clocks have one, other actors
    /// have none.
    pub open spec fn watched_by(self) -> Option<ExpiryWatcher> {
        match self {
            Actor::GameClock(_) => Some(
                ExpiryWatcher { component: GameClock::component(), activate_siren: true },
            ),
            Actor::GameDependentClock(actor) => Some(
                ExpiryWatcher { component: actor.component, activate_siren: false },
            ),
            Actor::StoppageClock(actor) => Some(
                ExpiryWatcher { component: actor.component, activate_siren: true },
            ),
            _ => None,
        }
    }

    /// Computes [`Actor::watched_by`].
    pub fn watcher(&self) -> (watcher: Option<ExpiryWatcher>)
        ensures
            watcher == self.watched_by(),
    {
        match self {
            Actor::GameClock(actor) => Some(actor.watcher()),
            Actor::GameDependentClock(actor) => Some(actor.watcher()),
            Actor::StoppageClock(actor) => Some(actor.watcher()),
            _ => None,
        }
    }
}

impl Actor {
    /// A request for state changes no actor and makes none publish.
    pub proof fn lemma_request_changes_nothing(self, notice: Notice)
        requires
            notice.event == Event::SnapshotRequest,
        ensures
            self.after(notice) == self,
            self.publishes(notice) == Seq::<Notice>::empty(),
    {
        match self {
            Actor::GameClock(actor) => actor.clock.lemma_showing(),
            Actor::GameDependentClock(actor) => actor.clock.lemma_showing(),
            Actor::StoppageClock(actor) => actor.clock.lemma_showing(),
            _ => {},
        }
    }
}

impl EventListener for Actor {
    open spec fn after(self, notice: Notice) -> Actor {
        match self {
            Actor::GameClock(actor) => Actor::GameClock(actor.after(notice)),
            Actor::GameDependentClock(actor) => Actor::GameDependentClock(actor.after(notice)),
            Actor::StoppageClock(actor) => Actor::StoppageClock(actor.after(notice)),
            Actor::Counter(actor) => Actor::Counter(actor.after(notice)),
            Actor::TeamFoulCounter(actor) => Actor::TeamFoulCounter(actor.after(notice)),
            Actor::Label(actor) => Actor::Label(actor.after(notice)),
            Actor::Toggle(actor) => Actor::Toggle(actor.after(notice)),
            Actor::Siren(actor) => Actor::Siren(actor.after(notice)),
        }
    }

    open spec fn publishes(self, notice: Notice) -> Seq<Notice> {
        match self {
            Actor::GameClock(actor) => actor.publishes(notice),
            Actor::GameDependentClock(actor) => actor.publishes(notice),
            Actor::StoppageClock(actor) => actor.publishes(notice),
            Actor::Counter(actor) => actor.publishes(notice),
            Actor::TeamFoulCounter(actor) => actor.publishes(notice),
            Actor::Label(actor) => actor.publishes(notice),
            Actor::Toggle(actor) => actor.publishes(notice),
            Actor::Siren(actor) => actor.publishes(notice),
        }
    }

    open spec fn answers(self, notice: Notice) -> Option<Snapshot> {
        match self {
            Actor::GameClock(actor) => actor.answers(notice),
            Actor::GameDependentClock(actor) => actor.answers(notice),
            Actor::StoppageClock(actor) => actor.answers(notice),
            Actor::Counter(actor) => actor.answers(notice),
            Actor::TeamFoulCounter(actor) => actor.answers(notice),
            Actor::Label(actor) => actor.answers(notice),
            Actor::Toggle(actor) => actor.answers(notice),
            Actor::Siren(actor) => actor.answers(notice),
        }
    }

    fn notify(&mut self, log_event: &LogEvent) -> (reaction: Reaction)
        ensures
            *final(self) == old(self).after(log_event.notice()),
            reaction.publish@ == old(self).publishes(log_event.notice()),
            reaction.reply == old(self).answers(log_event.notice()),
    {
        match self {
            Actor::GameClock(actor) => actor.notify(log_event),
            Actor::GameDependentClock(actor) => actor.notify(log_event),
            Actor::StoppageClock(actor) => actor.notify(log_event),
            Actor::Counter(actor) => actor.notify(log_event),
            Actor::TeamFoulCounter(actor) => actor.notify(log_event),
            Actor::Label(actor) => actor.notify(log_event),
            Actor::Toggle(actor) => actor.notify(log_event),
            Actor::Siren(actor) => actor.notify(log_event),
        }
    }
}

impl ScoreboardComponent for Actor {
    open spec fn address(self) -> Component {
        match self {
            Actor::GameClock(actor) => actor.address(),
            Actor::GameDependentClock(actor) => actor.address(),
            Actor::StoppageClock(actor) => actor.address(),
            Actor::Counter(actor) => actor.address(),
            Actor::TeamFoulCounter(actor) => actor.address(),
            Actor::Label(actor) => actor.address(),
            Actor::Toggle(actor) => actor.address(),
            Actor::Siren(actor) => actor.address(),
        }
    }

    open spec fn report_at(self, now: Instant) -> Snapshot {
        match self {
            Actor::GameClock(actor) => actor.report_at(now),
            Actor::GameDependentClock(actor) => actor.report_at(now),
            Actor::StoppageClock(actor) => actor.report_at(now),
            Actor::Counter(actor) => actor.report_at(now),
            Actor::TeamFoulCounter(actor) => actor.report_at(now),
            Actor::Label(actor) => actor.report_at(now),
            Actor::Toggle(actor) => actor.report_at(now),
            Actor::Siren(actor) => actor.report_at(now),
        }
    }

    fn identity(&self) -> (component: Component)
        ensures
            component == self.address(),
    {
        match self {
            Actor::GameClock(actor) => actor.identity(),
            Actor::GameDependentClock(actor) => actor.identity(),
            Actor::StoppageClock(actor) => actor.identity(),
            Actor::Counter(actor) => actor.identity(),
            Actor::TeamFoulCounter(actor) => actor.identity(),
            Actor::Label(actor) => actor.identity(),
            Actor::Toggle(actor) => actor.identity(),
            Actor::Siren(actor) => actor.identity(),
        }
    }

    fn get_data(&self, now: Instant) -> (snapshot: Snapshot)
        ensures
            snapshot == self.report_at(now),
    {
        match self {
            Actor::GameClock(actor) => actor.get_data(now),
            Actor::GameDependentClock(actor) => actor.get_data(now),
            Actor::StoppageClock(actor) => actor.get_data(now),
            Actor::Counter(actor) => actor.get_data(now),
            Actor::TeamFoulCounter(actor) => actor.get_data(now),
            Actor::Label(actor) => actor.get_data(now),
            Actor::Toggle(actor) => actor.get_data(now),
            Actor::Siren(actor) => actor.get_data(now),
        }
    }

    proof fn lemma_answers_with_report(self, notice: Notice)
        ensures
            self.report_at(notice.timestamp).component == self.address(),
            self.answers(notice) == (if asks_for_state(self.address(), notice) {
                Some(self.report_at(notice.timestamp))
            } else {
                None
            }),
    {
    }
}

/// The actors after `notice` has been delivered to each of them.
pub open spec fn deliver(actors: Seq<Actor>, notice: Notice) -> Seq<Actor> {
    actors.map_values(|actor: Actor| actor.after(notice))
}

/// The notices that the actors hand back for publication on account of
/// `notice`, those of the first actor first.
pub open spec fn published(actors: Seq<Actor>, notice: Notice) -> Seq<Notice>
    decreases actors.len(),
{
    if actors.len() == 0 {
        Seq::empty()
    } else {
        published(actors.drop_last(), notice) + actors.last().publishes(notice)
    }
}

/// The reports that the actors send back on account of `notice`, that
/// of the first actor first.
pub open spec fn replies(actors: Seq<Actor>, notice: Notice) -> Seq<Snapshot>
    decreases actors.len(),
{
    if actors.len() == 0 {
        Seq::empty()
    } else {
        match actors.last().answers(notice) {
            Some(snapshot) => replies(actors.drop_last(), notice).push(snapshot),
            None => replies(actors.drop_last(), notice),
        }
    }
}

/// What each of the actors reports of itself at the instant `now`.
pub open spec fn reports(actors: Seq<Actor>, now: Instant) -> Seq<Snapshot> {
    actors.map_values(|actor: Actor| actor.report_at(now))
}

/// The addresses of the actors, in order.
pub open spec fn addresses(actors: Seq<Actor>) -> Seq<Component> {
    actors.map_values(|actor: Actor| actor.address())
}

/// A request for state addressed to all is answered by every actor, each
/// with its own report as of the request's timestamp: one entry per actor,
/// under the actor's address.
pub proof fn lemma_everyone_answers(actors: Seq<Actor>, notice: Notice)
    requires
        notice.event == Event::SnapshotRequest,
        notice.component == Component::All,
    ensures
        replies(actors, notice) == reports(actors, notice.timestamp),
        identities(replies(actors, notice)) == addresses(actors),
    decreases actors.len(),
{
    if actors.len() > 0 {
        lemma_everyone_answers(actors.drop_last(), notice);
        actors.last().lemma_answers_with_report(notice);
    }
    lemma_reports_are_addressed(actors, notice.timestamp);
}

/// A view of the scoreboard holds each actor exactly once, however many
/// requests overlap: if no two actors share an address and the reports
/// offered to a collector that expects all of them include those that
/// answer its own request, addressed to all, then whatever else is offered
/// besides, and in whatever order, the collector ends up complete, with as
/// many entries as there are actors and no address twice.
pub proof fn lemma_view_holds_each_actor_once(
    actors: Seq<Actor>,
    request: Notice,
    offers: Seq<Snapshot>,
)
    requires
        request.event == Event::SnapshotRequest,
        request.component == Component::All,
        addresses(actors).no_duplicates(),
        forall|i: int|
            0 <= i < actors.len() ==> offers.contains(#[trigger] replies(actors, request)[i]),
    ensures
        is_complete(addresses(actors), collect_all(addresses(actors), offers)),
        is_tidy(addresses(actors), collect_all(addresses(actors), offers)),
        collect_all(addresses(actors), offers).len() == actors.len(),
{
    let expected = addresses(actors);
    let answers = replies(actors, request);
    lemma_everyone_answers(actors, request);
    assert forall|component: Component| #[trigger] expected.contains(component) implies identities(
        offers,
    ).contains(component) by {
        let i = choose|i: int| 0 <= i < expected.len() && expected[i] == component;
        let j = choose|j: int| 0 <= j < offers.len() && offers[j] == answers[i];
        assert(identities(offers)[j] == component);
    }
    lemma_one_entry_per_component(expected, offers);
}

/// Every report carries the address of the actor that made it.
pub proof fn lemma_reports_are_addressed(actors: Seq<Actor>, now: Instant)
    ensures
        identities(reports(actors, now)) == addresses(actors),
{
    assert forall|i: int| 0 <= i < actors.len() implies identities(reports(actors, now))[i]
        == addresses(actors)[i] by {
        actors[i].lemma_answers_with_report(
            Notice {
                timestamp: now,
                component: Component::All,
                event: Event::SnapshotRequest,
            },
        );
    }
}

/// Whether `actor` is a clock that follows the game clock, as it is when
/// constructed at the instant `now`.
pub open spec fn is_new_dependent_clock(
    actor: Actor,
    component: Component,
    name: Seq<char>,
    now: Instant,
) -> bool {
    &&& actor matches Actor::GameDependentClock(clock)
    &&& clock.component == component
    &&& clock.clock.name@ == name
    &&& clock.clock@ == ClockReading::stopped_at_zero(now@)
}

/// Whether `actor` is a plain counter as it is when constructed with
/// `value`.
pub open spec fn is_new_counter(
    actor: Actor,
    component: Component,
    name: Seq<char>,
    value: u64,
) -> bool {
    &&& actor matches Actor::Counter(counter)
    &&& counter.component == component
    &&& counter.counter.name@ == name
    &&& counter.counter.value == value
    &&& counter.counter.orig_value == value
}

/// Whether `actor` is a team's foul counter as it is when constructed.
pub open spec fn is_new_foul_counter(actor: Actor, component: Component, name: Seq<char>) -> bool {
    &&& actor matches Actor::TeamFoulCounter(counter)
    &&& counter.component == component
    &&& counter.counter.name@ == name
    &&& counter.counter.value == 0
    &&& counter.counter.orig_value == 0
}

/// Whether `actor` is a toggle as it is when constructed.
pub open spec fn is_new_toggle(actor: Actor, component: Component, name: Seq<char>) -> bool {
    &&& actor matches Actor::Toggle(toggle)
    &&& toggle.component == component
    &&& toggle.toggle.name@ == name
    &&& toggle.toggle.state == ToggleState::Inactive
}

/// Whether `actor` is a label as it is when constructed with `value`.
pub open spec fn is_new_label(
    actor: Actor,
    component: Component,
    name: Seq<char>,
    value: Seq<char>,
) -> bool {
    &&& actor matches Actor::Label(label)
    &&& label.component == component
    &&& label.label.name@ == name
    &&& label.label.value@ == value
    &&& label.label.orig_value@ == value
}

/// Whether `actors` is the standard set of actors, as constructed at the
/// instant `now`: the game clock and the shot clock, the siren, the period
/// counter, which starts at one, and for each team its score, its fouls, its
/// two warnings and its name.
pub open spec fn is_standard_set(actors: Seq<Actor>, now: Instant) -> bool {
    &&& actors.len() == 14
    &&& actors[0] matches Actor::GameClock(clock) && clock.clock.name@ == "game_clock"@
        && clock.clock@ == ClockReading::stopped_at_zero(now@)
    &&& is_new_dependent_clock(
        actors[1],
        Component::Global(GlobalComponent::ShotClock),
        "shot_clock"@,
        now,
    )
    &&& actors[2] matches Actor::Siren(siren) && siren.state.name@ == "siren"@
        && siren.state.state == ToggleState::Inactive
    &&& is_new_counter(actors[3], Component::Global(GlobalComponent::Period), "period"@, 1)
    &&& is_new_counter(actors[4], Component::Home(TeamComponent::Score), "home_score"@, 0)
    &&& is_new_counter(actors[5], Component::Away(TeamComponent::Score), "away_score"@, 0)
    &&& is_new_foul_counter(actors[6], Component::Home(TeamComponent::TeamFouls), "home_tf"@)
    &&& is_new_foul_counter(actors[7], Component::Away(TeamComponent::TeamFouls), "away_tf"@)
    &&& is_new_toggle(
        actors[8],
        Component::Home(TeamComponent::TeamFoulWarning),
        "home_team_foul_warning"@,
    )
    &&& is_new_toggle(
        actors[9],
        Component::Away(TeamComponent::TeamFoulWarning),
        "away_team_foul_warning"@,
    )
    &&& is_new_toggle(
        actors[10],
        Component::Home(TeamComponent::TimeOutWarning),
        "home_team_timeout"@,
    )
    &&& is_new_toggle(
        actors[11],
        Component::Away(TeamComponent::TimeOutWarning),
        "away_team_timeout"@,
    )
    &&& is_new_label(actors[12], Component::Home(TeamComponent::TeamName), "home"@, "Home"@)
    &&& is_new_label(actors[13], Component::Away(TeamComponent::TeamName), "away"@, "Away"@)
}

/// The addresses of the standard set of actors, in order.
pub open spec fn standard_addresses() -> Seq<Component> {
    seq![
        Component::Global(GlobalComponent::GameClock),
        Component::Global(GlobalComponent::ShotClock),
        Component::Global(GlobalComponent::Siren),
        Component::Global(GlobalComponent::Period),
        Component::Home(TeamComponent::Score),
        Component::Away(TeamComponent::Score),
        Component::Home(TeamComponent::TeamFouls),
        Component::Away(TeamComponent::TeamFouls),
        Component::Home(TeamComponent::TeamFoulWarning),
        Component::Away(TeamComponent::TeamFoulWarning),
        Component::Home(TeamComponent::TimeOutWarning),
        Component::Away(TeamComponent::TimeOutWarning),
        Component::Home(TeamComponent::TeamName),
        Component::Away(TeamComponent::TeamName),
    ]
}

/// The standard set holds one actor per address, no address occurs twice
/// among its actors, and its foul counters stand at the addresses of
/// counters.
pub proof fn lemma_standard_set_is_addressed_once(actors: Seq<Actor>, now: Instant)
    requires
        is_standard_set(actors, now),
    ensures
        addresses(actors) == standard_addresses(),
        addresses(actors).no_duplicates(),
        is_well_addressed(actors),
{
}

/// The notices that a series of envelopes carry, in order.
pub open spec fn notices(envelopes: Seq<LogEvent>) -> Seq<Notice> {
    envelopes.map_values(|envelope: LogEvent| envelope.notice())
}

/// The scoreboard as a value: its actors, and what the envelopes say that
/// wait to be delivered and that were delivered, oldest first. Identifiers
/// are left out: no actor goes by them.
pub struct Board {
    pub actors: Seq<Actor>,
    pub pending: Seq<Notice>,
    pub event_log: Seq<Notice>,
}

impl Board {
    /// Whether no envelope waits.
    pub open spec fn is_idle(self) -> bool {
        self.pending.len() == 0
    }

    /// The board with `notice` queued behind the envelopes that wait.
    pub open spec fn with_pending(self, notice: Notice) -> Board {
        Board { pending: self.pending.push(notice), ..self }
    }

    /// The board after the envelope that has waited longest has been
    /// delivered to every actor: what the actors publish joins the end of
    /// the queue, and the envelope goes on record. An idle board stays as
    /// it is.
    pub open spec fn step(self) -> Board {
        if self.is_idle() {
            self
        } else {
            Board {
                actors: deliver(self.actors, self.pending[0]),
                pending: self.pending.skip(1) + published(self.actors, self.pending[0]),
                event_log: self.event_log.push(self.pending[0]),
            }
        }
    }

    /// Delivering no more envelopes than wait puts exactly those on
    /// record, oldest first, and leaves the others waiting, ahead of
    /// whatever the actors publish meanwhile.
    pub proof fn lemma_steps_record_what_waited(self, count: nat)
        requires
            count <= self.pending.len(),
        ensures
            self.steps(count).event_log == self.event_log + self.pending.take(count as int),
            self.steps(count).pending.len() >= self.pending.len() - count,
            self.steps(count).pending.take(self.pending.len() - count) == self.pending.skip(
                count as int,
            ),
        decreases count,
    {
        if count > 0 {
            let earlier = self.steps((count - 1) as nat);
            self.lemma_steps_record_what_waited((count - 1) as nat);
            assert(earlier.pending[0] == earlier.pending.take(self.pending.len() - count + 1)[0]);
            assert(self.steps(count).event_log =~= self.event_log + self.pending.take(
                count as int,
            ));
            assert(self.steps(count).pending.take(self.pending.len() - count)
                =~= earlier.pending.take(self.pending.len() - count + 1).skip(1));
            assert(self.steps(count).pending.take(self.pending.len() - count)
                =~= self.pending.skip(count as int));
        } else {
            assert(self.event_log + self.pending.take(0) =~= self.event_log);
            assert(self.pending.take(self.pending.len() as int) =~= self.pending.skip(0));
        }
    }

    /// The board after `count` deliveries.
    pub open spec fn steps(self, count: nat) -> Board
        decreases count,
    {
        if count == 0 {
            self
        } else {
            self.steps((count - 1) as nat).step()
        }
    }
}

/// Whether every team's foul counter among `actors` stands at the address
/// of a counter.
pub open spec fn is_well_addressed(actors: Seq<Actor>) -> bool {
    forall|i: int|
        0 <= i < actors.len() ==> ((#[trigger] actors[i]) matches Actor::TeamFoulCounter(counter)
            ==> counter.component.kind() == Some(Kind::Counter))
}

/// Whether `notice` is of the two sorts that actors publish: a command
/// for a toggle addressed to a toggle, or a plain stop for the game clock.
pub open spec fn is_consequence(notice: Notice) -> bool {
    ||| notice.event is Toggle && notice.component.kind() == Some(Kind::Toggle)
    ||| notice.event == Event::Clock(ClockEvent::Stop(None)) && notice.component
        == GameClock::component()
}

/// Whatever actors publish is a consequence.
pub proof fn lemma_published_are_consequences(actors: Seq<Actor>, notice: Notice)
    ensures
        forall|i: int|
            0 <= i < published(actors, notice).len() ==> is_consequence(
                #[trigger] published(actors, notice)[i],
            ),
    decreases actors.len(),
{
    if actors.len() > 0 {
        let rest = published(actors.drop_last(), notice);
        let last = actors.last().publishes(notice);
        lemma_published_are_consequences(actors.drop_last(), notice);
        assert forall|i: int| 0 <= i < last.len() implies is_consequence(#[trigger] last[i]) by {}
        assert forall|i: int| 0 <= i < published(actors, notice).len() implies is_consequence(
            #[trigger] published(actors, notice)[i],
        ) by {
            if i < rest.len() {
                assert(published(actors, notice)[i] == rest[i]);
            } else {
                assert(published(actors, notice)[i] == last[i - rest.len()]);
            }
        }
    }
}

/// Among well-addressed actors a consequence has no consequences of its
/// own, and delivering an envelope leaves the actors well addressed.
pub proof fn lemma_consequences_end_there(actors: Seq<Actor>, notice: Notice)
    requires
        is_well_addressed(actors),
    ensures
        is_consequence(notice) ==> published(actors, notice) == Seq::<Notice>::empty(),
        is_well_addressed(deliver(actors, notice)),
    decreases actors.len(),
{
    if actors.len() > 0 {
        let rest = actors.drop_last();
        assert(is_well_addressed(rest));
        lemma_consequences_end_there(rest, notice);
    }
    assert(is_well_addressed(deliver(actors, notice)));
}

impl Board {
    /// Whether only consequences wait.
    pub open spec fn awaits_consequences_only(self) -> bool {
        forall|i: int| 0 <= i < self.pending.len() ==> is_consequence(#[trigger] self.pending[i])
    }

    /// A board of well-addressed actors on which only consequences wait is
    /// idle once each of them has been delivered.
    pub proof fn lemma_consequences_drain(self)
        requires
            is_well_addressed(self.actors),
            self.awaits_consequences_only(),
        ensures
            self.steps(self.pending.len()).is_idle(),
            is_well_addressed(self.steps(self.pending.len()).actors),
        decreases self.pending.len(),
    {
        if self.pending.len() > 0 {
            let next = self.step();
            lemma_consequences_end_there(self.actors, self.pending[0]);
            assert forall|i: int| 0 <= i < next.pending.len() implies is_consequence(
                #[trigger] next.pending[i],
            ) by {}
            next.lemma_consequences_drain();
            self.lemma_steps_from_front(next.pending.len());
        }
    }

    /// Delivering one envelope and then `count` more is delivering
    /// `count + 1`.
    pub proof fn lemma_steps_from_front(self, count: nat)
        ensures
            self.steps(count + 1) == self.step().steps(count),
        decreases count,
    {
        if count > 0 {
            self.lemma_steps_from_front((count - 1) as nat);
        } else {
            assert(self.steps(1) == self.steps(0).step());
        }
    }

    /// Storms cannot arise among well-addressed actors: an envelope that
    /// is submitted to an idle board is dealt with, consequences included,
    /// after one delivery for itself and one for each envelope that the
    /// actors publish on its account.
    pub proof fn lemma_envelope_is_dealt_with(self, notice: Notice)
        requires
            self.is_idle(),
            is_well_addressed(self.actors),
        ensures
            self.with_pending(notice).steps(
                1 + published(self.actors, notice).len(),
            ).is_idle(),
    {
        let submitted = self.with_pending(notice);
        let delivered = submitted.step();
        lemma_published_are_consequences(self.actors, notice);
        lemma_consequences_end_there(self.actors, notice);
        delivered.lemma_consequences_drain();
        submitted.lemma_steps_from_front(delivered.pending.len());
    }
}

/// The scoreboard.
#[derive(Debug)]
pub struct Scoreboard {
    /// The envelopes that were delivered, oldest first.
    pub event_log: Vec<LogEvent>,
    /// The actors, in the order they were added.
    pub components: Vec<Actor>,
    /// The envelopes that wait to be delivered, oldest first.
    pub pending: Vec<LogEvent>,
}

impl View for Scoreboard {
    type V = Board;

    open spec fn view(&self) -> Board {
        Board {
            actors: self.components@,
            pending: notices(self.pending@),
            event_log: notices(self.event_log@),
        }
    }
}

impl Default for Scoreboard {
    /// A scoreboard without actors.
    fn default() -> (scoreboard: Scoreboard)
        ensures
            scoreboard@ == (Board {
                actors: Seq::empty(),
                pending: Seq::empty(),
                event_log: Seq::empty(),
            }),
    {
        Scoreboard::new()
    }
}

impl EventLogger for Scoreboard {
    open spec fn record(self) -> Seq<Notice> {
        self@.event_log
    }

    /// Puts `event`, addressed to `component`, into a new envelope issued
    /// at `now`, submits it (see [`Scoreboard::submit`]) and delivers the
    /// envelopes that waited before it and then the envelope itself, so
    /// that it is on record when the call returns, whether or not an actor
    /// was concerned. What the actors publish on the way is left waiting,
    /// and the reports they send back are dropped.
    fn log_event(&mut self, component: Component, event: Event, now: Instant) -> (outcome: Result<
        (),
        Rejected,
    >)
        ensures
            match outcome {
                Ok(_) => {
                    let notice = Notice { timestamp: now, component, event };
                    &&& event.suits(component)
                    &&& final(self)@ == old(self)@.with_pending(notice).steps(
                        old(self)@.pending.len() + 1,
                    )
                    &&& final(self)@.event_log == old(self)@.event_log + old(self)@.pending
                        + seq![notice]
                    &&& final(self).record().len() > old(self).record().len()
                    &&& final(self).record().last() == notice
                    &&& final(self).record().take(old(self).record().len() as int) == old(
                        self,
                    ).record()
                },
                Err(rejected) => {
                    &&& !event.suits(component)
                    &&& event.kind() == Some(rejected.expected)
                    &&& rejected.target == component
                    &&& *final(self) == *old(self)
                },
            },
    {
        let log_event = LogEvent::new_now(component, event, now);
        match self.submit(log_event) {
            Err(rejected) => Err(rejected),
            Ok(_) => {
                let ghost submitted = self@;
                let count = self.pending.len();
                proof {
                    let notice = Notice { timestamp: now, component, event };
                    assert(submitted == old(self)@.with_pending(notice));
                    assert forall|fewer: nat| fewer < count implies !(#[trigger] submitted.steps(
                        fewer,
                    )).is_idle() by {
                        submitted.lemma_steps_record_what_waited(fewer);
                    }
                    submitted.lemma_steps_record_what_waited(count as nat);
                    assert(submitted.pending.take(count as int) =~= submitted.pending);
                    assert(submitted.pending =~= old(self)@.pending + seq![notice]);
                }
                let delivered = self.settle(count);
                assert(delivered == count);
                Ok(())
            },
        }
    }
}

impl Scoreboard {
    /// A scoreboard without actors.
    pub fn new() -> (scoreboard: Scoreboard)
        ensures
            scoreboard@ == (Board {
                actors: Seq::empty(),
                pending: Seq::empty(),
                event_log: Seq::empty(),
            }),
    {
        let scoreboard =
            Scoreboard { event_log: Vec::new(), components: Vec::new(), pending: Vec::new() };
        proof {
            assert(notices(scoreboard.pending@) =~= Seq::empty());
            assert(notices(scoreboard.event_log@) =~= Seq::empty());
        }
        scoreboard
    }

    /// Adds an actor, which from now on is delivered every envelope.
    pub fn add_component(&mut self, component: Actor)
        ensures
            final(self)@ == (Board {
                actors: old(self)@.actors.push(component),
                ..old(self)@
            }),
    {
        self.components.push(component);
    }

    /// Adds the standard set of actors, constructed at the instant `now`.
    pub fn add_components(&mut self, now: Instant)
        ensures
            final(self)@.actors.len() == old(self)@.actors.len() + 14,
            final(self)@.actors.take(old(self)@.actors.len() as int) == old(self)@.actors,
            is_standard_set(final(self)@.actors.skip(old(self)@.actors.len() as int), now),
            final(self)@.pending == old(self)@.pending,
            final(self)@.event_log == old(self)@.event_log,
    {
        self.components.push(Actor::GameClock(GameClock::new(now)));
        self.components.push(
            Actor::GameDependentClock(
                GameDependentClock::new(
                    Component::Global(GlobalComponent::ShotClock),
                    "shot_clock",
                    now,
                ),
            ),
        );
        self.components.push(Actor::Siren(Siren::new()));
        self.components.push(
            Actor::Counter(Counter::new(Component::Global(GlobalComponent::Period), "period", 1)),
        );
        self.components.push(
            Actor::Counter(Counter::new(Component::Home(TeamComponent::Score), "home_score", 0)),
        );
        self.components.push(
            Actor::Counter(Counter::new(Component::Away(TeamComponent::Score), "away_score", 0)),
        );
        self.components.push(
            Actor::TeamFoulCounter(
                TeamFoulCounter::new(Component::Home(TeamComponent::TeamFouls), "home_tf"),
            ),
        );
        self.components.push(
            Actor::TeamFoulCounter(
                TeamFoulCounter::new(Component::Away(TeamComponent::TeamFouls), "away_tf"),
            ),
        );
        self.components.push(
            Actor::Toggle(
                Toggle::new(
                    Component::Home(TeamComponent::TeamFoulWarning),
                    "home_team_foul_warning",
                ),
            ),
        );
        self.components.push(
            Actor::Toggle(
                Toggle::new(
                    Component::Away(TeamComponent::TeamFoulWarning),
                    "away_team_foul_warning",
                ),
            ),
        );
        self.components.push(
            Actor::Toggle(
                Toggle::new(Component::Home(TeamComponent::TimeOutWarning), "home_team_timeout"),
            ),
        );
        self.components.push(
            Actor::Toggle(
                Toggle::new(Component::Away(TeamComponent::TimeOutWarning), "away_team_timeout"),
            ),
        );
        self.components.push(
            Actor::Label(Label::new(Component::Home(TeamComponent::TeamName), "home", "Home")),
        );
        self.components.push(
            Actor::Label(Label::new(Component::Away(TeamComponent::TeamName), "away", "Away")),
        );
    }

    /// Submits an envelope for delivery. An envelope whose command is meant
    /// for one kind of component and whose address is not of that kind is
    /// turned away, and nothing changes; any other is queued behind those
    /// that already wait.
    pub fn submit(&mut self, log_event: LogEvent) -> (outcome: Result<(), Rejected>)
        ensures
            match outcome {
                Ok(_) => {
                    &&& log_event.event.suits(log_event.component)
                    &&& final(self)@ == old(self)@.with_pending(log_event.notice())
                    &&& final(self).pending@ == old(self).pending@.push(log_event)
                    &&& final(self).event_log == old(self).event_log
                },
                Err(rejected) => {
                    &&& !log_event.event.suits(log_event.component)
                    &&& log_event.event.kind() == Some(rejected.expected)
                    &&& rejected.target == log_event.component
                    &&& *final(self) == *old(self)
                },
            },
    {
        if let Some(expected) = log_event.event.expected_kind() {
            if !log_event.event.is_valid_for(&log_event.component) {
                return Err(Rejected { target: log_event.component, expected });
            }
        }
        self.pending.push(log_event);
        proof {
            assert(notices(self.pending@) =~= notices(old(self).pending@).push(
                log_event.notice(),
            ));
        }
        Ok(())
    }

    /// Delivers the envelope that has waited longest, if one waits, to
    /// every actor, first actor first, and puts it on record. What the
    /// actors hand back for publication joins the end of the queue, each
    /// notice in an envelope of its own whose identifier is not that of
    /// the envelope delivered. Returns the reports that the actors sent
    /// back, or `None` if no envelope waited.
    pub fn deliver_next(&mut self) -> (outcome: Option<Vec<Snapshot>>)
        ensures
            final(self)@ == old(self)@.step(),
            match outcome {
                Some(answers) => {
                    &&& !old(self)@.is_idle()
                    &&& answers@ == replies(old(self)@.actors, old(self)@.pending[0])
                    &&& final(self).event_log@ == old(self).event_log@.push(old(self).pending@[0])
                    &&& final(self).pending@.len() >= old(self).pending@.len() - 1
                    &&& final(self).pending@.take(old(self).pending@.len() - 1) == old(
                        self,
                    ).pending@.skip(1)
                    &&& forall|k: int|
                        old(self).pending@.len() - 1 <= k < final(self).pending@.len() ==> (
                        #[trigger] final(self).pending@[k]).log_id != old(self).pending@[0].log_id
                },
                None => old(self)@.is_idle() && *final(self) == *old(self),
            },
    {
        if self.pending.len() == 0 {
            return None;
        }
        let log_event = self.pending.remove(0);
        let ghost notice = log_event.notice();
        let ghost before = self.components@;
        let ghost waiting = self.pending@;
        let mut answers: Vec<Snapshot> = Vec::new();
        let mut derived: Vec<Notice> = Vec::new();
        let mut i: usize = 0;
        while i < self.components.len()
            invariant
                i <= self.components@.len(),
                self.components@.len() == before.len(),
                forall|j: int| 0 <= j < i ==> self.components@[j] == before[j].after(notice),
                forall|j: int| i <= j < before.len() ==> self.components@[j] == before[j],
                derived@ == published(before.take(i as int), notice),
                answers@ == replies(before.take(i as int), notice),
                notice == log_event.notice(),
                self.pending@ == waiting,
                self.event_log == old(self).event_log,
            decreases self.components@.len() - i,
        {
            let mut reaction = self.components[i].notify(&log_event);
            proof {
                assert(before.take(i + 1).drop_last() =~= before.take(i as int));
            }
            derived.append(&mut reaction.publish);
            match reaction.reply {
                Some(snapshot) => {
                    answers.push(snapshot);
                },
                None => {},
            }
            i += 1;
        }
        proof {
            assert(before.take(i as int) =~= before);
            assert(self.components@ =~= deliver(before, notice));
            assert(waiting =~= old(self).pending@.skip(1));
            assert(notices(waiting) =~= notices(old(self).pending@).skip(1));
        }
        while derived.len() > 0
            invariant
                notices(self.pending@) + derived@ == notices(waiting) + published(before, notice),
                self.pending@.len() >= waiting.len(),
                self.pending@.take(waiting.len() as int) == waiting,
                forall|k: int|
                    waiting.len() <= k < self.pending@.len() ==> (#[trigger] self.pending@[k]).log_id
                        != log_event.log_id,
                self.components@ == deliver(before, notice),
                self.event_log == old(self).event_log,
            decreases derived.len(),
        {
            let ghost queued = self.pending@;
            let ghost left = derived@;
            let next = derived.remove(0);
            self.pending.push(LogEvent::issue(next, &log_event));
            proof {
                assert(notices(self.pending@) =~= notices(queued).push(left[0]));
                assert(notices(self.pending@) + derived@ =~= notices(queued) + left);
                assert(self.pending@.take(waiting.len() as int) =~= queued.take(
                    waiting.len() as int,
                ));
            }
        }
        proof {
            assert(notices(self.pending@) =~= notices(self.pending@) + derived@);
            assert(notices(old(self).event_log@.push(log_event)) =~= notices(
                old(self).event_log@,
            ).push(notice));
        }
        self.event_log.push(log_event);
        Some(answers)
    }

    /// Delivers waiting envelopes, oldest first, until none waits or
    /// `limit` of them have been delivered. Returns how many were
    /// delivered.
    pub fn settle(&mut self, limit: usize) -> (delivered: usize)
        ensures
            delivered <= limit,
            final(self)@ == old(self)@.steps(delivered as nat),
            delivered < limit ==> final(self)@.is_idle(),
            forall|earlier: nat| earlier < delivered ==> !(#[trigger] old(self)@.steps(earlier)).is_idle(),
    {
        let mut delivered: usize = 0;
        while delivered < limit
            invariant
                delivered <= limit,
                self@ == old(self)@.steps(delivered as nat),
                forall|earlier: nat|
                    earlier < delivered ==> !(#[trigger] old(self)@.steps(earlier)).is_idle(),
            decreases limit - delivered,
        {
            match self.deliver_next() {
                Some(_) => {
                    delivered += 1;
                },
                None => {
                    return delivered;
                },
            }
        }
        delivered
    }

    /// Reports the state of every actor at the instant `now`: one entry per
    /// actor, in the order the actors were added.
    pub fn get_data(&self, now: Instant) -> (data: Vec<Snapshot>)
        ensures
            data@ == reports(self@.actors, now),
            identities(data@) == addresses(self@.actors),
    {
        let mut data: Vec<Snapshot> = Vec::new();
        let mut i: usize = 0;
        while i < self.components.len()
            invariant
                i <= self.components@.len(),
                data@ == reports(self.components@.take(i as int), now),
            decreases self.components@.len() - i,
        {
            data.push(self.components[i].get_data(now));
            i += 1;
        }
        proof {
            lemma_reports_are_addressed(self.components@, now);
        }
        data
    }
}

} // verus!
