//! Clocks: the bookkeeping of the time that remains on a clock, and the
//! actors that own one.

use vstd::prelude::*;
use vstd::string::StringExecFns;
use crate::component::{
    asks_for_state, is_state_request, ClockData, Component, Data, EventListener, GlobalComponent,
    Reaction, ScoreboardComponent, Snapshot,
};
use crate::event::states::{ClockEvent, ClockState, ToggleEvent};
use crate::event::{Event, LogEvent, Notice};
use crate::time::{sat_add, sat_sub, Duration, Instant, MAX_NANOS, NANOS_PER_SEC};

verus! {

/// What a clock shows, in numbers: whether it is counting down, the instant
/// of its last change and the time that remained on it at that instant, both
/// in nanoseconds.
pub struct ClockReading {
    pub running: bool,
    pub since: nat,
    pub remaining: nat,
}

impl ClockReading {
    /// A stopped clock with no time on it, last changed at `now`.
    pub open spec fn stopped_at_zero(now: nat) -> ClockReading {
        ClockReading { running: false, since: now, remaining: 0 }
    }

    /// The time that remains on the clock at the instant `now`: a running
    /// clock has lost the time elapsed since its last change, but never more
    /// than it had; a stopped clock has lost nothing.
    pub open spec fn effective_remaining(self, now: nat) -> nat {
        if self.running {
            sat_sub(self.remaining, sat_sub(now, self.since))
        } else {
            self.remaining
        }
    }

    /// The clock after a command for clocks that takes effect at `now`.
    pub open spec fn after_clock_event(self, event: ClockEvent, now: nat) -> ClockReading {
        match event {
            ClockEvent::SetTo(d) => ClockReading { since: now, remaining: d@, ..self },
            ClockEvent::Stop(given) => if self.running {
                ClockReading {
                    running: false,
                    since: now,
                    remaining: match given {
                        Some(d) => d@,
                        None => self.effective_remaining(now),
                    },
                }
            } else {
                self
            },
            ClockEvent::Start(given) => {
                let remaining = match given {
                    Some(d) => d@,
                    None => self.remaining,
                };
                if !self.running && remaining != 0 {
                    ClockReading { running: true, since: now, remaining }
                } else {
                    self
                }
            },
            ClockEvent::Increment(d) => ClockReading {
                since: now,
                remaining: sat_add(self.effective_remaining(now), d@),
                ..self
            },
            ClockEvent::Decrement(d) => ClockReading {
                since: now,
                remaining: sat_sub(self.effective_remaining(now), d@),
                ..self
            },
            ClockEvent::Expired => ClockReading::stopped_at_zero(now),
        }
    }

    /// The clock after any command that takes effect at `now`. Commands for
    /// other kinds of component leave it as it is.
    pub open spec fn after(self, event: Event, now: nat) -> ClockReading {
        match event {
            Event::Reset => ClockReading::stopped_at_zero(now),
            Event::Clock(clock_event) => self.after_clock_event(clock_event, now),
            _ => self,
        }
    }
}

impl ClockReading {
    /// Setting the clock puts exactly the given time on it and dates the
    /// change at the instant of the command, whatever the clock showed
    /// before; whether it counts down does not change.
    pub proof fn lemma_set_fixes_remaining(self, d: Duration, now: nat)
        ensures
            self.after(Event::Clock(ClockEvent::SetTo(d)), now) == (ClockReading {
                running: self.running,
                since: now,
                remaining: d@,
            }),
            self.after(Event::Clock(ClockEvent::SetTo(d)), now).effective_remaining(now) == d@,
    {
    }

    /// While a clock is stopped the time on it is frozen: stopping it and
    /// starting it again, however much later, resumes with the time it was
    /// stopped at, provided any was left.
    pub proof fn lemma_stop_then_start_resumes(self, stopped_at: nat, started_at: nat)
        ensures
            ({
                let stopped = self.after(Event::Clock(ClockEvent::Stop(None)), stopped_at);
                let resumed = stopped.after(Event::Clock(ClockEvent::Start(None)), started_at);
                &&& !stopped.running
                &&& stopped.remaining == self.effective_remaining(stopped_at)
                &&& forall|later: nat| stopped.effective_remaining(later) == stopped.remaining
                &&& stopped.remaining != 0 ==> resumed == (ClockReading {
                    running: true,
                    since: started_at,
                    remaining: stopped.remaining,
                })
                &&& stopped.remaining != 0 ==> resumed.effective_remaining(started_at)
                    == stopped.remaining
            }),
    {
    }

    /// Starting a stopped clock that has no time on it changes nothing.
    pub proof fn lemma_start_without_time_is_noop(self, now: nat)
        requires
            !self.running,
            self.remaining == 0,
        ensures
            self.after(Event::Clock(ClockEvent::Start(None)), now) == self,
    {
    }

    /// Taking more time off a clock than it has leaves exactly nothing on
    /// it, and adding time never puts more on it than the longest span.
    pub proof fn lemma_adjustments_saturate(self, d: Duration, now: nat)
        ensures
            d@ >= self.effective_remaining(now) ==> self.after(
                Event::Clock(ClockEvent::Decrement(d)),
                now,
            ).remaining == 0,
            d@ <= self.effective_remaining(now) ==> self.after(
                Event::Clock(ClockEvent::Decrement(d)),
                now,
            ).remaining == self.effective_remaining(now) - d@,
            self.after(Event::Clock(ClockEvent::Increment(d)), now).remaining <= MAX_NANOS,
            self.effective_remaining(now) + d@ <= MAX_NANOS ==> self.after(
                Event::Clock(ClockEvent::Increment(d)),
                now,
            ).remaining == self.effective_remaining(now) + d@,
    {
    }
}

/// The state of one clock.
#[derive(Debug, Clone)]
pub struct ClockComponent {
    pub name: String,
    pub state: ClockState,
    pub last_state_change: Instant,
    pub last_time_remaining: Duration,
}

impl View for ClockComponent {
    type V = ClockReading;

    open spec fn view(&self) -> ClockReading {
        ClockReading {
            running: self.state == ClockState::Running,
            since: self.last_state_change@,
            remaining: self.last_time_remaining@,
        }
    }
}

impl ClockComponent {
    /// The clock of the given name that shows `reading`.
    pub open spec fn showing(name: String, reading: ClockReading) -> ClockComponent {
        ClockComponent {
            name,
            state: if reading.running {
                ClockState::Running
            } else {
                ClockState::Stopped
            },
            last_state_change: Instant::of_nanos(reading.since),
            last_time_remaining: Duration::of_nanos(reading.remaining),
        }
    }

    /// The clock after a command that takes effect at the instant `at`.
    pub open spec fn after(self, event: Event, at: Instant) -> ClockComponent {
        ClockComponent::showing(self.name, self@.after(event, at@))
    }

    /// What the clock, owned by `component`, reports of itself at the
    /// instant `now`.
    pub open spec fn report_at(self, component: Component, now: Instant) -> Snapshot {
        Snapshot {
            component,
            name: self.name,
            data: Data::Clock(
                ClockData {
                    state: self.state,
                    last_state_change: self.last_state_change,
                    last_time_remaining: self.last_time_remaining,
                    time_remaining: Duration::of_nanos(self@.effective_remaining(now@)),
                },
            ),
        }
    }

    /// A clock is what shows its reading under its name.
    pub proof fn lemma_showing(self)
        ensures
            ClockComponent::showing(self.name, self@) == self,
    {
        Instant::lemma_of_nanos(0, self.last_state_change);
        Duration::lemma_of_nanos(0, self.last_time_remaining);
    }

    /// A stopped clock with no time on it.
    pub fn new(name: String, now: Instant) -> (clock: ClockComponent)
        ensures
            clock@ == ClockReading::stopped_at_zero(now@),
            clock.name == name,
    {
        ClockComponent {
            name,
            state: ClockState::Stopped,
            last_state_change: now,
            last_time_remaining: Duration::from_secs(0),
        }
    }

    /// Applies the command in `event` as of the envelope's timestamp.
    pub fn process_event(&mut self, event: &LogEvent)
        ensures
            final(self)@ == old(self)@.after(event.event, event.timestamp@),
            final(self).name == old(self).name,
            *final(self) == old(self).after(event.event, event.timestamp),
    {
        self.apply(event);
        proof {
            self.lemma_showing();
        }
    }

    /// Applies the command in `event`, stated over what the clock shows.
    fn apply(&mut self, event: &LogEvent)
        ensures
            final(self)@ == old(self)@.after(event.event, event.timestamp@),
            final(self).name == old(self).name,
    {
        if let Event::Reset = &event.event {
            self.state = ClockState::Stopped;
            self.last_state_change = event.timestamp;
            self.last_time_remaining = Duration::from_secs(0);
            return;
        }
        let Event::Clock(clock_event) = &event.event else {
            return;
        };
        let time_elapsed = match self.state {
            ClockState::Running => event.timestamp.duration_since(self.last_state_change),
            ClockState::Stopped => Duration::from_secs(0),
        };
        match (self.state, clock_event) {
            (_, ClockEvent::SetTo(duration)) => {
                self.last_state_change = event.timestamp;
                self.last_time_remaining = *duration;
            },
            (ClockState::Running, ClockEvent::Stop(None)) => {
                self.state = ClockState::Stopped;
                self.last_time_remaining = self.last_time_remaining.saturating_sub(time_elapsed);
                self.last_state_change = event.timestamp;
            },
            (ClockState::Running, ClockEvent::Stop(Some(val))) => {
                self.state = ClockState::Stopped;
                self.last_time_remaining = *val;
                self.last_state_change = event.timestamp;
            },
            (ClockState::Stopped, ClockEvent::Start(None)) if !self.last_time_remaining.is_zero() => {
                self.state = ClockState::Running;
                self.last_state_change = event.timestamp;
            },
            (ClockState::Stopped, ClockEvent::Start(Some(val))) if !val.is_zero() => {
                self.state = ClockState::Running;
                self.last_state_change = event.timestamp;
                self.last_time_remaining = *val;
            },
            (_, ClockEvent::Increment(val)) => {
                self.last_time_remaining = self.last_time_remaining.saturating_sub(
                    time_elapsed,
                ).saturating_add(*val);
                self.last_state_change = event.timestamp;
            },
            (_, ClockEvent::Decrement(val)) => {
                self.last_time_remaining = self.last_time_remaining.saturating_sub(
                    time_elapsed,
                ).saturating_sub(*val);
                self.last_state_change = event.timestamp;
            },
            (_, ClockEvent::Expired) => {
                self.state = ClockState::Stopped;
                self.last_state_change = event.timestamp;
                self.last_time_remaining = Duration::from_secs(0);
            },
            _ => {},
        }
    }

    /// The time that remains on the clock at the instant `now`.
    pub fn get_time_remaining(&self, now: Instant) -> (remaining: Duration)
        ensures
            remaining@ == self@.effective_remaining(now@),
            remaining == Duration::of_nanos(self@.effective_remaining(now@)),
    {
        proof {
            Duration::lemma_of_nanos(0, self.last_time_remaining);
        }
        match self.state {
            ClockState::Running => {
                let time_elapsed = now.duration_since(self.last_state_change);
                self.last_time_remaining.saturating_sub(time_elapsed)
            },
            ClockState::Stopped => self.last_time_remaining,
        }
    }
}

impl ClockComponent {
    /// Reports the state of the clock, owned by `component`, at the instant
    /// `now`.
    pub fn get_data(&self, component: Component, now: Instant) -> (snapshot: Snapshot)
        ensures
            snapshot == self.report_at(component, now),
    {
        Snapshot {
            component,
            name: self.name.clone(),
            data: Data::Clock(
                ClockData {
                    state: self.state,
                    last_state_change: self.last_state_change,
                    last_time_remaining: self.last_time_remaining,
                    time_remaining: self.get_time_remaining(now),
                },
            ),
        }
    }
}

/// The actor that owns the game clock.
#[derive(Debug)]
pub struct GameClock {
    pub clock: ClockComponent,
}

impl GameClock {
    /// The address of the game clock.
    pub open spec fn component() -> Component {
        Component::Global(GlobalComponent::GameClock)
    }

    /// The game clock, stopped with no time on it, under the name
    /// `game_clock`.
    pub fn new(now: Instant) -> (actor: GameClock)
        ensures
            actor.clock@ == ClockReading::stopped_at_zero(now@),
            actor.clock.name@ == "game_clock"@,
    {
        GameClock { clock: ClockComponent::new("game_clock".to_owned(), now) }
    }

    /// The watcher of the game clock, which sounds the siren on expiry.
    pub fn watcher(&self) -> (watcher: ExpiryWatcher)
        ensures
            watcher == (ExpiryWatcher { component: GameClock::component(), activate_siren: true }),
    {
        start_expiry_watcher(Component::Global(GlobalComponent::GameClock), true)
    }
}

impl EventListener for GameClock {
    /// The actor after it has taken an envelope that says `notice`: one
    /// that concerns the game clock is applied to the clock as of its
    /// timestamp.
    open spec fn after(self, notice: Notice) -> GameClock {
        if GameClock::component().concerns(notice.component) {
            GameClock { clock: self.clock.after(notice.event, notice.timestamp) }
        } else {
            self
        }
    }

    /// The actor hands back nothing for publication.
    open spec fn publishes(self, notice: Notice) -> Seq<Notice> {
        Seq::empty()
    }

    /// The report that the actor sends back on account of `notice`: its
    /// state as of the envelope's timestamp, if the envelope asks for it.
    open spec fn answers(self, notice: Notice) -> Option<Snapshot> {
        if asks_for_state(GameClock::component(), notice) {
            Some(self.clock.report_at(GameClock::component(), notice.timestamp))
        } else {
            None
        }
    }

    /// Takes one envelope.
    fn notify(&mut self, log_event: &LogEvent) -> (reaction: Reaction)
        ensures
            *final(self) == old(self).after(log_event.notice()),
            reaction.publish@ == old(self).publishes(log_event.notice()),
            reaction.reply == old(self).answers(log_event.notice()),
    {
        proof {
            self.clock.lemma_showing();
        }
        let component = Component::Global(GlobalComponent::GameClock);
        if is_state_request(&component, log_event) {
            return Reaction::reply(self.clock.get_data(component, log_event.timestamp));
        }
        if component.is_event_component_relevant(&log_event.component) {
            self.clock.process_event(log_event);
        }
        Reaction::silent()
    }
}

impl ScoreboardComponent for GameClock {
    open spec fn address(self) -> Component {
        GameClock::component()
    }

    open spec fn report_at(self, now: Instant) -> Snapshot {
        self.clock.report_at(GameClock::component(), now)
    }

    fn identity(&self) -> (component: Component)
        ensures
            component == self.address(),
    {
        Component::Global(GlobalComponent::GameClock)
    }

    fn get_data(&self, now: Instant) -> (snapshot: Snapshot)
        ensures
            snapshot == self.report_at(now),
    {
        self.clock.get_data(Component::Global(GlobalComponent::GameClock), now)
    }

    proof fn lemma_answers_with_report(self, notice: Notice)
        ensures
            self.report_at(notice.timestamp).component == self.address(),
            self.answers(notice) == (if asks_for_state(self.address(), notice) {
                Some(self.report_at(notice.timestamp))
            } else {
                None
            }),
    {
    }
}

/// The actor that owns a clock which follows the game clock: it starts,
/// stops and expires with it, besides obeying the commands addressed to
/// itself.
#[derive(Debug)]
pub struct GameDependentClock {
    pub component: Component,
    pub clock: ClockComponent,
}

impl GameDependentClock {
    /// Whether an envelope is one of the game clock's own transitions that
    /// a dependent clock follows: a plain start, a plain stop or an expiry.
    pub open spec fn follows(notice: Notice) -> bool {
        &&& notice.component == GameClock::component()
        &&& notice.event matches Event::Clock(clock_event)
        &&& (clock_event == ClockEvent::Start(None) || clock_event == ClockEvent::Stop(None)
            || clock_event == ClockEvent::Expired)
    }

    /// Whether the clock applies an envelope.
    pub open spec fn relevant(self, notice: Notice) -> bool {
        GameDependentClock::follows(notice) || self.component.concerns(notice.component)
    }

    /// A stopped clock with no time on it.
    pub fn new(component: Component, name: &str, now: Instant) -> (actor: GameDependentClock)
        ensures
            actor.component == component,
            actor.clock@ == ClockReading::stopped_at_zero(now@),
            actor.clock.name@ == name@,
    {
        GameDependentClock { component, clock: ClockComponent::new(name.to_owned(), now) }
    }

    /// Decides [`GameDependentClock::follows`].
    pub fn is_followed(log_event: &LogEvent) -> (followed: bool)
        ensures
            followed == GameDependentClock::follows(log_event.notice()),
    {
        match (log_event.component, &log_event.event) {
            (
                Component::Global(GlobalComponent::GameClock),
                Event::Clock(ClockEvent::Start(None)),
            ) => true,
            (
                Component::Global(GlobalComponent::GameClock),
                Event::Clock(ClockEvent::Stop(None)),
            ) => true,
            (Component::Global(GlobalComponent::GameClock), Event::Clock(ClockEvent::Expired)) => true,
            _ => false,
        }
    }

    /// The watcher of this clock, which leaves the siren alone.
    pub fn watcher(&self) -> (watcher: ExpiryWatcher)
        ensures
            watcher == (ExpiryWatcher { component: self.component, activate_siren: false }),
    {
        start_expiry_watcher(self.component, false)
    }
}

impl EventListener for GameDependentClock {
    /// The actor after it has taken an envelope that says `notice`: one
    /// that it applies is applied to the clock as of its timestamp.
    open spec fn after(self, notice: Notice) -> GameDependentClock {
        if self.relevant(notice) {
            GameDependentClock {
                component: self.component,
                clock: self.clock.after(notice.event, notice.timestamp),
            }
        } else {
            self
        }
    }

    /// The actor hands back nothing for publication.
    open spec fn publishes(self, notice: Notice) -> Seq<Notice> {
        Seq::empty()
    }

    /// The report that the actor sends back on account of `notice`: its
    /// state as of the envelope's timestamp, if the envelope asks for it.
    open spec fn answers(self, notice: Notice) -> Option<Snapshot> {
        if asks_for_state(self.component, notice) {
            Some(self.clock.report_at(self.component, notice.timestamp))
        } else {
            None
        }
    }

    /// Takes one envelope.
    fn notify(&mut self, log_event: &LogEvent) -> (reaction: Reaction)
        ensures
            *final(self) == old(self).after(log_event.notice()),
            reaction.publish@ == old(self).publishes(log_event.notice()),
            reaction.reply == old(self).answers(log_event.notice()),
    {
        proof {
            self.clock.lemma_showing();
        }
        if is_state_request(&self.component, log_event) {
            return Reaction::reply(self.clock.get_data(self.component, log_event.timestamp));
        }
        if GameDependentClock::is_followed(log_event) || self.component.is_event_component_relevant(
            &log_event.component,
        ) {
            self.clock.process_event(log_event);
        }
        Reaction::silent()
    }
}

impl ScoreboardComponent for GameDependentClock {
    open spec fn address(self) -> Component {
        self.component
    }

    open spec fn report_at(self, now: Instant) -> Snapshot {
        self.clock.report_at(self.component, now)
    }

    fn identity(&self) -> (component: Component)
        ensures
            component == self.address(),
    {
        self.component
    }

    fn get_data(&self, now: Instant) -> (snapshot: Snapshot)
        ensures
            snapshot == self.report_at(now),
    {
        self.clock.get_data(self.component, now)
    }

    proof fn lemma_answers_with_report(self, notice: Notice)
        ensures
            self.report_at(notice.timestamp).component == self.address(),
            self.answers(notice) == (if asks_for_state(self.address(), notice) {
                Some(self.report_at(notice.timestamp))
            } else {
                None
            }),
    {
    }
}

/// The actor that owns a clock for stoppages: starting it with a time of
/// its own also stops the game clock.
#[derive(Debug)]
pub struct StoppageClock {
    pub component: Component,
    pub clock: ClockComponent,
}

impl StoppageClock {
    /// Whether an envelope makes the stoppage clock stop the game clock.
    pub open spec fn stops_game_clock(self, notice: Notice) -> bool {
        &&& self.component.concerns(notice.component)
        &&& notice.event matches Event::Clock(ClockEvent::Start(Some(_)))
    }

    /// The notice that stops the game clock on account of `notice`: a plain
    /// stop under the same timestamp. It goes out in an envelope of its
    /// own.
    pub open spec fn game_clock_stop(notice: Notice) -> Notice {
        Notice {
            component: GameClock::component(),
            event: Event::Clock(ClockEvent::Stop(None)),
            timestamp: notice.timestamp,
        }
    }

    /// A stopped clock with no time on it.
    pub fn new(component: Component, name: &str, now: Instant) -> (actor: StoppageClock)
        ensures
            actor.component == component,
            actor.clock@ == ClockReading::stopped_at_zero(now@),
            actor.clock.name@ == name@,
    {
        StoppageClock { component, clock: ClockComponent::new(name.to_owned(), now) }
    }

    /// The watcher of this clock, which sounds the siren on expiry.
    pub fn watcher(&self) -> (watcher: ExpiryWatcher)
        ensures
            watcher == (ExpiryWatcher { component: self.component, activate_siren: true }),
    {
        start_expiry_watcher(self.component, true)
    }
}

impl EventListener for StoppageClock {
    /// The actor after it has taken an envelope that says `notice`: one
    /// that concerns it is applied to the clock as of its timestamp.
    open spec fn after(self, notice: Notice) -> StoppageClock {
        if self.component.concerns(notice.component) {
            StoppageClock {
                component: self.component,
                clock: self.clock.after(notice.event, notice.timestamp),
            }
        } else {
            self
        }
    }

    /// The notices that the actor hands back for publication on account of
    /// `notice`.
    open spec fn publishes(self, notice: Notice) -> Seq<Notice> {
        if self.stops_game_clock(notice) {
            seq![StoppageClock::game_clock_stop(notice)]
        } else {
            Seq::empty()
        }
    }

    /// The report that the actor sends back on account of `notice`: its
    /// state as of the envelope's timestamp, if the envelope asks for it.
    open spec fn answers(self, notice: Notice) -> Option<Snapshot> {
        if asks_for_state(self.component, notice) {
            Some(self.clock.report_at(self.component, notice.timestamp))
        } else {
            None
        }
    }

    /// Takes one envelope.
    fn notify(&mut self, log_event: &LogEvent) -> (reaction: Reaction)
        ensures
            *final(self) == old(self).after(log_event.notice()),
            reaction.publish@ == old(self).publishes(log_event.notice()),
            reaction.reply == old(self).answers(log_event.notice()),
    {
        proof {
            self.clock.lemma_showing();
        }
        if is_state_request(&self.component, log_event) {
            return Reaction::reply(self.clock.get_data(self.component, log_event.timestamp));
        }
        let mut reaction = Reaction::silent();
        if !self.component.is_event_component_relevant(&log_event.component) {
            return reaction;
        }
        if let Event::Clock(ClockEvent::Start(Some(_))) = log_event.event {
            reaction.publish.push(
                Notice {
                    component: Component::Global(GlobalComponent::GameClock),
                    event: Event::Clock(ClockEvent::Stop(None)),
                    timestamp: log_event.timestamp,
                },
            );
        }
        self.clock.process_event(log_event);
        reaction
    }
}

impl ScoreboardComponent for StoppageClock {
    open spec fn address(self) -> Component {
        self.component
    }

    open spec fn report_at(self, now: Instant) -> Snapshot {
        self.clock.report_at(self.component, now)
    }

    fn identity(&self) -> (component: Component)
        ensures
            component == self.address(),
    {
        self.component
    }

    fn get_data(&self, now: Instant) -> (snapshot: Snapshot)
        ensures
            snapshot == self.report_at(now),
    {
        self.clock.get_data(self.component, now)
    }

    proof fn lemma_answers_with_report(self, notice: Notice)
        ensures
            self.report_at(notice.timestamp).component == self.address(),
            self.answers(notice) == (if asks_for_state(self.address(), notice) {
                Some(self.report_at(notice.timestamp))
            } else {
                None
            }),
    {
    }
}

/// Milliseconds between two looks of an expiry watcher at its clock.
pub const POLL_INTERVAL_MILLIS: u64 = 200;

/// Milliseconds for which the siren sounds when a clock has run out.
pub const SIREN_HOLD_MILLIS: u64 = 2000;

/// One thing for the owner of an expiry watcher to do.
#[derive(Debug, Clone, PartialEq, Eq)]
pub enum WatcherCommand {
    /// Publish this command, addressed to this component, in a new envelope.
    Publish(Component, Event),
    /// Wait for this many milliseconds.
    Sleep(u64),
}

/// The watcher of one clock: it looks at the clock at intervals and tells
/// when the clock has run out.
#[derive(Debug, Clone, Copy)]
pub struct ExpiryWatcher {
    pub component: Component,
    pub activate_siren: bool,
}

/// The watcher of the clock `component`, which also sounds the siren on
/// expiry if `activate_siren` is set.
pub fn start_expiry_watcher(component: Component, activate_siren: bool) -> (watcher: ExpiryWatcher)
    ensures
        watcher.component == component,
        watcher.activate_siren == activate_siren,
{
    ExpiryWatcher { component, activate_siren }
}

impl ExpiryWatcher {
    /// Whether a clock has run out at the instant `now`: it counts down, and
    /// at least the time that was on it has passed since its last change.
    pub open spec fn is_due(reading: ClockReading, now: nat) -> bool {
        reading.running && sat_sub(now, reading.since) >= reading.remaining
    }

    /// The address of the siren.
    pub open spec fn siren() -> Component {
        Component::Global(GlobalComponent::Siren)
    }

    /// What is to be done after a look at the clock at the instant `now`.
    /// A clock that has not run out is left alone until the next look. One
    /// that has is told that it expired; if the watcher sounds the siren,
    /// the siren is switched on, held, and switched off again.
    pub open spec fn script(self, reading: ClockReading, now: nat) -> Seq<WatcherCommand> {
        if !ExpiryWatcher::is_due(reading, now) {
            seq![WatcherCommand::Sleep(POLL_INTERVAL_MILLIS)]
        } else if self.activate_siren {
            seq![
                WatcherCommand::Publish(self.component, Event::Clock(ClockEvent::Expired)),
                WatcherCommand::Publish(
                    ExpiryWatcher::siren(),
                    Event::Toggle(ToggleEvent::Activate),
                ),
                WatcherCommand::Sleep(SIREN_HOLD_MILLIS),
                WatcherCommand::Publish(
                    ExpiryWatcher::siren(),
                    Event::Toggle(ToggleEvent::Deactivate),
                ),
                WatcherCommand::Sleep(POLL_INTERVAL_MILLIS),
            ]
        } else {
            seq![
                WatcherCommand::Publish(self.component, Event::Clock(ClockEvent::Expired)),
                WatcherCommand::Sleep(POLL_INTERVAL_MILLIS),
            ]
        }
    }

    /// The clock and the number of expiries told after a series of looks at
    /// the clock, at the instants `looks` in order, where the clock applies
    /// each expiry it is told of before the next look and nobody else
    /// commands it.
    pub open spec fn watched(reading: ClockReading, looks: Seq<nat>) -> (ClockReading, nat)
        decreases looks.len(),
    {
        if looks.len() == 0 {
            (reading, 0)
        } else {
            let (before, told) = ExpiryWatcher::watched(reading, looks.drop_last());
            if ExpiryWatcher::is_due(before, looks.last()) {
                (before.after(Event::Clock(ClockEvent::Expired), looks.last()), told + 1)
            } else {
                (before, told)
            }
        }
    }

    /// A clock is due exactly when it counts down and no time remains on
    /// it. One that has been told of its expiry is not due again, however
    /// late the next look.
    pub proof fn lemma_expired_clock_is_not_due(reading: ClockReading, told_at: nat, now: nat)
        ensures
            ExpiryWatcher::is_due(reading, now) <==> reading.running
                && reading.effective_remaining(now) == 0,
            !ExpiryWatcher::is_due(
                reading.after(Event::Clock(ClockEvent::Expired), told_at),
                now,
            ),
    {
    }

    /// Expiry is told at most once however often the watcher looks, and
    /// exactly once if the clock counts down and a look falls at or after
    /// the instant at which its time has passed.
    pub proof fn lemma_expiry_is_told_once(reading: ClockReading, looks: Seq<nat>)
        ensures
            ExpiryWatcher::watched(reading, looks).1 <= 1,
            ExpiryWatcher::watched(reading, looks).1 == 1 ==> !ExpiryWatcher::watched(
                reading,
                looks,
            ).0.running,
            ExpiryWatcher::watched(reading, looks).1 == 0 ==> ExpiryWatcher::watched(
                reading,
                looks,
            ).0 == reading,
            (ExpiryWatcher::watched(reading, looks).1 == 1) <==> (exists|i: int|
                0 <= i < looks.len() && ExpiryWatcher::is_due(reading, #[trigger] looks[i])),
        decreases looks.len(),
    {
        if looks.len() > 0 {
            let earlier = looks.drop_last();
            ExpiryWatcher::lemma_expiry_is_told_once(reading, earlier);
            let (before, told) = ExpiryWatcher::watched(reading, earlier);
            if told == 0 && !ExpiryWatcher::is_due(before, looks.last()) {
                assert forall|i: int| 0 <= i < looks.len() implies !ExpiryWatcher::is_due(
                    reading,
                    #[trigger] looks[i],
                ) by {
                    if i < earlier.len() {
                        assert(looks[i] == earlier[i]);
                    }
                }
            }
        }
    }

    /// What is to be done after a look, at the instant `now`, at what a
    /// component reports of itself. A report that is not a clock's leaves
    /// nothing to do until the next look.
    pub open spec fn script_for(self, snapshot: Snapshot, now: nat) -> Seq<WatcherCommand> {
        match snapshot.data {
            Data::Clock(data) => self.script(
                ClockReading {
                    running: data.state == ClockState::Running,
                    since: data.last_state_change@,
                    remaining: data.last_time_remaining@,
                },
                now,
            ),
            _ => seq![WatcherCommand::Sleep(POLL_INTERVAL_MILLIS)],
        }
    }

    /// Looks, at the instant `now`, at what a component reports of itself.
    pub fn look_at(&self, snapshot: &Snapshot, now: Instant) -> (commands: Vec<WatcherCommand>)
        ensures
            commands@ == self.script_for(*snapshot, now@),
    {
        match &snapshot.data {
            Data::Clock(data) => self.poll(
                data.state,
                data.last_state_change,
                data.last_time_remaining,
                now,
            ),
            _ => {
                let mut commands: Vec<WatcherCommand> = Vec::new();
                commands.push(WatcherCommand::Sleep(POLL_INTERVAL_MILLIS));
                commands
            },
        }
    }

    /// Looks at the clock, as it was sampled, at the instant `now`.
    pub fn poll(
        &self,
        state: ClockState,
        last_state_change: Instant,
        last_time_remaining: Duration,
        now: Instant,
    ) -> (commands: Vec<WatcherCommand>)
        ensures
            commands@ == self.script(
                ClockReading {
                    running: state == ClockState::Running,
                    since: last_state_change@,
                    remaining: last_time_remaining@,
                },
                now@,
            ),
    {
        let mut commands: Vec<WatcherCommand> = Vec::new();
        let time_elapsed = now.duration_since(last_state_change);
        let due = match state {
            ClockState::Running => time_elapsed.as_nanos() >= last_time_remaining.as_nanos(),
            ClockState::Stopped => false,
        };
        if due {
            commands.push(
                WatcherCommand::Publish(self.component, Event::Clock(ClockEvent::Expired)),
            );
            if self.activate_siren {
                commands.push(
                    WatcherCommand::Publish(
                        Component::Global(GlobalComponent::Siren),
                        Event::Toggle(ToggleEvent::Activate),
                    ),
                );
                commands.push(WatcherCommand::Sleep(SIREN_HOLD_MILLIS));
                commands.push(
                    WatcherCommand::Publish(
                        Component::Global(GlobalComponent::Siren),
                        Event::Toggle(ToggleEvent::Deactivate),
                    ),
                );
            }
        }
        commands.push(WatcherCommand::Sleep(POLL_INTERVAL_MILLIS));
        commands
    }
}

/// The character for a single decimal digit.
pub open spec fn digit_char(digit: nat) -> char {
    if digit == 0 {
        '0'
    } else if digit == 1 {
        '1'
    } else if digit == 2 {
        '2'
    } else if digit == 3 {
        '3'
    } else if digit == 4 {
        '4'
    } else if digit == 5 {
        '5'
    } else if digit == 6 {
        '6'
    } else if digit == 7 {
        '7'
    } else if digit == 8 {
        '8'
    } else {
        '9'
    }
}

/// The face of a clock with `secs` whole seconds on it: the minutes and
/// the seconds within the hour, two digits each, with a colon between.
pub open spec fn clock_face(secs: nat) -> Seq<char> {
    let minutes = (secs / 60) % 60;
    let seconds = secs % 60;
    seq![
        digit_char(minutes / 10),
        digit_char(minutes % 10),
        ':',
        digit_char(seconds / 10),
        digit_char(seconds % 10),
    ]
}

/// The text of one decimal digit.
fn digit_text(digit: u64) -> (text: &'static str)
    requires
        digit < 10,
    ensures
        text@ == seq![digit_char(digit as nat)],
{
    proof {
        reveal_strlit("0");
        reveal_strlit("1");
        reveal_strlit("2");
        reveal_strlit("3");
        reveal_strlit("4");
        reveal_strlit("5");
        reveal_strlit("6");
        reveal_strlit("7");
        reveal_strlit("8");
        reveal_strlit("9");
    }
    let text = if digit == 0 {
        "0"
    } else if digit == 1 {
        "1"
    } else if digit == 2 {
        "2"
    } else if digit == 3 {
        "3"
    } else if digit == 4 {
        "4"
    } else if digit == 5 {
        "5"
    } else if digit == 6 {
        "6"
    } else if digit == 7 {
        "7"
    } else if digit == 8 {
        "8"
    } else {
        "9"
    };
    text
}

/// Writes the time that remains on a clock as it is shown on its face.
pub fn format_clock_face(remaining: Duration) -> (text: String)
    ensures
        text@ == clock_face(remaining@ / (NANOS_PER_SEC as nat)),
{
    let secs: u64 = remaining.as_secs();
    let minutes: u64 = (secs / 60) % 60;
    let seconds: u64 = secs % 60;
    proof {
        reveal_strlit(":");
    }
    let mut text = String::new();
    text.append(digit_text(minutes / 10));
    text.append(digit_text(minutes % 10));
    text.append(":");
    text.append(digit_text(seconds / 10));
    text.append(digit_text(seconds % 10));
    text
}

} // verus!
