//! Commands and the envelopes that carry them to components.

pub mod states;

use vstd::prelude::*;
use crate::component::{Component, Kind};
use crate::event::states::{ClockEvent, CounterEvent, LabelEvent, ToggleEvent};
use crate::intake::Rejected;
use crate::time::Instant;

verus! {

/// A command. The first four are meant for one kind of component each;
/// `Reset` and `SnapshotRequest` are understood by every component.
#[derive(Debug, Clone, PartialEq, Eq)]
pub enum Event {
    Clock(ClockEvent),
    Counter(CounterEvent),
    Toggle(ToggleEvent),
    Label(LabelEvent),
    /// Return to the state the component was constructed in.
    Reset,
    /// Report the current state; changes nothing.
    SnapshotRequest,
}

impl Event {
    /// The kind of component that this command is meant for, if it is meant
    /// for one kind only.
    pub open spec fn kind(self) -> Option<Kind> {
        match self {
            Event::Clock(_) => Some(Kind::Clock),
            Event::Counter(_) => Some(Kind::Counter),
            Event::Toggle(_) => Some(Kind::Toggle),
            Event::Label(_) => Some(Kind::Label),
            Event::Reset => None,
            Event::SnapshotRequest => None,
        }
    }

    /// Whether this command may be addressed to `target`: a command for one
    /// kind of component only to a component of that kind, the others to any
    /// address.
    pub open spec fn suits(self, target: Component) -> bool {
        self.kind() is Some ==> target.kind() == self.kind()
    }

    /// Whether this is the request for state, which changes nothing.
    pub fn is_request(&self) -> (request: bool)
        ensures
            request == (*self == Event::SnapshotRequest),
    {
        matches!(self, Event::SnapshotRequest)
    }

    /// Computes [`Event::kind`].
    pub fn expected_kind(&self) -> (kind: Option<Kind>)
        ensures
            kind == self.kind(),
    {
        match self {
            Event::Clock(_) => Some(Kind::Clock),
            Event::Counter(_) => Some(Kind::Counter),
            Event::Toggle(_) => Some(Kind::Toggle),
            Event::Label(_) => Some(Kind::Label),
            Event::Reset => None,
            Event::SnapshotRequest => None,
        }
    }

    /// Decides [`Event::suits`].
    pub fn is_valid_for(&self, target: &Component) -> (ok: bool)
        ensures
            ok == self.suits(*target),
    {
        match self {
            Event::Clock(_) => target.is_clock(),
            Event::Counter(_) => target.is_counter(),
            Event::Toggle(_) => target.is_toggle(),
            Event::Label(_) => target.is_label(),
            Event::Reset => true,
            Event::SnapshotRequest => true,
        }
    }
}

/// An envelope: a command on its way to a component, stamped with the
/// instant it was issued at and a number that identifies it.
#[derive(Debug, Clone, PartialEq, Eq)]
pub struct LogEvent {
    pub timestamp: Instant,
    pub log_id: u128,
    pub component: Component,
    pub event: Event,
}

/// What an envelope says, its identifier apart: a command, the component
/// it is addressed to and the instant it was issued at. This is all that a
/// component goes by, and what a component hands back for publication: the
/// publisher puts each notice into an envelope with an identifier of its
/// own.
#[derive(Debug, Clone, PartialEq, Eq)]
pub struct Notice {
    pub timestamp: Instant,
    pub component: Component,
    pub event: Event,
}

/// Something that commands can be handed to, and that keeps a record of
/// those it took.
pub trait EventLogger: Sized {
    /// What the commands on record say, oldest first.
    spec fn record(self) -> Seq<Notice>;

    /// Takes the command `event`, addressed to `component` and issued at
    /// `now`, or turns it away. A command is turned away exactly when it is
    /// meant for one kind of component and `component` is not of that
    /// kind; nothing is recorded then. A command that is taken is on
    /// record when the call returns, as the latest entry, whether or not
    /// anyone was concerned by it, and what was on record before stays.
    fn log_event(&mut self, component: Component, event: Event, now: Instant) -> (outcome: Result<
        (),
        Rejected,
    >)
        ensures
            match outcome {
                Ok(_) => {
                    &&& event.suits(component)
                    &&& final(self).record().len() > old(self).record().len()
                    &&& final(self).record().last() == (Notice {
                        timestamp: now,
                        component,
                        event,
                    })
                    &&& final(self).record().take(old(self).record().len() as int) == old(
                        self,
                    ).record()
                },
                Err(rejected) => {
                    &&& !event.suits(component)
                    &&& event.kind() == Some(rejected.expected)
                    &&& rejected.target == component
                    &&& final(self).record() == old(self).record()
                },
            },
    ;
}

/// The identifier that `uuid::Uuid::parse_str` reads from `text`, as a
/// 128-bit number, or `None` where it reads none.
pub uninterp spec fn parsed_uuid(text: Seq<char>) -> Option<u128>;

/// Calls `uuid::Uuid::parse_str`, which reads an identifier written in
/// hexadecimal digits (plain, hyphenated, braced or as a URN), and hands it
/// on as the 128-bit number that `uuid::Uuid::as_u128` makes of it. The
/// result is a function of the text alone; on failure the error is dropped.
#[verifier::external_body]
fn parse_uuid(text: &str) -> (id: Option<u128>)
    ensures
        id == parsed_uuid(text@),
{
    match uuid::Uuid::parse_str(text) {
        Ok(id) => Some(id.as_u128()),
        Err(_) => None,
    }
}

/// Calls `uuid::Uuid::new_v4`, which draws a random identifier, and hands
/// it on as the 128-bit number that `uuid::Uuid::as_u128` makes of it.
/// Nothing is claimed of the number that comes back.
#[verifier::external_body]
fn random_uuid() -> u128 {
    uuid::Uuid::new_v4().as_u128()
}

impl LogEvent {
    /// What the envelope says, its identifier apart.
    pub open spec fn notice(self) -> Notice {
        Notice { timestamp: self.timestamp, component: self.component, event: self.event }
    }

    /// The envelope that carries `notice`, published on account of the
    /// envelope `cause`, under an identifier of its own: one drawn at
    /// random, and other than that of `cause`.
    pub fn issue(notice: Notice, cause: &LogEvent) -> (envelope: LogEvent)
        ensures
            envelope.notice() == notice,
            envelope.log_id != cause.log_id,
    {
        let drawn: u128 = random_uuid();
        let fresh: u128 = if drawn == cause.log_id {
            assert(drawn ^ 1 != drawn) by (bit_vector);
            drawn ^ 1
        } else {
            drawn
        };
        LogEvent::with_id(notice.component, notice.event, notice.timestamp, None, fresh)
    }

    /// The identifier that a caller supplies as text, if the text holds one.
    pub open spec fn supplied_id(uuid: Option<String>) -> Option<u128> {
        match uuid {
            Some(text) => parsed_uuid(text@),
            None => None,
        }
    }

    /// The envelope for `event` addressed to `component`, issued at
    /// `timestamp`, with the identifier `parsed` if there is one and `fresh`
    /// otherwise.
    pub fn with_id(
        component: Component,
        event: Event,
        timestamp: Instant,
        parsed: Option<u128>,
        fresh: u128,
    ) -> (envelope: LogEvent)
        ensures
            envelope.component == component,
            envelope.event == event,
            envelope.timestamp == timestamp,
            envelope.log_id == (match parsed {
                Some(id) => id,
                None => fresh,
            }),
    {
        let log_id: u128 = match parsed {
            Some(id) => id,
            None => fresh,
        };
        LogEvent { timestamp, log_id, component, event }
    }

    /// The envelope for `event` addressed to `component`, issued at `now`
    /// under a random identifier.
    pub fn new_now(component: Component, event: Event, now: Instant) -> (envelope: LogEvent)
        ensures
            envelope.component == component,
            envelope.event == event,
            envelope.timestamp == now,
    {
        LogEvent::with_id(component, event, now, None, random_uuid())
    }

    /// The envelope for `event` addressed to `component`. It is stamped with
    /// `ts` where the caller supplies an instant and with `now` otherwise. It
    /// carries the identifier written in `uuid` where that text holds one, and
    /// a random identifier otherwise.
    pub fn new(
        component: Component,
        event: Event,
        ts: Option<Instant>,
        uuid: Option<String>,
        now: Instant,
    ) -> (envelope: LogEvent)
        ensures
            envelope.component == component,
            envelope.event == event,
            envelope.timestamp == (match ts {
                Some(t) => t,
                None => now,
            }),
            LogEvent::supplied_id(uuid) matches Some(id) ==> envelope.log_id == id,
    {
        let timestamp = match ts {
            Some(t) => t,
            None => now,
        };
        let parsed: Option<u128> = match &uuid {
            Some(text) => parse_uuid(text.as_str()),
            None => None,
        };
        LogEvent::with_id(component, event, timestamp, parsed, random_uuid())
    }
}

} // verus!
