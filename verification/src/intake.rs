//! The boundary at which commands enter: each command is checked against
//! the kind of the component it is addressed to before an envelope is made
//! for it, so that no actor ever sees a command of the wrong kind.

use vstd::prelude::*;
use crate::component::{Component, Kind};
use crate::event::states::{ClockEvent, CounterEvent, LabelEvent, ToggleEvent};
use crate::event::{Event, LogEvent};
use crate::time::{Duration, Instant, NANOS_PER_MILLI};

verus! {

/// Why a command was turned away: it is meant for components of the kind
/// `expected`, and `target` is not one.
#[derive(Debug, Clone, Copy, PartialEq, Eq)]
pub struct Rejected {
    pub target: Component,
    pub expected: Kind,
}

/// Whether `envelope` carries `event` to `target`, stamped with `ts` where
/// the caller supplied an instant and with `now` otherwise, under the
/// identifier written in `uuid` where that text holds one.
pub open spec fn carries(
    envelope: LogEvent,
    target: Component,
    event: Event,
    ts: Option<Instant>,
    uuid: Option<String>,
    now: Instant,
) -> bool {
    &&& envelope.component == target
    &&& envelope.event == event
    &&& envelope.timestamp == (match ts {
        Some(t) => t,
        None => now,
    })
    &&& LogEvent::supplied_id(uuid) matches Some(id) ==> envelope.log_id == id
}

/// The clock command that goes out for a command as it was named, with the
/// value that came with it: a value, in milliseconds, fills in the time of
/// a command that sets the clock and is ignored by the others.
pub open spec fn clock_command(clock_event: ClockEvent, value: Option<u64>) -> ClockEvent {
    match (clock_event, value) {
        (ClockEvent::SetTo(_), Some(millis)) => ClockEvent::SetTo(
            Duration::of_nanos((millis * NANOS_PER_MILLI) as nat),
        ),
        _ => clock_event,
    }
}

/// The counter command that goes out for a command as it was named, with
/// the value that came with it.
pub open spec fn counter_command(counter_event: CounterEvent, value: Option<u64>) -> CounterEvent {
    match (counter_event, value) {
        (CounterEvent::SetTo(_), Some(number)) => CounterEvent::SetTo(number),
        _ => counter_event,
    }
}

/// The label command that goes out for a command as it was named, with the
/// value that came with it.
pub open spec fn label_command(label_event: LabelEvent, value: Option<String>) -> LabelEvent {
    match (label_event, value) {
        (LabelEvent::SetTo(_), Some(text)) => LabelEvent::SetTo(text),
        _ => label_event,
    }
}

/// Makes the envelope for a clock command, or turns the command away if
/// `target` is not a clock.
pub fn clock_event_handler(
    target: Component,
    clock_event: ClockEvent,
    value: Option<u64>,
    ts: Option<Instant>,
    uuid: Option<String>,
    now: Instant,
) -> (outcome: Result<LogEvent, Rejected>)
    ensures
        match outcome {
            Ok(envelope) => target.kind() == Some(Kind::Clock) && carries(
                envelope,
                target,
                Event::Clock(clock_command(clock_event, value)),
                ts,
                uuid,
                now,
            ),
            Err(rejected) => target.kind() != Some(Kind::Clock) && rejected == (Rejected {
                target,
                expected: Kind::Clock,
            }),
        },
{
    if !target.is_clock() {
        return Err(Rejected { target, expected: Kind::Clock });
    }
    let command = match (clock_event, value) {
        (ClockEvent::SetTo(_), Some(millis)) => ClockEvent::SetTo(Duration::from_millis(millis)),
        _ => clock_event,
    };
    Ok(LogEvent::new(target, Event::Clock(command), ts, uuid, now))
}

/// Makes the envelope for a counter command, or turns the command away if
/// `target` is not a counter.
pub fn counter_event_handler(
    target: Component,
    counter_event: CounterEvent,
    value: Option<u64>,
    ts: Option<Instant>,
    uuid: Option<String>,
    now: Instant,
) -> (outcome: Result<LogEvent, Rejected>)
    ensures
        match outcome {
            Ok(envelope) => target.kind() == Some(Kind::Counter) && carries(
                envelope,
                target,
                Event::Counter(counter_command(counter_event, value)),
                ts,
                uuid,
                now,
            ),
            Err(rejected) => target.kind() != Some(Kind::Counter) && rejected == (Rejected {
                target,
                expected: Kind::Counter,
            }),
        },
{
    if !target.is_counter() {
        return Err(Rejected { target, expected: Kind::Counter });
    }
    let command = match (counter_event, value) {
        (CounterEvent::SetTo(_), Some(number)) => CounterEvent::SetTo(number),
        _ => counter_event,
    };
    Ok(LogEvent::new(target, Event::Counter(command), ts, uuid, now))
}

/// Makes the envelope for a toggle command, or turns the command away if
/// `target` is not a toggle.
pub fn toggle_event_handler(
    target: Component,
    toggle_event: ToggleEvent,
    ts: Option<Instant>,
    uuid: Option<String>,
    now: Instant,
) -> (outcome: Result<LogEvent, Rejected>)
    ensures
        match outcome {
            Ok(envelope) => target.kind() == Some(Kind::Toggle) && carries(
                envelope,
                target,
                Event::Toggle(toggle_event),
                ts,
                uuid,
                now,
            ),
            Err(rejected) => target.kind() != Some(Kind::Toggle) && rejected == (Rejected {
                target,
                expected: Kind::Toggle,
            }),
        },
{
    if !target.is_toggle() {
        return Err(Rejected { target, expected: Kind::Toggle });
    }
    Ok(LogEvent::new(target, Event::Toggle(toggle_event), ts, uuid, now))
}

/// Makes the envelope for a label command, or turns the command away if
/// `target` is not a label.
pub fn label_event_handler(
    target: Component,
    label_event: LabelEvent,
    value: Option<String>,
    ts: Option<Instant>,
    uuid: Option<String>,
    now: Instant,
) -> (outcome: Result<LogEvent, Rejected>)
    ensures
        match outcome {
            Ok(envelope) => target.kind() == Some(Kind::Label) && carries(
                envelope,
                target,
                Event::Label(label_command(label_event, value)),
                ts,
                uuid,
                now,
            ),
            Err(rejected) => target.kind() != Some(Kind::Label) && rejected == (Rejected {
                target,
                expected: Kind::Label,
            }),
        },
{
    if !target.is_label() {
        return Err(Rejected { target, expected: Kind::Label });
    }
    let command = match (label_event, value) {
        (LabelEvent::SetTo(_), Some(text)) => LabelEvent::SetTo(text),
        (label_event, _) => label_event,
    };
    Ok(LogEvent::new(target, Event::Label(command), ts, uuid, now))
}

} // verus!
