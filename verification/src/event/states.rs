//! The states that components can be in and the commands that change them.

use vstd::prelude::*;
use crate::param::{
    eq_ignore_ascii_case, lemma_same_name_is_an_equivalence, same_name, ParseError,
};
use crate::time::Duration;

verus! {

/// Whether a clock is counting down.
#[derive(Debug, Clone, Copy, PartialEq, Eq, Structural)]
pub enum ClockState {
    Stopped,
    Running,
}

/// A command for a clock.
#[derive(Debug, Clone, Copy, PartialEq, Eq)]
pub enum ClockEvent {
    /// Put this much time on the clock.
    SetTo(Duration),
    /// Start counting down, from the given time if one is given.
    Start(Option<Duration>),
    /// Stop counting down, leaving the given time on the clock if one is given.
    Stop(Option<Duration>),
    /// Add time to the clock.
    Increment(Duration),
    /// Take time off the clock.
    Decrement(Duration),
    /// The time on the clock has run out.
    Expired,
}

/// A command for a counter.
#[derive(Debug, Clone, Copy, PartialEq, Eq)]
pub enum CounterEvent {
    SetTo(u64),
    Increment,
    Decrement,
}

/// Whether a toggle is on.
#[derive(Debug, Clone, Copy, PartialEq, Eq, Structural)]
pub enum ToggleState {
    Active,
    Inactive,
}

/// A command for a toggle.
#[derive(Debug, Clone, Copy, PartialEq, Eq)]
pub enum ToggleEvent {
    Activate,
    Deactivate,
}

/// A command for a label.
#[derive(Debug, Clone, PartialEq, Eq)]
pub enum LabelEvent {
    SetTo(String),
}

impl ClockEvent {
    /// The clock command that `param` names, if it names one. A command
    /// that carries a time is read with no time: the empty span, or none
    /// where the time is optional.
    pub open spec fn named(param: Seq<char>) -> Option<ClockEvent> {
        if same_name(param, "Set"@) {
            Some(ClockEvent::SetTo(Duration::of_nanos(0)))
        } else if same_name(param, "Start"@) {
            Some(ClockEvent::Start(None))
        } else if same_name(param, "Stop"@) {
            Some(ClockEvent::Stop(None))
        } else if same_name(param, "Increment"@) {
            Some(ClockEvent::Increment(Duration::of_nanos(0)))
        } else if same_name(param, "Decrement"@) {
            Some(ClockEvent::Decrement(Duration::of_nanos(0)))
        } else if same_name(param, "Expired"@) {
            Some(ClockEvent::Expired)
        } else {
            None
        }
    }

    /// Two texts that differ only in the case of letters name the same
    /// clock command, or both name none.
    pub proof fn lemma_named_whatever_the_case(a: Seq<char>, b: Seq<char>)
        requires
            same_name(a, b),
        ensures
            ClockEvent::named(a) == ClockEvent::named(b),
    {
        lemma_same_name_is_an_equivalence(a, b, "Set"@);
        lemma_same_name_is_an_equivalence(a, b, "Start"@);
        lemma_same_name_is_an_equivalence(a, b, "Stop"@);
        lemma_same_name_is_an_equivalence(a, b, "Increment"@);
        lemma_same_name_is_an_equivalence(a, b, "Decrement"@);
        lemma_same_name_is_an_equivalence(a, b, "Expired"@);
    }

    /// Reads the name of a clock command.
    pub fn from_param(param: &str) -> (outcome: Result<ClockEvent, ParseError>)
        ensures
            outcome == (match ClockEvent::named(param@) {
                Some(event) => Ok::<ClockEvent, ParseError>(event),
                None => Err(ParseError::VariantNotFound),
            }),
    {
        if eq_ignore_ascii_case(param, "Set") {
            Ok(ClockEvent::SetTo(Duration::from_secs(0)))
        } else if eq_ignore_ascii_case(param, "Start") {
            Ok(ClockEvent::Start(None))
        } else if eq_ignore_ascii_case(param, "Stop") {
            Ok(ClockEvent::Stop(None))
        } else if eq_ignore_ascii_case(param, "Increment") {
            Ok(ClockEvent::Increment(Duration::from_secs(0)))
        } else if eq_ignore_ascii_case(param, "Decrement") {
            Ok(ClockEvent::Decrement(Duration::from_secs(0)))
        } else if eq_ignore_ascii_case(param, "Expired") {
            Ok(ClockEvent::Expired)
        } else {
            Err(ParseError::VariantNotFound)
        }
    }
}

impl CounterEvent {
    /// The counter command that `param` names, if it names one. The
    /// command that sets the counter is read with the number zero.
    pub open spec fn named(param: Seq<char>) -> Option<CounterEvent> {
        if same_name(param, "Set"@) {
            Some(CounterEvent::SetTo(0))
        } else if same_name(param, "Increment"@) {
            Some(CounterEvent::Increment)
        } else if same_name(param, "Decrement"@) {
            Some(CounterEvent::Decrement)
        } else {
            None
        }
    }

    /// Two texts that differ only in the case of letters name the same
    /// counter command, or both name none.
    pub proof fn lemma_named_whatever_the_case(a: Seq<char>, b: Seq<char>)
        requires
            same_name(a, b),
        ensures
            CounterEvent::named(a) == CounterEvent::named(b),
    {
        lemma_same_name_is_an_equivalence(a, b, "Set"@);
        lemma_same_name_is_an_equivalence(a, b, "Increment"@);
        lemma_same_name_is_an_equivalence(a, b, "Decrement"@);
    }

    /// Reads the name of a counter command.
    pub fn from_param(param: &str) -> (outcome: Result<CounterEvent, ParseError>)
        ensures
            outcome == (match CounterEvent::named(param@) {
                Some(event) => Ok::<CounterEvent, ParseError>(event),
                None => Err(ParseError::VariantNotFound),
            }),
    {
        if eq_ignore_ascii_case(param, "Set") {
            Ok(CounterEvent::SetTo(0))
        } else if eq_ignore_ascii_case(param, "Increment") {
            Ok(CounterEvent::Increment)
        } else if eq_ignore_ascii_case(param, "Decrement") {
            Ok(CounterEvent::Decrement)
        } else {
            Err(ParseError::VariantNotFound)
        }
    }
}

impl ToggleEvent {
    /// The toggle command that `param` names, if it names one.
    pub open spec fn named(param: Seq<char>) -> Option<ToggleEvent> {
        if same_name(param, "Activate"@) {
            Some(ToggleEvent::Activate)
        } else if same_name(param, "Deactivate"@) {
            Some(ToggleEvent::Deactivate)
        } else {
            None
        }
    }

    /// Two texts that differ only in the case of letters name the same
    /// toggle command, or both name none.
    pub proof fn lemma_named_whatever_the_case(a: Seq<char>, b: Seq<char>)
        requires
            same_name(a, b),
        ensures
            ToggleEvent::named(a) == ToggleEvent::named(b),
    {
        lemma_same_name_is_an_equivalence(a, b, "Activate"@);
        lemma_same_name_is_an_equivalence(a, b, "Deactivate"@);
    }

    /// Reads the name of a toggle command.
    pub fn from_param(param: &str) -> (outcome: Result<ToggleEvent, ParseError>)
        ensures
            outcome == (match ToggleEvent::named(param@) {
                Some(event) => Ok::<ToggleEvent, ParseError>(event),
                None => Err(ParseError::VariantNotFound),
            }),
    {
        if eq_ignore_ascii_case(param, "Activate") {
            Ok(ToggleEvent::Activate)
        } else if eq_ignore_ascii_case(param, "Deactivate") {
            Ok(ToggleEvent::Deactivate)
        } else {
            Err(ParseError::VariantNotFound)
        }
    }
}

impl LabelEvent {
    /// Whether `param` names the one label command, which sets the label.
    pub open spec fn is_named(param: Seq<char>) -> bool {
        same_name(param, "Set"@)
    }

    /// Reads the name of a label command. The command that sets the label
    /// is read with the empty text.
    pub fn from_param(param: &str) -> (outcome: Result<LabelEvent, ParseError>)
        ensures
            match outcome {
                Ok(LabelEvent::SetTo(text)) => LabelEvent::is_named(param@) && text@
                    == Seq::<char>::empty(),
                Err(error) => !LabelEvent::is_named(param@) && error
                    == ParseError::VariantNotFound,
            },
    {
        if eq_ignore_ascii_case(param, "Set") {
            Ok(LabelEvent::SetTo(String::new()))
        } else {
            Err(ParseError::VariantNotFound)
        }
    }
}

} // verus!
