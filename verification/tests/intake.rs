use scoreboard::component::{Component, GlobalComponent, Kind, TeamComponent};
use scoreboard::event::states::{ClockEvent, CounterEvent, LabelEvent, ToggleEvent};
use scoreboard::event::Event;
use scoreboard::intake::{
    clock_event_handler, counter_event_handler, label_event_handler, toggle_event_handler,
    Rejected,
};
use scoreboard::time::{Duration, Instant};

fn noon() -> Instant {
    Instant::from_origin(Duration::from_secs(12 * 3600))
}

fn clock_target() -> Component {
    Component::Global(GlobalComponent::GameClock)
}

fn counter_target() -> Component {
    Component::Home(TeamComponent::Score)
}

fn toggle_target() -> Component {
    Component::Away(TeamComponent::TimeOutWarning)
}

fn label_target() -> Component {
    Component::Home(TeamComponent::TeamName)
}

#[test]
fn counter_command_to_clock_is_rejected() {
    let outcome =
        counter_event_handler(clock_target(), CounterEvent::SetTo(0), Some(3), None, None, noon());
    assert_eq!(outcome, Err(Rejected { target: clock_target(), expected: Kind::Counter }));
}

#[test]
fn clock_command_to_non_clock_is_rejected() {
    for target in [counter_target(), toggle_target(), label_target(), Component::All] {
        let outcome =
            clock_event_handler(target, ClockEvent::Start(None), None, None, None, noon());
        assert_eq!(outcome, Err(Rejected { target, expected: Kind::Clock }));
    }
}

#[test]
fn toggle_command_to_non_toggle_is_rejected() {
    for target in [clock_target(), counter_target(), label_target(), Component::All] {
        let outcome = toggle_event_handler(target, ToggleEvent::Activate, None, None, noon());
        assert_eq!(outcome, Err(Rejected { target, expected: Kind::Toggle }));
    }
}

#[test]
fn label_command_to_non_label_is_rejected() {
    for target in [clock_target(), counter_target(), toggle_target(), Component::All] {
        let outcome = label_event_handler(
            target,
            LabelEvent::SetTo(String::new()),
            Some("x".to_string()),
            None,
            None,
            noon(),
        );
        assert_eq!(outcome, Err(Rejected { target, expected: Kind::Label }));
    }
}

#[test]
fn clock_set_takes_value_in_milliseconds() {
    let envelope = clock_event_handler(
        clock_target(),
        ClockEvent::SetTo(Duration::from_secs(0)),
        Some(90_500),
        None,
        None,
        noon(),
    )
    .unwrap();
    assert_eq!(envelope.component, clock_target());
    assert_eq!(envelope.event, Event::Clock(ClockEvent::SetTo(Duration::from_millis(90_500))));
    assert_eq!(envelope.timestamp, noon());
}

#[test]
fn clock_set_without_value_keeps_its_time() {
    let envelope = clock_event_handler(
        clock_target(),
        ClockEvent::SetTo(Duration::from_secs(7)),
        None,
        None,
        None,
        noon(),
    )
    .unwrap();
    assert_eq!(envelope.event, Event::Clock(ClockEvent::SetTo(Duration::from_secs(7))));
}

#[test]
fn value_is_ignored_by_clock_commands_that_do_not_set() {
    let cases = [
        ClockEvent::Start(None),
        ClockEvent::Stop(None),
        ClockEvent::Increment(Duration::from_secs(0)),
        ClockEvent::Decrement(Duration::from_secs(0)),
        ClockEvent::Expired,
    ];
    for clock_event in cases {
        let envelope =
            clock_event_handler(clock_target(), clock_event, Some(5_000), None, None, noon())
                .unwrap();
        assert_eq!(envelope.event, Event::Clock(clock_event));
    }
}

#[test]
fn counter_set_takes_value() {
    let envelope = counter_event_handler(
        counter_target(),
        CounterEvent::SetTo(0),
        Some(3),
        Some(Instant::from_origin(Duration::from_secs(1))),
        Some("00000000-0000-0000-0000-00000000002a".to_string()),
        noon(),
    )
    .unwrap();
    assert_eq!(envelope.event, Event::Counter(CounterEvent::SetTo(3)));
    assert_eq!(envelope.timestamp, Instant::from_origin(Duration::from_secs(1)));
    assert_eq!(envelope.log_id, 42);
    assert_eq!(envelope.component, counter_target());

    let plain =
        counter_event_handler(counter_target(), CounterEvent::Increment, Some(3), None, None, noon())
            .unwrap();
    assert_eq!(plain.event, Event::Counter(CounterEvent::Increment));
}

#[test]
fn toggle_command_goes_through_unchanged() {
    let envelope =
        toggle_event_handler(toggle_target(), ToggleEvent::Deactivate, None, None, noon()).unwrap();
    assert_eq!(envelope.event, Event::Toggle(ToggleEvent::Deactivate));
    assert_eq!(envelope.component, toggle_target());
}

#[test]
fn label_set_takes_value() {
    let envelope = label_event_handler(
        label_target(),
        LabelEvent::SetTo(String::new()),
        Some("Lions".to_string()),
        None,
        None,
        noon(),
    )
    .unwrap();
    assert_eq!(envelope.event, Event::Label(LabelEvent::SetTo("Lions".to_string())));

    let kept = label_event_handler(
        label_target(),
        LabelEvent::SetTo("Tigers".to_string()),
        None,
        None,
        None,
        noon(),
    )
    .unwrap();
    assert_eq!(kept.event, Event::Label(LabelEvent::SetTo("Tigers".to_string())));
}
