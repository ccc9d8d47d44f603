use scoreboard::component::clock::{format_clock_face, ClockComponent};
use scoreboard::component::{Component, GlobalComponent};
use scoreboard::event::states::{ClockEvent, ClockState, CounterEvent, ToggleEvent};
use scoreboard::event::{Event, LogEvent};
use scoreboard::time::{Duration, Instant};

fn at(secs: u64) -> Instant {
    Instant::from_origin(Duration::from_secs(secs))
}

fn secs(secs: u64) -> Duration {
    Duration::from_secs(secs)
}

fn envelope(event: Event, when: u64) -> LogEvent {
    LogEvent::with_id(Component::Global(GlobalComponent::GameClock), event, at(when), Some(1), 2)
}

fn command(event: ClockEvent, when: u64) -> LogEvent {
    envelope(Event::Clock(event), when)
}

fn running_clock(remaining: u64, since: u64) -> ClockComponent {
    let mut clock = ClockComponent::new("clock".to_string(), at(0));
    clock.process_event(&command(ClockEvent::Start(Some(secs(remaining))), since));
    assert_eq!(clock.state, ClockState::Running);
    clock
}

fn stopped_clock(remaining: u64, since: u64) -> ClockComponent {
    let mut clock = ClockComponent::new("clock".to_string(), at(0));
    clock.process_event(&command(ClockEvent::SetTo(secs(remaining)), since));
    assert_eq!(clock.state, ClockState::Stopped);
    clock
}

fn shows(clock: &ClockComponent, state: ClockState, remaining: Duration, since: Instant) {
    assert_eq!(clock.state, state);
    assert_eq!(clock.last_time_remaining, remaining);
    assert_eq!(clock.last_state_change, since);
}

#[test]
fn new_clock_is_stopped_at_zero() {
    let clock = ClockComponent::new("game_clock".to_string(), at(7));
    shows(&clock, ClockState::Stopped, secs(0), at(7));
    assert_eq!(clock.name, "game_clock");
}

#[test]
fn start_without_time_leaves_clock_stopped() {
    let mut clock = ClockComponent::new("game_clock".to_string(), at(0));
    clock.process_event(&command(ClockEvent::Start(None), 5));
    shows(&clock, ClockState::Stopped, secs(0), at(0));
}

#[test]
fn start_with_zero_override_is_noop() {
    let mut clock = stopped_clock(30, 1);
    clock.process_event(&command(ClockEvent::Start(Some(secs(0))), 5));
    shows(&clock, ClockState::Stopped, secs(30), at(1));
}

#[test]
fn start_with_override_runs_from_override() {
    let mut clock = stopped_clock(30, 1);
    clock.process_event(&command(ClockEvent::Start(Some(secs(10))), 5));
    shows(&clock, ClockState::Running, secs(10), at(5));
}

#[test]
fn start_resumes_with_time_on_clock() {
    let mut clock = stopped_clock(30, 1);
    clock.process_event(&command(ClockEvent::Start(None), 5));
    shows(&clock, ClockState::Running, secs(30), at(5));
}

#[test]
fn start_on_running_clock_is_noop() {
    let mut clock = running_clock(30, 1);
    clock.process_event(&command(ClockEvent::Start(None), 5));
    shows(&clock, ClockState::Running, secs(30), at(1));
    clock.process_event(&command(ClockEvent::Start(Some(secs(99))), 6));
    shows(&clock, ClockState::Running, secs(30), at(1));
}

#[test]
fn set_overrides_remaining_in_any_state() {
    let mut running = running_clock(30, 1);
    running.process_event(&command(ClockEvent::SetTo(secs(12)), 9));
    shows(&running, ClockState::Running, secs(12), at(9));

    let mut stopped = stopped_clock(30, 1);
    stopped.process_event(&command(ClockEvent::SetTo(secs(12)), 9));
    shows(&stopped, ClockState::Stopped, secs(12), at(9));

    stopped.process_event(&command(ClockEvent::SetTo(secs(0)), 10));
    shows(&stopped, ClockState::Stopped, secs(0), at(10));
}

#[test]
fn stop_folds_in_elapsed_time() {
    let mut clock = running_clock(30, 1);
    clock.process_event(&command(ClockEvent::Stop(None), 11));
    shows(&clock, ClockState::Stopped, secs(20), at(11));
}

#[test]
fn stop_after_time_ran_out_leaves_zero() {
    let mut clock = running_clock(30, 1);
    clock.process_event(&command(ClockEvent::Stop(None), 100));
    shows(&clock, ClockState::Stopped, secs(0), at(100));
}

#[test]
fn stop_with_override_leaves_override() {
    let mut clock = running_clock(30, 1);
    clock.process_event(&command(ClockEvent::Stop(Some(secs(25))), 11));
    shows(&clock, ClockState::Stopped, secs(25), at(11));
}

#[test]
fn stop_on_stopped_clock_is_noop() {
    let mut clock = stopped_clock(30, 1);
    clock.process_event(&command(ClockEvent::Stop(None), 11));
    shows(&clock, ClockState::Stopped, secs(30), at(1));
    clock.process_event(&command(ClockEvent::Stop(Some(secs(5))), 12));
    shows(&clock, ClockState::Stopped, secs(30), at(1));
}

#[test]
fn stop_then_start_keeps_remaining() {
    let mut clock = running_clock(30, 1);
    clock.process_event(&command(ClockEvent::Stop(None), 11));
    assert_eq!(clock.get_time_remaining(at(11)), secs(20));
    assert_eq!(clock.get_time_remaining(at(5_000)), secs(20));
    clock.process_event(&command(ClockEvent::Start(None), 5_000));
    shows(&clock, ClockState::Running, secs(20), at(5_000));
    assert_eq!(clock.get_time_remaining(at(5_000)), secs(20));
    assert_eq!(clock.get_time_remaining(at(5_001)), secs(19));
}

#[test]
fn increment_on_running_clock_folds_elapsed_first() {
    let mut clock = running_clock(30, 1);
    clock.process_event(&command(ClockEvent::Increment(secs(5)), 11));
    shows(&clock, ClockState::Running, secs(25), at(11));
}

#[test]
fn increment_after_time_ran_out_starts_from_zero() {
    let mut clock = running_clock(30, 1);
    clock.process_event(&command(ClockEvent::Increment(secs(5)), 100));
    shows(&clock, ClockState::Running, secs(5), at(100));
}

#[test]
fn increment_on_stopped_clock_ignores_elapsed() {
    let mut clock = stopped_clock(30, 1);
    clock.process_event(&command(ClockEvent::Increment(secs(5)), 11));
    shows(&clock, ClockState::Stopped, secs(35), at(11));
}

#[test]
fn increment_saturates_at_longest_duration() {
    let mut clock = stopped_clock(u64::MAX, 1);
    clock.process_event(&command(ClockEvent::Increment(secs(u64::MAX)), 2));
    assert_eq!(clock.state, ClockState::Stopped);
    assert_eq!(
        clock.last_time_remaining.as_nanos(),
        18_446_744_073_709_551_615_999_999_999
    );
}

#[test]
fn decrement_on_running_clock_folds_elapsed_first() {
    let mut clock = running_clock(30, 1);
    clock.process_event(&command(ClockEvent::Decrement(secs(5)), 11));
    shows(&clock, ClockState::Running, secs(15), at(11));
}

#[test]
fn decrement_below_zero_yields_zero() {
    let mut clock = stopped_clock(30, 1);
    clock.process_event(&command(ClockEvent::Decrement(secs(31)), 11));
    shows(&clock, ClockState::Stopped, secs(0), at(11));

    let mut running = running_clock(30, 1);
    running.process_event(&command(ClockEvent::Decrement(secs(25)), 11));
    shows(&running, ClockState::Running, secs(0), at(11));
}

#[test]
fn decrement_to_exactly_zero() {
    let mut clock = stopped_clock(30, 1);
    clock.process_event(&command(ClockEvent::Decrement(secs(30)), 11));
    shows(&clock, ClockState::Stopped, secs(0), at(11));
}

#[test]
fn expired_stops_at_zero() {
    let mut clock = running_clock(30, 1);
    clock.process_event(&command(ClockEvent::Expired, 40));
    shows(&clock, ClockState::Stopped, secs(0), at(40));

    let mut stopped = stopped_clock(30, 1);
    stopped.process_event(&command(ClockEvent::Expired, 40));
    shows(&stopped, ClockState::Stopped, secs(0), at(40));
}

#[test]
fn reset_stops_at_zero() {
    let mut clock = running_clock(30, 1);
    clock.process_event(&envelope(Event::Reset, 9));
    shows(&clock, ClockState::Stopped, secs(0), at(9));
}

#[test]
fn commands_for_other_kinds_leave_clock_alone() {
    let mut clock = running_clock(30, 1);
    clock.process_event(&envelope(Event::Counter(CounterEvent::SetTo(3)), 9));
    clock.process_event(&envelope(Event::Toggle(ToggleEvent::Activate), 9));
    clock.process_event(&envelope(Event::SnapshotRequest, 9));
    shows(&clock, ClockState::Running, secs(30), at(1));
}

#[test]
fn effective_remaining_of_running_clock() {
    let clock = running_clock(30, 10);
    assert_eq!(clock.get_time_remaining(at(10)), secs(30));
    assert_eq!(clock.get_time_remaining(at(25)), secs(15));
    assert_eq!(clock.get_time_remaining(at(40)), secs(0));
    assert_eq!(clock.get_time_remaining(at(41)), secs(0));
    assert_eq!(clock.get_time_remaining(at(3)), secs(30));
}

#[test]
fn effective_remaining_keeps_sub_second_precision() {
    let mut clock = ClockComponent::new("clock".to_string(), at(0));
    let t0 = Instant::from_origin(Duration::from_millis(1_250));
    clock.process_event(&LogEvent::with_id(
        Component::Global(GlobalComponent::GameClock),
        Event::Clock(ClockEvent::Start(Some(Duration::from_millis(10_000)))),
        t0,
        None,
        9,
    ));
    let now = Instant::from_origin(Duration::from_millis(4_751));
    assert_eq!(clock.get_time_remaining(now), Duration::from_millis(6_499));
}

#[test]
fn ten_second_clock_expires_after_eleven() {
    let mut clock = ClockComponent::new("game_clock".to_string(), at(100));
    clock.process_event(&command(ClockEvent::Start(Some(secs(10))), 100));
    shows(&clock, ClockState::Running, secs(10), at(100));
    assert_eq!(clock.get_time_remaining(at(111)), secs(0));
    clock.process_event(&command(ClockEvent::Expired, 111));
    shows(&clock, ClockState::Stopped, secs(0), at(111));
}

#[test]
fn clock_face_shows_minutes_and_seconds() {
    assert_eq!(format_clock_face(secs(0)), "00:00");
    assert_eq!(format_clock_face(secs(9)), "00:09");
    assert_eq!(format_clock_face(secs(75)), "01:15");
    assert_eq!(format_clock_face(secs(600)), "10:00");
    assert_eq!(format_clock_face(secs(3_599)), "59:59");
    assert_eq!(format_clock_face(Duration::from_millis(59_999)), "00:59");
}

#[test]
fn clock_face_wraps_at_the_hour() {
    assert_eq!(format_clock_face(secs(3_600)), "00:00");
    assert_eq!(format_clock_face(secs(3_600 + 125)), "02:05");
    assert_eq!(format_clock_face(secs(u64::MAX)), "00:15");
}
