use scoreboard::component::clock::{
    start_expiry_watcher, ClockComponent, WatcherCommand, POLL_INTERVAL_MILLIS, SIREN_HOLD_MILLIS,
};
use scoreboard::component::{ClockData, Component, Data, GlobalComponent, Snapshot};
use scoreboard::event::states::{ClockEvent, ClockState, ToggleEvent};
use scoreboard::event::{Event, LogEvent};
use scoreboard::time::{Duration, Instant};

fn game_clock() -> Component {
    Component::Global(GlobalComponent::GameClock)
}

fn siren() -> Component {
    Component::Global(GlobalComponent::Siren)
}

fn moment(secs: u64) -> Instant {
    Instant::from_origin(Duration::from_secs(secs))
}

fn expired(component: Component) -> WatcherCommand {
    WatcherCommand::Publish(component, Event::Clock(ClockEvent::Expired))
}

#[test]
fn watcher_intervals() {
    assert_eq!(POLL_INTERVAL_MILLIS, 200);
    assert_eq!(SIREN_HOLD_MILLIS, 2_000);
}

#[test]
fn watcher_keeps_what_it_was_started_with() {
    let watcher = start_expiry_watcher(Component::Global(GlobalComponent::ShotClock), false);
    assert_eq!(watcher.component, Component::Global(GlobalComponent::ShotClock));
    assert!(!watcher.activate_siren);
}

#[test]
fn stopped_clock_is_never_due() {
    let watcher = start_expiry_watcher(game_clock(), true);
    let commands =
        watcher.poll(ClockState::Stopped, moment(0), Duration::from_secs(0), moment(1_000));
    assert_eq!(commands, vec![WatcherCommand::Sleep(200)]);
}

#[test]
fn running_clock_with_time_left_is_not_due() {
    let watcher = start_expiry_watcher(game_clock(), true);
    let commands =
        watcher.poll(ClockState::Running, moment(100), Duration::from_secs(10), moment(109));
    assert_eq!(commands, vec![WatcherCommand::Sleep(200)]);
}

#[test]
fn running_clock_is_due_exactly_when_time_has_passed() {
    let watcher = start_expiry_watcher(game_clock(), false);
    let a_nanosecond_short = Instant::from_origin(
        Duration::from_secs(110).saturating_sub(Duration::from_nanos(1)),
    );
    let early =
        watcher.poll(ClockState::Running, moment(100), Duration::from_secs(10), a_nanosecond_short);
    assert_eq!(early, vec![WatcherCommand::Sleep(200)]);
    let on_time =
        watcher.poll(ClockState::Running, moment(100), Duration::from_secs(10), moment(110));
    assert_eq!(on_time, vec![expired(game_clock()), WatcherCommand::Sleep(200)]);
}

#[test]
fn expiry_with_siren_pulses_the_siren() {
    let watcher = start_expiry_watcher(game_clock(), true);
    let commands =
        watcher.poll(ClockState::Running, moment(100), Duration::from_secs(10), moment(111));
    assert_eq!(
        commands,
        vec![
            expired(game_clock()),
            WatcherCommand::Publish(siren(), Event::Toggle(ToggleEvent::Activate)),
            WatcherCommand::Sleep(2_000),
            WatcherCommand::Publish(siren(), Event::Toggle(ToggleEvent::Deactivate)),
            WatcherCommand::Sleep(200),
        ]
    );
}

#[test]
fn expiry_without_siren_only_tells_the_clock() {
    let shot_clock = Component::Global(GlobalComponent::ShotClock);
    let watcher = start_expiry_watcher(shot_clock, false);
    let commands =
        watcher.poll(ClockState::Running, moment(100), Duration::from_secs(10), moment(111));
    assert_eq!(commands, vec![expired(shot_clock), WatcherCommand::Sleep(200)]);
}

#[test]
fn expiry_fires_once_per_run_to_zero() {
    let watcher = start_expiry_watcher(game_clock(), true);
    let mut clock = ClockComponent::new("game_clock".to_string(), moment(0));
    clock.process_event(&LogEvent::with_id(
        game_clock(),
        Event::Clock(ClockEvent::Start(Some(Duration::from_secs(10)))),
        moment(100),
        None,
        1,
    ));
    let mut told = 0;
    let mut millis: u64 = 100_000;
    while millis < 130_000 {
        let now = Instant::from_origin(Duration::from_millis(millis));
        let commands =
            watcher.poll(clock.state, clock.last_state_change, clock.last_time_remaining, now);
        for command in commands {
            if let WatcherCommand::Publish(target, event) = command {
                if target == game_clock() {
                    assert_eq!(event, Event::Clock(ClockEvent::Expired));
                    assert_eq!(now, moment(110));
                    told += 1;
                    clock.process_event(&LogEvent::with_id(target, event, now, None, 2));
                }
            }
        }
        millis += 200;
    }
    assert_eq!(told, 1);
    assert_eq!(clock.state, ClockState::Stopped);
    assert_eq!(clock.last_time_remaining, Duration::from_secs(0));
    assert_eq!(clock.last_state_change, moment(110));
}

#[test]
fn clock_started_again_can_expire_again() {
    let watcher = start_expiry_watcher(game_clock(), false);
    let mut clock = ClockComponent::new("game_clock".to_string(), moment(0));
    let mut told = 0;
    for start in [100u64, 200u64] {
        clock.process_event(&LogEvent::with_id(
            game_clock(),
            Event::Clock(ClockEvent::Start(Some(Duration::from_secs(10)))),
            moment(start),
            None,
            1,
        ));
        for offset in [5u64, 10, 15, 20] {
            let now = moment(start + offset);
            let commands =
                watcher.poll(clock.state, clock.last_state_change, clock.last_time_remaining, now);
            if commands.len() == 2 {
                told += 1;
                clock.process_event(&LogEvent::with_id(
                    game_clock(),
                    Event::Clock(ClockEvent::Expired),
                    now,
                    None,
                    2,
                ));
            }
        }
    }
    assert_eq!(told, 2);
}

#[test]
fn watcher_looks_at_reports() {
    let watcher = start_expiry_watcher(game_clock(), false);
    let running = Snapshot {
        component: game_clock(),
        name: "game_clock".to_string(),
        data: Data::Clock(ClockData {
            state: ClockState::Running,
            last_state_change: moment(100),
            last_time_remaining: Duration::from_secs(10),
            time_remaining: Duration::from_secs(0),
        }),
    };
    assert_eq!(
        watcher.look_at(&running, moment(110)),
        vec![expired(game_clock()), WatcherCommand::Sleep(200)]
    );
    assert_eq!(watcher.look_at(&running, moment(109)), vec![WatcherCommand::Sleep(200)]);
    let not_a_clock =
        Snapshot { component: siren(), name: "siren".to_string(), data: Data::Toggle(true) };
    assert_eq!(watcher.look_at(&not_a_clock, moment(110)), vec![WatcherCommand::Sleep(200)]);
}

#[test]
fn running_clock_with_nothing_on_it_is_due_at_once() {
    let watcher = start_expiry_watcher(game_clock(), false);
    let commands =
        watcher.poll(ClockState::Running, moment(100), Duration::from_secs(0), moment(100));
    assert_eq!(commands, vec![expired(game_clock()), WatcherCommand::Sleep(200)]);
}
