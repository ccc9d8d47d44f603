use scoreboard::component::label::{InternalLabel, Label};
use scoreboard::component::toggle::{InteralToggle, Siren, Toggle};
use scoreboard::component::{
    Component, Data, EventListener, GlobalComponent, ScoreboardComponent, Snapshot, TeamComponent,
};
use scoreboard::event::states::{CounterEvent, LabelEvent, ToggleEvent, ToggleState};
use scoreboard::event::{Event, LogEvent};
use scoreboard::time::{Duration, Instant};

fn letter(target: Component, event: Event) -> LogEvent {
    LogEvent::with_id(target, event, Instant::from_origin(Duration::from_secs(1)), Some(5), 0)
}

fn set_label(text: &str) -> Event {
    Event::Label(LabelEvent::SetTo(text.to_string()))
}

#[test]
fn label_set_takes_the_text() {
    let mut label = InternalLabel::new("home".to_string(), "Home".to_string());
    assert_eq!(label.value, "Home");
    assert_eq!(label.orig_value, "Home");
    label.process_event(&letter(Component::All, set_label("Lions")));
    assert_eq!(label.value, "Lions");
    assert_eq!(label.orig_value, "Home");
    assert_eq!(label.name, "home");
}

#[test]
fn label_reset_restores_construction_text_not_last_set() {
    let mut label = InternalLabel::new("home".to_string(), "Home".to_string());
    label.process_event(&letter(Component::All, set_label("Lions")));
    label.process_event(&letter(Component::All, set_label("Tigers")));
    label.process_event(&letter(Component::All, Event::Reset));
    assert_eq!(label.value, "Home");
}

#[test]
fn label_ignores_commands_for_other_kinds() {
    let mut label = InternalLabel::new("home".to_string(), "Home".to_string());
    label.process_event(&letter(Component::All, Event::Counter(CounterEvent::SetTo(1))));
    label.process_event(&letter(Component::All, Event::SnapshotRequest));
    assert_eq!(label.value, "Home");
}

#[test]
fn label_actor_filters_by_identity() {
    let home = Component::Home(TeamComponent::TeamName);
    let mut label = Label::new(home, "home", "Home");
    label.notify(&letter(Component::Away(TeamComponent::TeamName), set_label("Bears")));
    assert_eq!(label.label.value, "Home");
    let reaction = label.notify(&letter(home, set_label("Lions")));
    assert_eq!(label.label.value, "Lions");
    assert!(reaction.publish.is_empty());
    assert_eq!(reaction.reply, None);
    assert_eq!(
        label.get_data(Instant::from_origin(Duration::from_secs(0))),
        Snapshot { component: home, name: "home".to_string(), data: Data::Label("Lions".to_string()) }
    );
}

#[test]
fn label_actor_answers_requests_that_concern_it() {
    let home = Component::Home(TeamComponent::TeamName);
    let mut label = Label::new(home, "home", "Home");
    let expected =
        Snapshot { component: home, name: "home".to_string(), data: Data::Label("Home".to_string()) };
    assert_eq!(label.notify(&letter(home, Event::SnapshotRequest)).reply, Some(expected.clone()));
    assert_eq!(label.notify(&letter(Component::All, Event::SnapshotRequest)).reply, Some(expected));
    assert_eq!(
        label.notify(&letter(Component::Away(TeamComponent::TeamName), Event::SnapshotRequest)).reply,
        None
    );
}

#[test]
fn toggle_starts_inactive_and_follows_commands() {
    let mut toggle = InteralToggle::new("siren".to_string());
    assert_eq!(toggle.state, ToggleState::Inactive);
    toggle.process_event(&letter(Component::All, Event::Toggle(ToggleEvent::Activate)));
    assert_eq!(toggle.state, ToggleState::Active);
    toggle.process_event(&letter(Component::All, Event::Toggle(ToggleEvent::Activate)));
    assert_eq!(toggle.state, ToggleState::Active);
    toggle.process_event(&letter(Component::All, Event::Toggle(ToggleEvent::Deactivate)));
    assert_eq!(toggle.state, ToggleState::Inactive);
}

#[test]
fn toggle_is_left_alone_by_reset() {
    let mut toggle = InteralToggle::new("siren".to_string());
    toggle.process_event(&letter(Component::All, Event::Toggle(ToggleEvent::Activate)));
    toggle.process_event(&letter(Component::All, Event::Reset));
    assert_eq!(toggle.state, ToggleState::Active);
}

#[test]
fn toggle_actor_filters_by_identity() {
    let warning = Component::Home(TeamComponent::TeamFoulWarning);
    let mut toggle = Toggle::new(warning, "home_team_foul_warning");
    toggle.notify(&letter(
        Component::Away(TeamComponent::TeamFoulWarning),
        Event::Toggle(ToggleEvent::Activate),
    ));
    assert_eq!(toggle.toggle.state, ToggleState::Inactive);
    let reaction = toggle.notify(&letter(warning, Event::Toggle(ToggleEvent::Activate)));
    assert_eq!(toggle.toggle.state, ToggleState::Active);
    assert!(reaction.publish.is_empty());
    assert_eq!(
        toggle.notify(&letter(Component::All, Event::SnapshotRequest)).reply,
        Some(Snapshot {
            component: warning,
            name: "home_team_foul_warning".to_string(),
            data: Data::Toggle(true),
        })
    );
}

#[test]
fn siren_listens_at_its_own_address() {
    let mut siren = Siren::new();
    assert_eq!(siren.state.name, "siren");
    siren.notify(&letter(
        Component::Home(TeamComponent::TimeOutWarning),
        Event::Toggle(ToggleEvent::Activate),
    ));
    assert_eq!(siren.state.state, ToggleState::Inactive);
    siren.notify(&letter(
        Component::Global(GlobalComponent::Siren),
        Event::Toggle(ToggleEvent::Activate),
    ));
    assert_eq!(siren.state.state, ToggleState::Active);
    assert_eq!(
        siren.get_data(Instant::from_origin(Duration::from_secs(0))),
        Snapshot {
            component: Component::Global(GlobalComponent::Siren),
            name: "siren".to_string(),
            data: Data::Toggle(true),
        }
    );
    siren.notify(&letter(
        Component::Global(GlobalComponent::Siren),
        Event::Toggle(ToggleEvent::Deactivate),
    ));
    assert_eq!(siren.state.state, ToggleState::Inactive);
}
