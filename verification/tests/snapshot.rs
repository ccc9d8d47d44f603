use scoreboard::component::{Component, Data, GlobalComponent, Snapshot, TeamComponent};
use scoreboard::snapshot::{Collected, SnapshotCollector};

fn report(component: Component, name: &str, number: u64) -> Snapshot {
    Snapshot { component, name: name.to_string(), data: Data::Counter(number) }
}

fn home_score() -> Component {
    Component::Home(TeamComponent::Score)
}

fn away_score() -> Component {
    Component::Away(TeamComponent::Score)
}

fn period() -> Component {
    Component::Global(GlobalComponent::Period)
}

#[test]
fn collector_keeps_first_report_of_each_expected_component() {
    let mut collector = SnapshotCollector::new(vec![home_score(), away_score()]);
    assert!(!collector.is_complete());
    assert!(collector.offer(report(home_score(), "home_score", 1)));
    assert!(!collector.is_complete());
    assert!(!collector.offer(report(home_score(), "home_score", 2)));
    assert!(!collector.offer(report(period(), "period", 1)));
    assert!(collector.offer(report(away_score(), "away_score", 3)));
    assert!(collector.is_complete());
    assert!(!collector.offer(report(away_score(), "away_score", 4)));
    match collector.finish() {
        Collected::Complete(replies) => {
            assert_eq!(
                replies,
                vec![report(home_score(), "home_score", 1), report(away_score(), "away_score", 3)]
            );
        },
        Collected::Partial(_) => panic!("every expected component reported"),
    }
}

#[test]
fn collector_closed_early_hands_over_a_partial_view() {
    let mut collector = SnapshotCollector::new(vec![home_score(), away_score(), period()]);
    assert!(collector.offer(report(period(), "period", 2)));
    match collector.finish() {
        Collected::Partial(replies) => assert_eq!(replies, vec![report(period(), "period", 2)]),
        Collected::Complete(_) => panic!("two components never reported"),
    }
}

#[test]
fn collector_that_expects_nobody_is_complete_at_once() {
    let mut collector = SnapshotCollector::new(Vec::new());
    assert!(collector.is_complete());
    assert!(!collector.offer(report(period(), "period", 2)));
    match collector.finish() {
        Collected::Complete(replies) => assert!(replies.is_empty()),
        Collected::Partial(_) => panic!("nobody was expected"),
    }
}

#[test]
fn collector_tolerates_an_expected_component_named_twice() {
    let mut collector = SnapshotCollector::new(vec![period(), period()]);
    assert!(collector.offer(report(period(), "period", 2)));
    assert!(!collector.offer(report(period(), "period", 3)));
    assert!(collector.is_complete());
    match collector.finish() {
        Collected::Complete(replies) => assert_eq!(replies.len(), 1),
        Collected::Partial(_) => panic!("the one component reported"),
    }
}
