use groundsub::activity::CompletedActivity;
use groundsub::dedup::{dedup_activities_prioritizing_completed, merge};

fn act(id: &str, period: i64, completed: bool) -> CompletedActivity {
    CompletedActivity {
        instance_id: id.to_string(),
        period,
        activity_duration_seconds: 600,
        modes: vec![4],
        completed,
        activity_hash: 777,
    }
}

#[test]
fn merge_empty_is_empty() {
    let r = merge(Vec::new());
    assert!(r.is_empty());
}

#[test]
fn merge_is_idempotent() {
    let input = vec![
        act("a", 30, false),
        act("b", 10, true),
        act("a", 30, true),
        act("c", 20, false),
        act("b", 10, false),
    ];
    let once = merge(input);
    let twice = merge(once.clone());
    assert_eq!(once, twice);
}

#[test]
fn merge_prefers_completed_regardless_of_arrival_order() {
    let incomplete_first = merge(vec![act("x", 5, false), act("x", 5, true)]);
    assert_eq!(incomplete_first.len(), 1);
    assert!(incomplete_first[0].completed);

    let complete_first = merge(vec![act("x", 5, true), act("x", 5, false)]);
    assert_eq!(complete_first.len(), 1);
    assert!(complete_first[0].completed);
}

#[test]
fn merge_keeps_incomplete_when_no_duplicate_completed() {
    let r = merge(vec![act("x", 5, false), act("x", 5, false)]);
    assert_eq!(r.len(), 1);
    assert!(!r[0].completed);
}

#[test]
fn merge_sorts_by_period_descending() {
    let r = merge(vec![act("a", 10, true), act("b", 40, false), act("c", 25, true)]);
    let periods: Vec<i64> = r.iter().map(|a| a.period).collect();
    assert_eq!(periods, vec![40, 25, 10]);
}

#[test]
fn merge_single_entry_per_instance_id() {
    let r = merge(vec![
        act("a", 1, false),
        act("a", 1, false),
        act("a", 1, true),
        act("b", 2, false),
    ]);
    assert_eq!(r.len(), 2);
    let mut ids: Vec<String> = r.iter().map(|a| a.instance_id.clone()).collect();
    ids.sort();
    assert_eq!(ids, vec!["a".to_string(), "b".to_string()]);
}

#[test]
fn observed_incomplete_then_completed_yields_one_completed_entry() {
    // An activity seen first as incomplete and later as completed keeps
    // exactly one entry, marked completed.
    let first_observation = act("X", 100, false);
    let second_observation = act("X", 100, true);
    let r = merge(vec![first_observation, second_observation]);
    assert_eq!(r.len(), 1);
    assert_eq!(r[0].instance_id, "X");
    assert!(r[0].completed);
}

#[test]
fn dedup_keeps_first_occurrence_order_and_upgrades_completed() {
    let r = dedup_activities_prioritizing_completed(vec![
        act("a", 10, false),
        act("b", 40, false),
        act("a", 10, true),
    ]);
    assert_eq!(r.len(), 2);
    assert_eq!(r[0].instance_id, "a");
    assert!(r[0].completed);
    assert_eq!(r[1].instance_id, "b");
}
