use groundsub::activity::{ActivityInfo, CharacterActivity, CurrentActivity, PollError};
use groundsub::updater::{apply_detail, evaluate_current, CurrentStep, DetailOutcome};

fn snap(date: i64, hash: u64) -> CharacterActivity {
    CharacterActivity { date_activity_started: date, current_activity_hash: hash }
}

fn info(name: &str, modes: Vec<u32>) -> ActivityInfo {
    ActivityInfo { name: name.to_string(), activity_modes: modes }
}

#[test]
fn missing_snapshots_mean_private_profile() {
    let mut last = CurrentActivity::initial();
    let r = evaluate_current(&mut last, &None);
    assert_eq!(r, Err(PollError::ProfilePrivate));
}

#[test]
fn empty_snapshots_mean_no_character_data() {
    let mut last = CurrentActivity::initial();
    let r = evaluate_current(&mut last, &Some(Vec::new()));
    assert_eq!(r, Err(PollError::NoCharacterData));
}

#[test]
fn stale_snapshot_reports_unchanged() {
    let mut last = CurrentActivity { start_date: 100, activity_hash: 7, activity_info: None };
    let r = evaluate_current(&mut last, &Some(vec![snap(50, 9)]));
    assert_eq!(r, Ok(CurrentStep::Unchanged));
    assert_eq!(last.start_date, 100);
}

#[test]
fn equal_date_and_matching_hash_report_unchanged() {
    // The newest start date is not strictly newer and the hash matches.
    let mut last = CurrentActivity {
        start_date: 100,
        activity_hash: 7,
        activity_info: Some(info("The Arena", vec![4])),
    };
    let r = evaluate_current(&mut last, &Some(vec![snap(100, 7)]));
    assert_eq!(r, Ok(CurrentStep::Unchanged));
    assert_eq!(last.start_date, 100);
    assert_eq!(last.activity_hash, 7);
}

#[test]
fn equal_date_without_metadata_reports_unchanged() {
    let mut last = CurrentActivity { start_date: 100, activity_hash: 7, activity_info: None };
    let r = evaluate_current(&mut last, &Some(vec![snap(100, 8)]));
    assert_eq!(r, Ok(CurrentStep::Unchanged));
}

#[test]
fn newer_snapshot_with_zero_hash_clears_to_no_activity() {
    let mut last = CurrentActivity {
        start_date: 100,
        activity_hash: 7,
        activity_info: Some(info("The Arena", vec![4])),
    };
    let r = evaluate_current(&mut last, &Some(vec![snap(200, 0)]));
    assert_eq!(r, Ok(CurrentStep::NoActivity));
    assert_eq!(last.start_date, 200);
    assert!(last.activity_info.is_none());
    // The hash is left as it was on a transition to "no activity".
    assert_eq!(last.activity_hash, 7);
}

#[test]
fn newer_snapshot_asks_for_detail_of_the_newest_character() {
    let mut last = CurrentActivity::initial();
    let r = evaluate_current(&mut last, &Some(vec![snap(10, 3), snap(30, 4), snap(20, 5)]));
    assert_eq!(r, Ok(CurrentStep::NeedDetail { activity_hash: 4 }));
    assert_eq!(last.start_date, 30);
}

#[test]
fn detail_missing_is_no_activity_not_an_error() {
    let mut last = CurrentActivity { start_date: 50, activity_hash: 2, activity_info: None };
    let changed = apply_detail(&mut last, 9, DetailOutcome::Missing);
    assert!(changed);
    assert!(last.activity_info.is_none());
    assert_eq!(last.activity_hash, 2);
}

#[test]
fn detail_with_empty_name_is_no_activity() {
    let mut last = CurrentActivity { start_date: 50, activity_hash: 2, activity_info: None };
    let changed = apply_detail(&mut last, 9, DetailOutcome::Found { info: info("", vec![4]) });
    assert!(changed);
    assert!(last.activity_info.is_none());
    assert_eq!(last.activity_hash, 2);
}

#[test]
fn detail_with_name_is_adopted_with_its_hash() {
    let mut last = CurrentActivity { start_date: 50, activity_hash: 2, activity_info: None };
    let changed =
        apply_detail(&mut last, 9, DetailOutcome::Found { info: info("The Arena", vec![4]) });
    assert!(changed);
    assert_eq!(last.activity_hash, 9);
    assert_eq!(last.activity_info.as_ref().unwrap().name, "The Arena");
}
