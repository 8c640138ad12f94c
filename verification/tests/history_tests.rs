use groundsub::activity::CompletedActivity;
use groundsub::history::{filter_page, refresh_history, HistoryBootstrap, PublishAction};
use groundsub::{history_cutoff, next_poll_step, PollStep, HISTORY_WINDOW_MS};

fn act(id: &str, period: i64, modes: Vec<u32>) -> CompletedActivity {
    CompletedActivity {
        instance_id: id.to_string(),
        period,
        activity_duration_seconds: 600,
        modes,
        completed: true,
        activity_hash: 55,
    }
}

#[test]
fn cutoff_is_thirty_days_before_now() {
    assert_eq!(HISTORY_WINDOW_MS, 30 * 24 * 60 * 60 * 1000);
    assert_eq!(history_cutoff(5_000_000_000), 5_000_000_000 - HISTORY_WINDOW_MS);
    assert_eq!(history_cutoff(i64::MIN + 10), i64::MIN);
}

#[test]
fn filter_keeps_eligible_modes_within_cutoff() {
    let page = vec![
        act("raid", 100, vec![4]),
        act("social", 90, vec![1, 3]),
        act("dungeon", 80, vec![82]),
        act("strike", 70, vec![18]),
        act("lost_sector", 60, vec![87]),
        act("old_raid", 10, vec![4]),
    ];
    let (kept, past_cutoff) = filter_page(page, 50);
    let ids: Vec<String> = kept.iter().map(|a| a.instance_id.clone()).collect();
    assert_eq!(ids, vec!["raid", "dungeon", "strike", "lost_sector"]);
    assert!(past_cutoff);
}

#[test]
fn filter_reports_no_cutoff_when_all_within_window() {
    let page = vec![act("raid", 100, vec![4])];
    let (kept, past_cutoff) = filter_page(page, 50);
    assert_eq!(kept.len(), 1);
    assert!(!past_cutoff);
}

#[test]
fn refresh_unchanged_when_new_maximum_not_strictly_greater() {
    let mut stored = vec![act("a", 100, vec![4])];
    let fetched = vec![act("b", 100, vec![4]), act("c", 90, vec![4])];
    let changed = refresh_history(&mut stored, fetched);
    assert!(!changed);
    assert_eq!(stored.len(), 1);
    assert_eq!(stored[0].instance_id, "a");
}

#[test]
fn refresh_replaces_when_new_maximum_is_strictly_greater() {
    let mut stored = vec![act("a", 100, vec![4])];
    let fetched = vec![act("b", 150, vec![4]), act("c", 90, vec![4])];
    let changed = refresh_history(&mut stored, fetched);
    assert!(changed);
    let ids: Vec<String> = stored.iter().map(|a| a.instance_id.clone()).collect();
    assert_eq!(ids, vec!["b", "c"]);
}

#[test]
fn refresh_replaces_when_stored_is_empty() {
    let mut stored = Vec::new();
    let changed = refresh_history(&mut stored, vec![act("b", 150, vec![4])]);
    assert!(changed);
    assert_eq!(stored.len(), 1);
}

#[test]
fn bootstrap_scenario_twenty_five_then_five() {
    // Page one yields 25 eligible activities; page two yields 5 more and
    // reaches the cutoff. The first 20 are published immediately; the
    // remaining 10 arrive in one trailing batch; the final merged history
    // has 30 entries.
    let cutoff = 1000;
    let mut page1 = Vec::new();
    for i in 0..25i64 {
        page1.push(act(&format!("p1_{i}"), 2000 + i, vec![4]));
    }
    let mut page2 = Vec::new();
    for i in 0..5i64 {
        page2.push(act(&format!("p2_{i}"), 3000 + i, vec![4]));
    }
    page2.push(act("ancient", 10, vec![4]));

    let mut boot = HistoryBootstrap::new(0);

    let (action1, past1) = boot.ingest_page(page1, cutoff, 100);
    assert!(!past1);
    match action1 {
        PublishAction::Append { chunk } => assert_eq!(chunk.len(), 20),
        _ => panic!("first page must publish an immediate chunk"),
    }

    let (action2, past2) = boot.ingest_page(page2, cutoff, 200);
    assert!(past2);
    match action2 {
        PublishAction::Replace { list } => assert_eq!(list.len(), 30),
        _ => panic!("trailing batch must replace with the merged prefix"),
    }

    assert!(boot.final_flush_step().is_none());
    assert_eq!(boot.full_list().len(), 30);
}

#[test]
fn bootstrap_throttles_batches_and_final_flush_delivers_rest() {
    let cutoff = 0;
    let mut boot = HistoryBootstrap::new(0);

    // Instant budget: 20 records are handed out at once.
    let mut page1 = Vec::new();
    for i in 0..120i64 {
        page1.push(act(&format!("a{i}"), 1000 + i, vec![4]));
    }
    let (action1, _) = boot.ingest_page(page1, cutoff, 100);
    match action1 {
        PublishAction::Append { chunk } => assert_eq!(chunk.len(), 20),
        _ => panic!("instant chunk expected"),
    }

    // The next page arrives inside the throttle window and is not the last
    // batch, so nothing is published yet.
    let page2 = vec![act("b", 5000, vec![4])];
    let (action2, _) = boot.ingest_page(page2, cutoff, 150);
    assert!(matches!(action2, PublishAction::Skip));

    // After the throttle interval, the next batch goes out as a prefix of
    // the merged list.
    let page3 = vec![act("c", 6000, vec![4])];
    let (action3, _) = boot.ingest_page(page3, cutoff, 1200);
    match action3 {
        PublishAction::Replace { list } => assert_eq!(list.len(), 120),
        _ => panic!("throttled batch expected after the interval"),
    }

    // The final flush hands out what is left, in batches of at most 50.
    let first = boot.final_flush_step().expect("a trailing batch is due");
    assert!(first.len() <= 122);
    let mut last_len = first.len();
    while let Some(list) = boot.final_flush_step() {
        assert!(list.len() > last_len);
        last_len = list.len();
    }
    assert_eq!(last_len, 122);
    assert_eq!(boot.full_list().len(), 122);
}

#[test]
fn poll_cycle_refreshes_history_every_sixth_cycle() {
    let mut count = 0u64;
    let mut steps = Vec::new();
    for _ in 0..12 {
        let (step, next) = next_poll_step(count);
        steps.push(step);
        count = next;
    }
    let history_positions: Vec<usize> = steps
        .iter()
        .enumerate()
        .filter(|(_, s)| **s == PollStep::RefreshHistory)
        .map(|(i, _)| i)
        .collect();
    assert_eq!(history_positions, vec![5, 10]);
}
