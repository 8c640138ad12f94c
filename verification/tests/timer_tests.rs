use groundsub::activity::{
    ActivityInfo, CompletedActivity, CurrentActivity, PlayerData, PollError, ProfileInfo,
    DUNGEON_ACTIVITY_HASH, RAID_ACTIVITY_HASH,
};
use groundsub::display::format_elapsed;
use groundsub::timer::{Timer, TimerConfig, TimerMode};

fn cur(start_date: i64, hash: u64, modes: Vec<u32>) -> CurrentActivity {
    CurrentActivity {
        start_date,
        activity_hash: hash,
        activity_info: Some(ActivityInfo { name: "The Arena".to_string(), activity_modes: modes }),
    }
}

fn hist(hash: u64, period: i64, duration_s: u32) -> CompletedActivity {
    CompletedActivity {
        instance_id: format!("{hash}_{period}"),
        period,
        activity_duration_seconds: duration_s,
        modes: vec![4],
        completed: true,
        activity_hash: hash,
    }
}

fn player_data(current: CurrentActivity, history: Vec<CompletedActivity>) -> PlayerData {
    PlayerData {
        current_activity: current,
        activity_history: history,
        profile_info: ProfileInfo { character_ids: vec!["char1".to_string()] },
    }
}

#[test]
fn default_config_values() {
    let c = TimerConfig::default();
    assert!(c.display_milliseconds);
    assert_eq!(c.update_rate, 16);
    assert_eq!(c.excluded_hashes, vec![RAID_ACTIVITY_HASH, DUNGEON_ACTIVITY_HASH]);
}

#[test]
fn persistent_start_is_noop_when_called_twice_with_same_hash() {
    let mut t = Timer::new(TimerConfig::default());
    t.set_mode(TimerMode::Persistent);
    let a = cur(1000, 5, vec![4]);
    let h = Vec::new();
    assert!(t.start_activity(&a, &h));
    assert!(t.get_state().is_active);
    // Same hash again, before any completion: refused.
    assert!(!t.start_activity(&a, &h));
}

#[test]
fn default_mode_start_always_proceeds() {
    let mut t = Timer::new(TimerConfig::default());
    let a = cur(1000, 5, vec![4]);
    let h = Vec::new();
    assert!(t.start_activity(&a, &h));
    assert!(t.start_activity(&a, &h));
}

#[test]
fn persistent_start_refused_within_grace_window() {
    let mut t = Timer::new(TimerConfig::default());
    t.set_mode(TimerMode::Persistent);
    // The previous entry ran 600 s from t=100_000: computed end 700_000.
    let h = vec![hist(9, 100_000, 600)];
    // Starting at exactly end - 40 s is still a continuation.
    let refused = cur(660_000, 5, vec![4]);
    assert!(!t.start_activity(&refused, &h));
    // One millisecond past the grace bound is a new session.
    let allowed = cur(660_001, 5, vec![4]);
    assert!(t.start_activity(&allowed, &h));
}

#[test]
fn completion_finalizes_at_most_once_per_key() {
    let mut t = Timer::new(TimerConfig::default());
    t.set_mode(TimerMode::Persistent);
    let a = cur(1000, 5, vec![4]);
    assert!(t.start_activity(&a, &Vec::new()));

    let h = vec![hist(5, 1000, 600)];
    assert!(t.check_activity_completed_at(&h, 2000));
    assert_eq!(t.end_time, Some(2000));
    assert!(!t.get_state().is_active);

    // Same most-recent entry again: the key is known, nothing happens.
    assert!(!t.check_activity_completed_at(&h, 3000));
    assert_eq!(t.end_time, Some(2000));
}

#[test]
fn completion_ignores_other_hashes_but_records_the_key() {
    let mut t = Timer::new(TimerConfig::default());
    t.set_mode(TimerMode::Persistent);
    let a = cur(1000, 5, vec![4]);
    assert!(t.start_activity(&a, &Vec::new()));

    let other = vec![hist(77, 1000, 600)];
    assert!(!t.check_activity_completed_at(&other, 2000));
    assert!(t.end_time.is_none());
    assert!(t.get_state().is_active);
}

#[test]
fn completion_is_noop_outside_persistent_mode() {
    let mut t = Timer::new(TimerConfig::default());
    let a = cur(1000, 5, vec![4]);
    assert!(t.start_activity(&a, &Vec::new()));
    assert!(!t.check_activity_completed_at(&vec![hist(5, 1000, 600)], 2000));
    assert!(t.end_time.is_none());
}

#[test]
fn stop_in_default_mode_resets_the_session() {
    let mut t = Timer::new(TimerConfig::default());
    let a = cur(1000, 5, vec![4]);
    assert!(t.start_activity(&a, &Vec::new()));
    t.stop();
    assert!(!t.get_state().is_active);
    assert!(t.start_time.is_none());
    assert!(t.last_activity.is_none());
}

#[test]
fn stop_in_persistent_mode_keeps_an_unfinalized_session() {
    let mut t = Timer::new(TimerConfig::default());
    t.set_mode(TimerMode::Persistent);
    let a = cur(1000, 5, vec![4]);
    assert!(t.start_activity(&a, &Vec::new()));
    t.stop();
    // An activity-ended signal alone does not end a persistent session.
    assert_eq!(t.start_time, Some(1000));
    assert!(t.last_activity.is_some());
    assert!(t.get_state().is_active);
}

#[test]
fn stop_in_persistent_mode_blanks_a_finalized_session() {
    let mut t = Timer::new(TimerConfig::default());
    t.set_mode(TimerMode::Persistent);
    let a = cur(1000, 5, vec![4]);
    assert!(t.start_activity(&a, &Vec::new()));
    assert!(t.check_activity_completed_at(&vec![hist(5, 1000, 600)], 2000));
    t.stop();
    assert!(!t.get_state().is_active);
    assert_eq!(t.get_state().time_text, "");
}

#[test]
fn clear_activity_shows_not_tracking_sentinel() {
    let mut t = Timer::new(TimerConfig::default());
    let a = cur(1000, 5, vec![4]);
    assert!(t.start_activity(&a, &Vec::new()));
    t.clear_activity();
    assert_eq!(t.get_state().time_text, "--:--:--");
    assert_eq!(t.get_state().ms_text, "");
    assert!(t.start_time.is_none());
    assert!(t.known_completions.is_empty());
}

#[test]
fn reset_clears_everything_and_keeps_mode() {
    let mut t = Timer::new(TimerConfig::default());
    t.set_mode(TimerMode::Persistent);
    let a = cur(1000, 5, vec![4]);
    assert!(t.start_activity(&a, &Vec::new()));
    assert!(!t.check_activity_completed_at(&vec![hist(8, 50, 10)], 2000));
    t.reset();
    assert!(t.start_time.is_none());
    assert!(t.end_time.is_none());
    assert!(t.last_activity.is_none());
    assert!(t.known_completions.is_empty());
    assert_eq!(t.get_state().mode, TimerMode::Persistent);
}

#[test]
fn clear_and_restart_never_starts_for_hash_zero() {
    let mut t = Timer::new(TimerConfig::default());
    let pd = player_data(cur(1000, 0, vec![4]), Vec::new());
    assert!(!t.clear_and_restart_activity(&pd));
    assert!(!t.get_state().is_active);
    assert!(t.start_time.is_none());
}

#[test]
fn clear_and_restart_never_starts_for_excluded_hash() {
    let mut t = Timer::new(TimerConfig::default());
    let pd = player_data(cur(1000, RAID_ACTIVITY_HASH, vec![4]), Vec::new());
    assert!(!t.clear_and_restart_activity(&pd));
    assert!(!t.get_state().is_active);
    assert!(t.start_time.is_none());

    let pd2 = player_data(cur(1000, DUNGEON_ACTIVITY_HASH, vec![4]), Vec::new());
    assert!(!t.clear_and_restart_activity(&pd2));
    assert!(!t.get_state().is_active);
}

#[test]
fn clear_and_restart_starts_an_ordinary_timed_activity() {
    let mut t = Timer::new(TimerConfig::default());
    let pd = player_data(cur(1000, 5, vec![4]), Vec::new());
    assert!(t.clear_and_restart_activity(&pd));
    assert!(t.get_state().is_active);
    assert_eq!(t.start_time, Some(1000));
}

#[test]
fn clear_and_restart_skips_modes_without_timer() {
    let mut t = Timer::new(TimerConfig::default());
    // Mode 3 is in no timer-eligible set.
    let pd = player_data(cur(1000, 5, vec![3]), Vec::new());
    assert!(!t.clear_and_restart_activity(&pd));
    assert!(!t.get_state().is_active);
}

#[test]
fn update_stops_in_default_mode_on_no_activity() {
    let mut t = Timer::new(TimerConfig::default());
    let a = cur(1000, 5, vec![4]);
    assert!(t.start_activity(&a, &Vec::new()));
    let none = CurrentActivity { start_date: 2000, activity_hash: 0, activity_info: None };
    let r = t.update(&player_data(none, Vec::new()), 3000);
    assert!(r.stopped);
    assert!(!r.started);
    assert!(!r.finalized);
    assert!(t.start_time.is_none());
}

#[test]
fn update_persistent_survives_no_activity_and_finalizes_on_completion() {
    let mut t = Timer::new(TimerConfig::default());
    t.set_mode(TimerMode::Persistent);
    let a = cur(1000, 5, vec![2]);
    let r1 = t.update(&player_data(a, Vec::new()), 1500);
    assert!(r1.started);

    // A transient "no activity" signal does not stop a persistent session.
    let none = CurrentActivity { start_date: 2000, activity_hash: 0, activity_info: None };
    let r2 = t.update(&player_data(none, Vec::new()), 2500);
    assert!(!r2.stopped);
    assert_eq!(t.start_time, Some(1000));

    // Completion detection ends it.
    let done = CurrentActivity { start_date: 2000, activity_hash: 0, activity_info: None };
    let r3 = t.update(&player_data(done, vec![hist(5, 1000, 600)]), 3500);
    assert!(r3.finalized);
    assert_eq!(t.end_time, Some(3500));
    assert!(t.last_activity.is_none());
}

#[test]
fn tick_renders_elapsed_time() {
    let mut t = Timer::new(TimerConfig::default());
    let a = cur(1_000_000, 5, vec![4]);
    assert!(t.start_activity(&a, &Vec::new()));
    // 83.45 seconds elapsed: 01:23 and :45 hundredths.
    assert!(t.tick(1_083_450));
    assert_eq!(t.get_state().time_text, "01:23");
    assert_eq!(t.get_state().ms_text, ":45");
}

#[test]
fn tick_terminates_without_a_session_start() {
    let mut t = Timer::new(TimerConfig::default());
    assert!(!t.tick(5000));
}

#[test]
fn blank_display_clears_the_text_fields() {
    let mut t = Timer::new(TimerConfig::default());
    let a = cur(1_000_000, 5, vec![4]);
    assert!(t.start_activity(&a, &Vec::new()));
    assert!(t.tick(1_083_450));
    t.blank_display();
    assert_eq!(t.get_state().time_text, "");
    assert_eq!(t.get_state().ms_text, "");
}

#[test]
fn is_tracking_and_recently_completed_report_session_state() {
    let mut t = Timer::new(TimerConfig::default());
    let a = cur(1000, 5, vec![4]);
    assert!(t.start_activity(&a, &Vec::new()));
    assert!(t.is_tracking_activity(5));
    assert!(!t.is_tracking_activity(6));
    assert!(!t.was_recently_completed(5));
}

#[test]
fn format_elapsed_exact_values() {
    // 0 ms: blank display.
    let (t0, m0) = format_elapsed(0);
    assert_eq!(t0, "");
    assert_eq!(m0, "");

    // 59.99 s: minutes and seconds only.
    let (t1, m1) = format_elapsed(59_990);
    assert_eq!(t1, "00:59");
    assert_eq!(m1, ":99");

    // One hour, two minutes, three seconds, 450 ms.
    let (t2, m2) = format_elapsed(3_723_450);
    assert_eq!(t2, "01:02:03");
    assert_eq!(m2, ":45");

    // A hundred hours pad to their full width.
    let (t3, m3) = format_elapsed(100 * 3_600_000 + 5_000);
    assert_eq!(t3, "100:00:05");
    assert_eq!(m3, ":00");
}

#[test]
fn poll_error_messages() {
    assert_eq!(PollError::UpstreamUnavailable.message(), "Upstream API unavailable");
    assert_eq!(PollError::ProfilePrivate.message(), "Profile is private");
    assert_eq!(PollError::NoCharacterData.message(), "No character data for profile");
    assert_eq!(PollError::HistoryFetchFailed.message(), "Failed to load activity history");
    assert_eq!(PollError::NoProfileSet.message(), "No profile set");
}

#[test]
fn preferences_defaults() {
    let p = groundsub::prefs::Preferences::default();
    assert!(!p.enable_overlay);
    assert!(p.display_milliseconds);
    assert_eq!(p.filter_activity_type, "all");
    assert_eq!(p.primary_background, "#12171c");
    assert_eq!(groundsub::prefs::Preferences::get_filename(), "preferences.json");
}

#[test]
fn completion_with_wall_clock_sets_an_end_time() {
    let mut t = Timer::new(TimerConfig::default());
    t.set_mode(TimerMode::Persistent);
    let a = cur(1000, 5, vec![4]);
    assert!(t.start_activity(&a, &Vec::new()));
    let h = vec![hist(5, 1000, 600)];
    assert!(t.check_activity_completed(&h));
    assert!(t.end_time.is_some());
    assert!(t.last_activity.is_none());
    // The key is recorded: the same entry cannot finalize again.
    assert!(!t.check_activity_completed(&h));
}
