use vstd::prelude::*;

use crate::activity::{ActivityInfo, CompletedActivity, CurrentActivity, PlayerData,
    RAID_ACTIVITY_HASH, DUNGEON_ACTIVITY_HASH, cur_act_eq, info_has_timer_mode, mode_has_timer,
    ts_ok};
use crate::clock::now_millis;
use crate::display::{format_elapsed, ms_text_spec, time_text_spec};

verus! {

/// The grace window, in milliseconds: a new activity starting this close to
/// the previous history entry's computed end is a continuation, not a new
/// session.
pub const RESTART_GRACE_MS: i64 = 40000;

/// The two timer operating modes: in Default mode the timer stops as soon as
/// the current activity reports none; in Persistent mode a session survives
/// transient "no activity" signals until completion detection fires.
#[derive(Clone, Copy, Debug, PartialEq, Eq, Structural)]
pub enum TimerMode {
    Default,
    Persistent,
}

/// The publishable snapshot of the timer display.
#[derive(Clone, Debug, PartialEq)]
pub struct TimerState {
    pub time_text: String,
    pub ms_text: String,
    pub is_active: bool,
    pub mode: TimerMode,
}

/// View-level equality of display snapshots.
pub open spec fn state_eq(a: TimerState, b: TimerState) -> bool {
    a.time_text@ == b.time_text@ && a.ms_text@ == b.ms_text@ && a.is_active == b.is_active
        && a.mode == b.mode
}

impl TimerState {
    /// A value-for-value copy.
    pub fn duplicate(&self) -> (r: Self)
        ensures
            state_eq(r, *self),
    {
        TimerState {
            time_text: self.time_text.clone(),
            ms_text: self.ms_text.clone(),
            is_active: self.is_active,
            mode: self.mode,
        }
    }
}

/// Timer configuration, resolved ahead of time: the millisecond-display
/// flag, the tick rate, and the set of activity hashes that never get a
/// timer.
#[derive(Clone, Debug, PartialEq)]
pub struct TimerConfig {
    pub display_milliseconds: bool,
    pub update_rate: u64,
    pub excluded_hashes: Vec<u64>,
}

impl Default for TimerConfig {
    fn default() -> (r: Self)
        ensures
            r.display_milliseconds,
            r.update_rate == 16,
            r.excluded_hashes@ == seq![RAID_ACTIVITY_HASH, DUNGEON_ACTIVITY_HASH],
    {
        let mut excluded: Vec<u64> = Vec::new();
        excluded.push(RAID_ACTIVITY_HASH);
        excluded.push(DUNGEON_ACTIVITY_HASH);
        proof {
            assert(excluded@ =~= seq![RAID_ACTIVITY_HASH, DUNGEON_ACTIVITY_HASH]);
        }
        TimerConfig { display_milliseconds: true, update_rate: 16, excluded_hashes: excluded }
    }
}

/// The idempotence key of completion detection: one finalization per
/// activity hash and start period.
#[derive(Clone, Copy, Debug, PartialEq, Eq, Structural)]
pub struct CompletionKey {
    pub activity_hash: u64,
    pub period: i64,
}

/// Whether the guard of `start_activity` lets a session start, given the
/// mode, the session being tracked, the end marker, the candidate activity,
/// and the known history. In Default mode it always does. In Persistent mode
/// it refuses a restart of the activity already being tracked, and a start
/// within the grace window of the most recent history entry's computed end.
pub open spec fn start_allowed(
    mode: TimerMode,
    last_activity: Option<CurrentActivity>,
    end_time: Option<i64>,
    a: CurrentActivity,
    h: Seq<CompletedActivity>,
) -> bool {
    !(mode == TimerMode::Persistent && ((last_activity matches Some(la) && la.activity_hash
        == a.activity_hash && end_time is None) || (h.len() > 0 && a.start_date as int <= h[0].period
        as int + h[0].activity_duration_seconds as int * 1000 - RESTART_GRACE_MS as int)))
}

/// Whether completion detection fires: Persistent mode, a session being
/// tracked, a non-empty history whose most recent entry is new to the
/// completion set and matches the tracked activity's hash.
pub open spec fn completion_fires(t: Timer, h: Seq<CompletedActivity>) -> bool {
    &&& t.state.mode == TimerMode::Persistent
    &&& t.last_activity matches Some(la) && h.len() > 0 && !t.key_known(
        h[0].activity_hash,
        h[0].period,
    ) && h[0].activity_hash == la.activity_hash
}

/// The mode-aware session timer: tracks the current session's start and end,
/// the set of already-handled completions, and the publishable display
/// snapshot. The ticking task itself lives with the caller: a method whose
/// contract says a session started obliges the caller to cancel any previous
/// ticking task and start a fresh one.
pub struct Timer {
    pub state: TimerState,
    pub config: TimerConfig,
    pub start_time: Option<i64>,
    pub end_time: Option<i64>,
    pub last_activity: Option<CurrentActivity>,
    pub known_completions: Vec<CompletionKey>,
    pub last_completed_activity_hash: Option<u64>,
}

impl Timer {
    /// The timer's invariant: a tracked start timestamp is in range, so that
    /// elapsed-time arithmetic stays in bounds.
    pub open spec fn wf(self) -> bool {
        self.start_time matches Some(t) ==> ts_ok(t as int)
    }

    /// Whether this completion key has already been handled.
    pub open spec fn key_known(self, activity_hash: u64, period: i64) -> bool {
        exists|i: int|
            0 <= i < self.known_completions@.len() && #[trigger] self.known_completions@[i]
                == (CompletionKey { activity_hash, period })
    }

    /// A fresh timer in Default mode with a blank display.
    pub fn new(config: TimerConfig) -> (r: Self)
        ensures
            r.wf(),
            r.state.time_text@.len() == 0,
            r.state.ms_text@.len() == 0,
            !r.state.is_active,
            r.state.mode == TimerMode::Default,
            r.config == config,
            r.start_time.is_none(),
            r.end_time.is_none(),
            r.last_activity.is_none(),
            r.known_completions@.len() == 0,
            r.last_completed_activity_hash.is_none(),
    {
        Timer {
            state: TimerState {
                time_text: String::new(),
                ms_text: String::new(),
                is_active: false,
                mode: TimerMode::Default,
            },
            config,
            start_time: None,
            end_time: None,
            last_activity: None,
            known_completions: Vec::new(),
            last_completed_activity_hash: None,
        }
    }

    /// Switch the operating mode; an in-flight session is not touched. The
    /// caller publishes the snapshot.
    pub fn set_mode(&mut self, mode: TimerMode)
        ensures
            final(self).state.mode == mode,
            final(self).state.time_text == old(self).state.time_text,
            final(self).state.ms_text == old(self).state.ms_text,
            final(self).state.is_active == old(self).state.is_active,
            final(self).config == old(self).config,
            final(self).start_time == old(self).start_time,
            final(self).end_time == old(self).end_time,
            final(self).last_activity == old(self).last_activity,
            final(self).known_completions == old(self).known_completions,
            final(self).last_completed_activity_hash == old(self).last_completed_activity_hash,
    {
        self.state.mode = mode;
    }

    /// The current operating mode.
    pub fn get_mode(&self) -> (r: TimerMode)
        ensures
            r == self.state.mode,
    {
        self.state.mode
    }

    /// A copy of the publishable display snapshot.
    pub fn get_state(&self) -> (r: TimerState)
        ensures
            state_eq(r, self.state),
    {
        self.state.duplicate()
    }

    /// Whether the activity metadata warrants a timer at all.
    pub fn should_have_timer(&self, activity_info: &ActivityInfo) -> (r: bool)
        ensures
            r == exists|i: int|
                0 <= i < activity_info.activity_modes@.len() && mode_has_timer(
                    #[trigger] activity_info.activity_modes@[i],
                ),
    {
        crate::activity::any_mode_has_timer(&activity_info.activity_modes)
    }

    /// Whether this hash is in the configured excluded set.
    fn is_excluded(&self, activity_hash: u64) -> (r: bool)
        ensures
            r == self.config.excluded_hashes@.contains(activity_hash),
    {
        let mut k: usize = 0;
        while k < self.config.excluded_hashes.len()
            invariant
                k <= self.config.excluded_hashes@.len(),
                forall|i: int| 0 <= i < k ==> self.config.excluded_hashes@[i] != activity_hash,
            decreases self.config.excluded_hashes@.len() - k,
        {
            if self.config.excluded_hashes[k] == activity_hash {
                return true;
            }
            k += 1;
        }
        false
    }

    /// Whether the guard of `start_activity` would let this session start.
    pub fn should_start_activity(&self, activity: &CurrentActivity, activity_history: &Vec<
        CompletedActivity,
    >) -> (r: bool)
        requires
            activity_history@.len() > 0 ==> ts_ok(activity_history@[0].period as int),
        ensures
            r == start_allowed(
                self.state.mode,
                self.last_activity,
                self.end_time,
                *activity,
                activity_history@,
            ),
    {
        if self.state.mode == TimerMode::Persistent {
            match &self.last_activity {
                Some(la) => {
                    if la.activity_hash == activity.activity_hash && self.end_time.is_none() {
                        return false;
                    }
                },
                None => {},
            }
            if activity_history.len() > 0 {
                let entry = &activity_history[0];
                let end_ms = entry.period + (entry.activity_duration_seconds as i64) * 1000;
                if activity.start_date <= end_ms - RESTART_GRACE_MS {
                    return false;
                }
            }
        }
        true
    }

    /// Start tracking a session, if the guard allows it. When the result says
    /// a session started, the caller must cancel any previous ticking task
    /// and start a fresh one.
    pub fn start_activity(&mut self, activity: &CurrentActivity, activity_history: &Vec<
        CompletedActivity,
    >) -> (started: bool)
        requires
            old(self).wf(),
            ts_ok(activity.start_date as int),
            activity_history@.len() > 0 ==> ts_ok(activity_history@[0].period as int),
        ensures
            final(self).wf(),
            started == start_allowed(
                old(self).state.mode,
                old(self).last_activity,
                old(self).end_time,
                *activity,
                activity_history@,
            ),
            !started ==> *final(self) == *old(self),
            started ==> ({
                &&& final(self).last_activity matches Some(la) && cur_act_eq(la, *activity)
            }),
            started ==> final(self).start_time == Some(activity.start_date),
            started ==> final(self).end_time.is_none(),
            started ==> final(self).state.is_active,
            started ==> final(self).state.mode == old(self).state.mode && final(self).state.time_text == old(self).state.time_text && final(self).state.ms_text == old(
                self,
            ).state.ms_text,
            started ==> final(self).config == old(self).config && final(self).known_completions
                == old(self).known_completions && final(self).last_completed_activity_hash == old(
                self,
            ).last_completed_activity_hash,
    {
        if self.should_start_activity(activity, activity_history) {
            self.last_activity = Some(activity.duplicate());
            self.start_time = Some(activity.start_date);
            self.end_time = None;
            self.state.is_active = true;
            true
        } else {
            false
        }
    }

    /// Start tracking a session unconditionally. The caller must cancel any
    /// previous ticking task and start a fresh one.
    pub fn restart_activity(&mut self, activity: &CurrentActivity)
        requires
            old(self).wf(),
            ts_ok(activity.start_date as int),
        ensures
            final(self).wf(),
            final(self).last_activity matches Some(la) && cur_act_eq(la, *activity),
            final(self).start_time == Some(activity.start_date),
            final(self).end_time.is_none(),
            final(self).state.is_active,
            final(self).state.mode == old(self).state.mode,
            final(self).config == old(self).config,
            final(self).known_completions == old(self).known_completions,
    {
        self.last_activity = Some(activity.duplicate());
        self.start_time = Some(activity.start_date);
        self.end_time = None;
        self.state.is_active = true;
    }

    /// Whether this completion key has already been handled.
    fn knows_completion(&self, activity_hash: u64, period: i64) -> (r: bool)
        ensures
            r == self.key_known(activity_hash, period),
    {
        let mut k: usize = 0;
        while k < self.known_completions.len()
            invariant
                k <= self.known_completions@.len(),
                forall|i: int|
                    0 <= i < k ==> #[trigger] self.known_completions@[i] != (CompletionKey {
                        activity_hash,
                        period,
                    }),
            decreases self.known_completions@.len() - k,
        {
            let key = self.known_completions[k];
            if key.activity_hash == activity_hash && key.period == period {
                return true;
            }
            k += 1;
        }
        false
    }

    /// Completion detection against the most recent history entry, with the
    /// finalization timestamp supplied by the caller.
    ///
    /// A no-op outside Persistent mode, without a tracked session, or with an
    /// empty history. Each `(activity_hash, period)` key finalizes at most
    /// once: a key already handled is a no-op. A fresh key is recorded; if it
    /// matches the tracked activity, the session is finalized: the end
    /// timestamp is set, the display deactivates and the session clears.
    /// When the result says the session finalized, the caller must cancel the
    /// ticking task, publish, and after a short delay blank the display and
    /// publish again.
    pub fn check_activity_completed_at(&mut self, activity_history: &Vec<CompletedActivity>,
        now_ms: i64) -> (finalized: bool)
        requires
            old(self).wf(),
        ensures
            final(self).wf(),
            finalized == completion_fires(*old(self), activity_history@),
            !(old(self).state.mode == TimerMode::Persistent && old(
                self,
            ).last_activity.is_some() && activity_history@.len() > 0) ==> *final(self) == *old(
                self,
            ),
            old(self).state.mode == TimerMode::Persistent && old(self).last_activity.is_some()
                && activity_history@.len() > 0 ==> ({
                let key = CompletionKey {
                    activity_hash: activity_history@[0].activity_hash,
                    period: activity_history@[0].period,
                };
                &&& (old(self).key_known(key.activity_hash, key.period) ==> *final(self) == *old(
                    self,
                ))
                &&& (!old(self).key_known(key.activity_hash, key.period) ==> final(self).known_completions@ == old(self).known_completions@.push(key))
            }),
            finalized ==> final(self).end_time == Some(now_ms) && !final(self).state.is_active
                && final(self).last_activity.is_none() && final(self).start_time == old(
                self,
            ).start_time && final(self).state.time_text == old(self).state.time_text && final(self).state.ms_text == old(self).state.ms_text && final(self).state.mode == old(
                self,
            ).state.mode,
            !finalized && old(self).state.mode == TimerMode::Persistent && old(
                self,
            ).last_activity.is_some() && activity_history@.len() > 0 ==> final(self).state == old(
                self,
            ).state && final(self).start_time == old(self).start_time && final(self).end_time
                == old(self).end_time && final(self).last_activity == old(self).last_activity,
            final(self).config == old(self).config,
            final(self).last_completed_activity_hash == old(self).last_completed_activity_hash,
    {
        if self.state.mode != TimerMode::Persistent || self.last_activity.is_none()
            || activity_history.len() == 0 {
            return false;
        }
        let most_recent = &activity_history[0];
        let hash = most_recent.activity_hash;
        let period = most_recent.period;
        if self.knows_completion(hash, period) {
            return false;
        }
        self.known_completions.push(CompletionKey { activity_hash: hash, period });
        let tracked_hash = match &self.last_activity {
            Some(la) => la.activity_hash,
            None => 0,
        };
        if hash == tracked_hash {
            self.end_time = Some(now_ms);
            self.state.is_active = false;
            self.last_activity = None;
            true
        } else {
            false
        }
    }

    /// Completion detection stamped with the wall clock.
    pub fn check_activity_completed(&mut self, activity_history: &Vec<CompletedActivity>) -> (
        finalized: bool)
        requires
            old(self).wf(),
        ensures
            final(self).wf(),
            finalized == completion_fires(*old(self), activity_history@),
            !(old(self).state.mode == TimerMode::Persistent && old(
                self,
            ).last_activity.is_some() && activity_history@.len() > 0) ==> *final(self) == *old(
                self,
            ),
            finalized ==> final(self).end_time.is_some() && !final(self).state.is_active && final(self).last_activity.is_none() && final(self).start_time == old(self).start_time,
            final(self).config == old(self).config,
            final(self).state.mode == old(self).state.mode,
    {
        let now = now_millis();
        self.check_activity_completed_at(activity_history, now)
    }

    /// Blank the displayed text fields; used by the delayed clear after a
    /// finalization. The caller publishes the snapshot.
    pub fn blank_display(&mut self)
        ensures
            final(self).state.time_text@.len() == 0,
            final(self).state.ms_text@.len() == 0,
            final(self).state.is_active == old(self).state.is_active,
            final(self).state.mode == old(self).state.mode,
            final(self).config == old(self).config,
            final(self).start_time == old(self).start_time,
            final(self).end_time == old(self).end_time,
            final(self).last_activity == old(self).last_activity,
            final(self).known_completions == old(self).known_completions,
    {
        self.state.time_text = String::new();
        self.state.ms_text = String::new();
    }

    /// React to the current activity ending. In Default mode this is a full
    /// stop: the display blanks and the session clears. In Persistent mode an
    /// activity-ended signal alone does not end the session: the display
    /// blanks only if the session was already finalized, and an unfinalized
    /// session is left untouched. The caller always cancels the ticking task
    /// and publishes.
    pub fn stop(&mut self)
        ensures
            final(self).state.mode == old(self).state.mode,
            final(self).config == old(self).config,
            final(self).known_completions == old(self).known_completions,
            final(self).last_completed_activity_hash == old(self).last_completed_activity_hash,
            old(self).state.mode == TimerMode::Default ==> !final(self).state.is_active && final(self).state.time_text@.len() == 0 && final(self).state.ms_text@.len() == 0 && final(self).start_time.is_none() && final(self).last_activity.is_none() && final(self).end_time.is_none(),
            old(self).state.mode == TimerMode::Persistent && old(self).end_time.is_some()
                ==> !final(self).state.is_active && final(self).state.time_text@.len() == 0
                && final(self).state.ms_text@.len() == 0 && final(self).start_time == old(
                self,
            ).start_time && final(self).last_activity == old(self).last_activity && final(self).end_time == old(self).end_time,
            old(self).state.mode == TimerMode::Persistent && old(self).end_time.is_none()
                ==> *final(self) == *old(self),
    {
        if self.state.mode == TimerMode::Persistent {
            if self.end_time.is_some() {
                self.state.is_active = false;
                self.state.time_text = String::new();
                self.state.ms_text = String::new();
            }
        } else {
            self.state.is_active = false;
            self.state.time_text = String::new();
            self.state.ms_text = String::new();
            self.start_time = None;
            self.last_activity = None;
            self.end_time = None;
        }
    }

    /// Hard reset: every session field and the completion set clear, the
    /// display blanks; the mode is kept. The caller cancels the ticking task
    /// and publishes.
    pub fn reset(&mut self)
        ensures
            final(self).wf(),
            !final(self).state.is_active,
            final(self).state.time_text@.len() == 0,
            final(self).state.ms_text@.len() == 0,
            final(self).state.mode == old(self).state.mode,
            final(self).config == old(self).config,
            final(self).start_time.is_none(),
            final(self).end_time.is_none(),
            final(self).last_activity.is_none(),
            final(self).known_completions@.len() == 0,
            final(self).last_completed_activity_hash.is_none(),
    {
        self.state.is_active = false;
        self.state.time_text = String::new();
        self.state.ms_text = String::new();
        self.start_time = None;
        self.last_activity = None;
        self.end_time = None;
        self.last_completed_activity_hash = None;
        self.known_completions = Vec::new();
    }

    /// Clear the session on a profile switch: like a reset, but the display
    /// shows the distinct "not tracking" sentinel. The caller cancels the
    /// ticking task and publishes.
    pub fn clear_activity(&mut self)
        ensures
            final(self).wf(),
            !final(self).state.is_active,
            final(self).state.time_text@ == "--:--:--"@,
            final(self).state.ms_text@.len() == 0,
            final(self).state.mode == old(self).state.mode,
            final(self).config == old(self).config,
            final(self).start_time.is_none(),
            final(self).end_time.is_none(),
            final(self).last_activity.is_none(),
            final(self).known_completions@.len() == 0,
            final(self).last_completed_activity_hash == old(self).last_completed_activity_hash,
    {
        self.state.is_active = false;
        self.state.time_text = String::from_str("--:--:--");
        self.state.ms_text = String::new();
        self.start_time = None;
        self.last_activity = None;
        self.end_time = None;
        self.known_completions = Vec::new();
    }

    /// Stop and fully clear the session, then start a fresh one for the
    /// current activity — but never for hash 0, a hash in the configured
    /// excluded set, or an activity whose modes warrant no timer. The caller
    /// cancels the ticking task, restarts it when a session started, and
    /// publishes.
    pub fn clear_and_restart_activity(&mut self, player_data: &PlayerData) -> (restarted: bool)
        requires
            old(self).wf(),
            crate::activity::player_data_ok(*player_data),
        ensures
            final(self).wf(),
            restarted == (player_data.current_activity.activity_hash != 0 && !old(self).config.excluded_hashes@.contains(player_data.current_activity.activity_hash)
                && player_data.current_activity.activity_info.is_some() && info_has_timer_mode(
                player_data.current_activity.activity_info.unwrap(),
            ) && start_allowed(
                old(self).state.mode,
                None,
                None,
                player_data.current_activity,
                player_data.activity_history@,
            )),
            player_data.current_activity.activity_hash == 0 || old(
                self,
            ).config.excluded_hashes@.contains(player_data.current_activity.activity_hash)
                ==> !restarted,
            !restarted ==> !final(self).state.is_active && final(self).start_time.is_none()
                && final(self).end_time.is_none() && final(self).last_activity.is_none() && final(self).state.time_text@.len() == 0 && final(self).state.ms_text@.len() == 0,
            restarted ==> ({
                &&& final(self).last_activity matches Some(la) && cur_act_eq(
                    la,
                    player_data.current_activity,
                )
                &&& final(self).state.is_active
                &&& final(self).start_time == Some(player_data.current_activity.start_date)
                &&& final(self).end_time.is_none()
            }),
            final(self).state.mode == old(self).state.mode,
            final(self).config == old(self).config,
            final(self).known_completions == old(self).known_completions,
    {
        self.state.is_active = false;
        self.state.time_text = String::new();
        self.state.ms_text = String::new();
        self.start_time = None;
        self.last_activity = None;
        self.end_time = None;
        if player_data.current_activity.activity_hash != 0 && !self.is_excluded(
            player_data.current_activity.activity_hash,
        ) {
            match &player_data.current_activity.activity_info {
                Some(activity_info) => {
                    if self.should_have_timer(activity_info) {
                        return self.start_activity(
                            &player_data.current_activity,
                            &player_data.activity_history,
                        );
                    }
                },
                None => {},
            }
        }
        false
    }

    /// Whether a session with this hash is being tracked and has not ended.
    pub fn is_tracking_activity(&self, activity_hash: u64) -> (r: bool)
        ensures
            r == (self.last_activity matches Some(la) && la.activity_hash == activity_hash
                && self.end_time is None),
    {
        match &self.last_activity {
            Some(la) => la.activity_hash == activity_hash && self.end_time.is_none(),
            None => false,
        }
    }

    /// Whether this hash was the most recently completed activity.
    pub fn was_recently_completed(&self, activity_hash: u64) -> (r: bool)
        ensures
            r == (self.last_completed_activity_hash == Some(activity_hash)),
    {
        match self.last_completed_activity_hash {
            Some(h) => h == activity_hash,
            None => false,
        }
    }

    /// One tick of the elapsed-time display: compute the elapsed time
    /// against the session start and render it. Reports whether the ticking
    /// task should keep running; with no session start set it must
    /// terminate.
    pub fn tick(&mut self, now_ms: i64) -> (active: bool)
        requires
            old(self).wf(),
            ts_ok(now_ms as int),
        ensures
            final(self).wf(),
            old(self).start_time.is_none() ==> !active && *final(self) == *old(self),
            old(self).start_time matches Some(st) ==> active && ({
                let elapsed = if now_ms >= st {
                    now_ms - st
                } else {
                    0
                };
                &&& (elapsed > 0 ==> final(self).state.time_text@ == time_text_spec(elapsed)
                    && final(self).state.ms_text@ == ms_text_spec(elapsed))
                &&& (elapsed == 0 ==> final(self).state.time_text@.len() == 0 && final(self).state.ms_text@.len() == 0)
            }),
            final(self).state.is_active == old(self).state.is_active,
            final(self).state.mode == old(self).state.mode,
            final(self).config == old(self).config,
            final(self).start_time == old(self).start_time,
            final(self).end_time == old(self).end_time,
            final(self).last_activity == old(self).last_activity,
            final(self).known_completions == old(self).known_completions,
    {
        let st = match self.start_time {
            Some(st) => st,
            None => {
                return false;
            },
        };
        let millis: u64 = if now_ms >= st {
            (now_ms - st) as u64
        } else {
            0
        };
        let (time_text, ms_text) = format_elapsed(millis);
        self.state.time_text = time_text;
        self.state.ms_text = ms_text;
        true
    }

    /// One orchestration step per poll cycle, fed with a fresh status
    /// snapshot. In Persistent mode, completion detection runs first. Then:
    /// no current activity stops the timer in Default mode; a current
    /// activity whose modes warrant a timer is started through the usual
    /// gate.
    pub fn update(&mut self, player_data: &PlayerData, now_ms: i64) -> (r: UpdateOutcome)
        requires
            old(self).wf(),
            crate::activity::player_data_ok(*player_data),
        ensures
            final(self).wf(),
            final(self).state.mode == old(self).state.mode,
            final(self).config == old(self).config,
            r.finalized == completion_fires(*old(self), player_data.activity_history@),
            r.stopped == (player_data.current_activity.activity_hash == 0 && old(
                self,
            ).state.mode == TimerMode::Default),
            r.stopped ==> !final(self).state.is_active && final(self).start_time.is_none()
                && final(self).last_activity.is_none() && final(self).end_time.is_none(),
            player_data.current_activity.activity_hash == 0 ==> !r.started,
            r.started == (player_data.current_activity.activity_hash != 0
                && player_data.current_activity.activity_info.is_some() && info_has_timer_mode(
                player_data.current_activity.activity_info.unwrap(),
            ) && (if completion_fires(*old(self), player_data.activity_history@) {
                start_allowed(
                    old(self).state.mode,
                    None,
                    Some(now_ms),
                    player_data.current_activity,
                    player_data.activity_history@,
                )
            } else {
                start_allowed(
                    old(self).state.mode,
                    old(self).last_activity,
                    old(self).end_time,
                    player_data.current_activity,
                    player_data.activity_history@,
                )
            })),
            r.started ==> ({
                &&& final(self).last_activity matches Some(la) && cur_act_eq(
                    la,
                    player_data.current_activity,
                )
                &&& final(self).state.is_active
                &&& final(self).start_time == Some(player_data.current_activity.start_date)
                &&& final(self).end_time.is_none()
            }),
    {
        let mut finalized = false;
        if self.get_mode() == TimerMode::Persistent {
            finalized = self.check_activity_completed_at(&player_data.activity_history, now_ms);
        }
        let mut stopped = false;
        let mut started = false;
        if player_data.current_activity.activity_hash == 0 {
            if self.get_mode() == TimerMode::Default {
                self.stop();
                stopped = true;
            }
        } else {
            match &player_data.current_activity.activity_info {
                Some(activity_info) => {
                    if self.should_have_timer(activity_info) {
                        started = self.start_activity(
                            &player_data.current_activity,
                            &player_data.activity_history,
                        );
                    }
                },
                None => {},
            }
        }
        UpdateOutcome { finalized, stopped, started }
    }
}

/// In Persistent mode, once a session is tracking an activity hash and has
/// not ended, the guard refuses to start that hash again: a repeated
/// `start_activity` with the same activity is a no-op.
pub proof fn lemma_start_idempotent_persistent(
    t: Timer,
    a: CurrentActivity,
    h: Seq<CompletedActivity>,
)
    requires
        t.state.mode == TimerMode::Persistent,
        t.last_activity matches Some(la) && la.activity_hash == a.activity_hash,
        t.end_time.is_none(),
    ensures
        !start_allowed(t.state.mode, t.last_activity, t.end_time, a, h),
{
}

/// Completion detection finalizes at most once per `(activity_hash, period)`
/// key: once the key of the most recent history entry is recorded, a repeat
/// call with the same entry cannot fire again.
pub proof fn lemma_completion_at_most_once(t: Timer, t2: Timer, h: Seq<CompletedActivity>)
    requires
        h.len() > 0,
        t2.known_completions@ == t.known_completions@.push(
            CompletionKey { activity_hash: h[0].activity_hash, period: h[0].period },
        ),
    ensures
        !completion_fires(t2, h),
{
    let key = CompletionKey { activity_hash: h[0].activity_hash, period: h[0].period };
    assert(t2.known_completions@[t.known_completions@.len() as int] == key);
}

/// What one orchestration step did: whether completion detection finalized
/// the session, whether the timer stopped, and whether a session started.
/// A started session obliges the caller to restart the ticking task; a
/// finalization obliges it to cancel the task and schedule the delayed
/// display clear.
#[derive(Clone, Copy, Debug, PartialEq, Eq, Structural)]
pub struct UpdateOutcome {
    pub finalized: bool,
    pub stopped: bool,
    pub started: bool,
}

} // verus!
