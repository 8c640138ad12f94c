use vstd::prelude::*;

verus! {

/// Canonical activity-mode codes. The history filter and the timer's
/// eligibility check both draw from this one table.
pub const STORY_ACTIVITY_MODE: u32 = 2;

pub const RAID_ACTIVITY_MODE: u32 = 4;

pub const STRIKE_ACTIVITY_MODE: u32 = 18;

pub const DUNGEON_ACTIVITY_MODE: u32 = 82;

pub const LOSTSECTOR_ACTIVITY_MODE: u32 = 87;

/// Activity hashes whose sessions never get a timer.
pub const RAID_ACTIVITY_HASH: u64 = 2043403989;

pub const DUNGEON_ACTIVITY_HASH: u64 = 608898761;

/// Largest timestamp magnitude accepted by the engine, in milliseconds.
pub const TS_BOUND: i64 = 1000000000000000;

/// Timestamps are milliseconds since the Unix epoch. All timestamps that the
/// engine does arithmetic on are required to lie in this range, so that sums
/// with activity durations stay well inside `i64`.
pub open spec fn ts_ok(t: int) -> bool {
    -TS_BOUND <= t <= TS_BOUND
}

/// Descriptive metadata of an activity, resolved by hash.
#[derive(Clone, Debug, PartialEq)]
pub struct ActivityInfo {
    pub name: String,
    pub activity_modes: Vec<u32>,
}

/// One historical, finished activity record. Identity is `instance_id`;
/// `period` is the start timestamp in milliseconds since the Unix epoch.
#[derive(Clone, Debug, PartialEq)]
pub struct CompletedActivity {
    pub instance_id: String,
    pub period: i64,
    pub activity_duration_seconds: u32,
    pub modes: Vec<u32>,
    pub completed: bool,
    pub activity_hash: u64,
}

/// The activity a player is currently in; `activity_hash == 0` means
/// "no activity". `start_date` is milliseconds since the Unix epoch;
/// a fresh value carries `i64::MIN` so that any real snapshot is newer.
#[derive(Clone, Debug, PartialEq)]
pub struct CurrentActivity {
    pub start_date: i64,
    pub activity_hash: u64,
    pub activity_info: Option<ActivityInfo>,
}

/// A per-character snapshot of the latest activity, as the upstream source
/// reports it.
#[derive(Clone, Copy, Debug, PartialEq, Eq, Structural)]
pub struct CharacterActivity {
    pub date_activity_started: i64,
    pub current_activity_hash: u64,
}

/// Profile metadata needed by the poller: the character ids to paginate.
#[derive(Clone, Debug, PartialEq)]
pub struct ProfileInfo {
    pub character_ids: Vec<String>,
}

/// A full status snapshot handed to observers.
#[derive(Clone, Debug, PartialEq)]
pub struct PlayerData {
    pub current_activity: CurrentActivity,
    pub activity_history: Vec<CompletedActivity>,
    pub profile_info: ProfileInfo,
}

/// The shared status: the latest snapshot, the latest error, and whether the
/// initial history backfill is still running.
#[derive(Clone, Debug, PartialEq)]
pub struct PlayerDataStatus {
    pub last_update: Option<PlayerData>,
    pub error: Option<PollError>,
    pub history_loading: bool,
}

/// The failures the polling subsystem reports to observers.
#[derive(Clone, Copy, Debug, PartialEq, Eq, Structural)]
pub enum PollError {
    UpstreamUnavailable,
    ProfilePrivate,
    NoCharacterData,
    HistoryFetchFailed,
    NoProfileSet,
}

impl Default for PlayerDataStatus {
    fn default() -> (r: Self)
        ensures
            r.last_update.is_none(),
            r.error.is_none(),
            !r.history_loading,
    {
        PlayerDataStatus { last_update: None, error: None, history_loading: false }
    }
}

impl PollError {
    /// Display text for the observer boundary.
    pub fn message(&self) -> (r: String)
        ensures
            *self == PollError::UpstreamUnavailable ==> r@ == "Upstream API unavailable"@,
            *self == PollError::ProfilePrivate ==> r@ == "Profile is private"@,
            *self == PollError::NoCharacterData ==> r@ == "No character data for profile"@,
            *self == PollError::HistoryFetchFailed ==> r@ == "Failed to load activity history"@,
            *self == PollError::NoProfileSet ==> r@ == "No profile set"@,
    {
        match self {
            PollError::UpstreamUnavailable => String::from_str("Upstream API unavailable"),
            PollError::ProfilePrivate => String::from_str("Profile is private"),
            PollError::NoCharacterData => String::from_str("No character data for profile"),
            PollError::HistoryFetchFailed => String::from_str("Failed to load activity history"),
            PollError::NoProfileSet => String::from_str("No profile set"),
        }
    }
}

/// Whether a mode code makes an activity eligible for the history list.
pub open spec fn mode_in_history_filter(m: u32) -> bool {
    m == RAID_ACTIVITY_MODE || m == DUNGEON_ACTIVITY_MODE || m == STRIKE_ACTIVITY_MODE
        || m == LOSTSECTOR_ACTIVITY_MODE
}

/// Whether a mode code makes an activity eligible for a timer.
pub open spec fn mode_has_timer(m: u32) -> bool {
    m == STORY_ACTIVITY_MODE || mode_in_history_filter(m)
}

/// A history record is kept when it starts within the cutoff window and one
/// of its modes is in the history filter.
pub open spec fn history_eligible(a: CompletedActivity, cutoff: int) -> bool {
    a.period >= cutoff && exists|i: int|
        0 <= i < a.modes@.len() && mode_in_history_filter(#[trigger] a.modes@[i])
}

/// Exec check: does any mode of the list pass the history filter?
pub fn any_mode_in_history_filter(modes: &Vec<u32>) -> (r: bool)
    ensures
        r == exists|i: int| 0 <= i < modes@.len() && mode_in_history_filter(#[trigger] modes@[i]),
{
    let mut k: usize = 0;
    while k < modes.len()
        invariant
            k <= modes@.len(),
            forall|i: int| 0 <= i < k ==> !mode_in_history_filter(#[trigger] modes@[i]),
        decreases modes@.len() - k,
    {
        let m = modes[k];
        if m == RAID_ACTIVITY_MODE || m == DUNGEON_ACTIVITY_MODE || m == STRIKE_ACTIVITY_MODE
            || m == LOSTSECTOR_ACTIVITY_MODE {
            return true;
        }
        k += 1;
    }
    false
}

/// Exec check: does any mode of the activity metadata warrant a timer?
pub fn any_mode_has_timer(modes: &Vec<u32>) -> (r: bool)
    ensures
        r == exists|i: int| 0 <= i < modes@.len() && mode_has_timer(#[trigger] modes@[i]),
{
    let mut k: usize = 0;
    while k < modes.len()
        invariant
            k <= modes@.len(),
            forall|i: int| 0 <= i < k ==> !mode_has_timer(#[trigger] modes@[i]),
        decreases modes@.len() - k,
    {
        let m = modes[k];
        if m == STORY_ACTIVITY_MODE || m == RAID_ACTIVITY_MODE || m == DUNGEON_ACTIVITY_MODE
            || m == STRIKE_ACTIVITY_MODE || m == LOSTSECTOR_ACTIVITY_MODE {
            return true;
        }
        k += 1;
    }
    false
}

/// View-level equality of completed-activity records.
pub open spec fn act_eq(a: CompletedActivity, b: CompletedActivity) -> bool {
    a.instance_id@ == b.instance_id@ && a.period == b.period && a.activity_duration_seconds
        == b.activity_duration_seconds && a.modes@ == b.modes@ && a.completed == b.completed
        && a.activity_hash == b.activity_hash
}

/// Pairwise view-level equality of two record sequences.
pub open spec fn acts_eq(s: Seq<CompletedActivity>, t: Seq<CompletedActivity>) -> bool {
    s.len() == t.len() && forall|i: int| 0 <= i < s.len() ==> act_eq(#[trigger] s[i], t[i])
}

impl CompletedActivity {
    /// A value-for-value copy.
    pub fn duplicate(&self) -> (r: Self)
        ensures
            act_eq(r, *self),
    {
        CompletedActivity {
            instance_id: self.instance_id.clone(),
            period: self.period,
            activity_duration_seconds: self.activity_duration_seconds,
            modes: copy_modes(&self.modes),
            completed: self.completed,
            activity_hash: self.activity_hash,
        }
    }
}

/// Copies of the first `n` records of a list.
pub fn duplicate_prefix(v: &Vec<CompletedActivity>, n: usize) -> (r: Vec<CompletedActivity>)
    requires
        n <= v@.len(),
    ensures
        acts_eq(r@, v@.take(n as int)),
{
    let mut r: Vec<CompletedActivity> = Vec::new();
    let mut k: usize = 0;
    while k < n
        invariant
            k <= n <= v@.len(),
            r@.len() == k,
            forall|i: int| 0 <= i < k ==> act_eq(#[trigger] r@[i], v@[i]),
        decreases n - k,
    {
        r.push(v[k].duplicate());
        k += 1;
    }
    r
}

/// Whether the activity metadata's modes warrant a timer.
pub open spec fn info_has_timer_mode(info: ActivityInfo) -> bool {
    exists|i: int|
        0 <= i < info.activity_modes@.len() && mode_has_timer(#[trigger] info.activity_modes@[i])
}

/// View-level equality of activity metadata.
pub open spec fn info_eq(a: ActivityInfo, b: ActivityInfo) -> bool {
    a.name@ == b.name@ && a.activity_modes@ == b.activity_modes@
}

/// View-level equality of current-activity values.
pub open spec fn cur_act_eq(a: CurrentActivity, b: CurrentActivity) -> bool {
    a.start_date == b.start_date && a.activity_hash == b.activity_hash && match (
        a.activity_info,
        b.activity_info,
    ) {
        (Some(x), Some(y)) => info_eq(x, y),
        (None, None) => true,
        _ => false,
    }
}

/// What the timer engine needs of a status snapshot: a resolved current
/// activity carries an in-range start timestamp, and the most recent history
/// entry (the only one the timer reads) an in-range period.
pub open spec fn player_data_ok(pd: PlayerData) -> bool {
    &&& pd.current_activity.activity_info.is_some() ==> ts_ok(pd.current_activity.start_date as int)
    &&& pd.activity_history@.len() > 0 ==> ts_ok(pd.activity_history@[0].period as int)
}

/// Copy a vector of mode codes.
pub fn copy_modes(v: &Vec<u32>) -> (r: Vec<u32>)
    ensures
        r@ == v@,
{
    let mut r: Vec<u32> = Vec::new();
    let mut k: usize = 0;
    while k < v.len()
        invariant
            k <= v@.len(),
            r@ == v@.take(k as int),
        decreases v@.len() - k,
    {
        r.push(v[k]);
        proof {
            assert(r@ =~= v@.take(k as int + 1));
        }
        k += 1;
    }
    proof {
        assert(r@ =~= v@);
    }
    r
}

impl ActivityInfo {
    /// A value-for-value copy.
    pub fn duplicate(&self) -> (r: Self)
        ensures
            info_eq(r, *self),
    {
        ActivityInfo { name: self.name.clone(), activity_modes: copy_modes(&self.activity_modes) }
    }
}

impl CurrentActivity {
    /// A value-for-value copy.
    pub fn duplicate(&self) -> (r: Self)
        ensures
            cur_act_eq(r, *self),
    {
        CurrentActivity {
            start_date: self.start_date,
            activity_hash: self.activity_hash,
            activity_info: match &self.activity_info {
                Some(info) => Some(info.duplicate()),
                None => None,
            },
        }
    }

    /// The state before any snapshot has been adopted.
    pub fn initial() -> (r: Self)
        ensures
            r.start_date == i64::MIN,
            r.activity_hash == 0,
            r.activity_info.is_none(),
    {
        CurrentActivity { start_date: i64::MIN, activity_hash: 0, activity_info: None }
    }
}

} // verus!
