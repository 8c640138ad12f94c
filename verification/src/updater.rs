use vstd::prelude::*;

use crate::activity::{ActivityInfo, CharacterActivity, CurrentActivity, PollError, info_eq};

verus! {

/// What the caller must do next after comparing snapshots against the last
/// known current activity.
#[derive(Clone, Copy, Debug, PartialEq, Eq, Structural)]
pub enum CurrentStep {
    /// Nothing newer was observed; report unchanged.
    Unchanged,
    /// The player left for orbit or an untracked state: the metadata was
    /// cleared; report changed.
    NoActivity,
    /// A new activity was adopted; its detail must be resolved by hash, then
    /// folded in with `apply_detail`.
    NeedDetail { activity_hash: u64 },
}

/// The outcome of resolving activity detail by hash, as handed back by the
/// upstream source: the record may simply not exist, which is not an error.
pub enum DetailOutcome {
    Missing,
    Found { info: ActivityInfo },
}

/// Snapshot order: by start timestamp, ties by activity hash.
pub open spec fn snap_le(a: CharacterActivity, b: CharacterActivity) -> bool {
    a.date_activity_started < b.date_activity_started || (a.date_activity_started
        == b.date_activity_started && a.current_activity_hash <= b.current_activity_hash)
}

/// The maximum snapshot of a non-empty sequence; among equals the later
/// element wins.
pub open spec fn max_snapshot(s: Seq<CharacterActivity>) -> CharacterActivity
    recommends
        s.len() > 0,
    decreases s.len(),
{
    if s.len() <= 1 {
        s[0]
    } else {
        let m = max_snapshot(s.drop_last());
        if snap_le(m, s.last()) {
            s.last()
        } else {
            m
        }
    }
}

/// The maximum snapshot dominates every element.
pub proof fn lemma_max_snapshot(s: Seq<CharacterActivity>)
    requires
        s.len() > 0,
    ensures
        forall|i: int| 0 <= i < s.len() ==> snap_le(#[trigger] s[i], max_snapshot(s)),
        exists|i: int| 0 <= i < s.len() && s[i] == max_snapshot(s),
    decreases s.len(),
{
    if s.len() == 1 {
        assert(s[0] == max_snapshot(s));
    } else {
        lemma_max_snapshot(s.drop_last());
        let m = max_snapshot(s.drop_last());
        let w = choose|i: int| 0 <= i < s.drop_last().len() && s.drop_last()[i] == m;
        assert(s[w] == m);
        assert forall|i: int| 0 <= i < s.len() implies snap_le(#[trigger] s[i], max_snapshot(s)) by {
            if i < s.len() - 1 {
                assert(snap_le(s.drop_last()[i], m));
            }
        }
    }
}

/// Find the maximum snapshot; among equal snapshots the last one is returned.
fn max_of_snapshots(snaps: &Vec<CharacterActivity>) -> (m: CharacterActivity)
    requires
        snaps@.len() > 0,
    ensures
        m == max_snapshot(snaps@),
{
    let mut m = snaps[0];
    let mut k: usize = 1;
    proof {
        assert(snaps@.take(1) =~= seq![snaps@[0]]);
    }
    while k < snaps.len()
        invariant
            1 <= k <= snaps@.len(),
            m == max_snapshot(snaps@.take(k as int)),
        decreases snaps@.len() - k,
    {
        let c = snaps[k];
        proof {
            assert(snaps@.take(k as int + 1).drop_last() =~= snaps@.take(k as int));
            assert(snaps@.take(k as int + 1).last() == snaps@[k as int]);
        }
        if m.date_activity_started < c.date_activity_started || (m.date_activity_started
            == c.date_activity_started && m.current_activity_hash <= c.current_activity_hash) {
            m = c;
        }
        k += 1;
    }
    proof {
        assert(snaps@.take(k as int) =~= snaps@);
    }
    m
}

/// Whether the comparison step reports unchanged: the newest start date is
/// not strictly newer and either no metadata was ever resolved for an equal
/// date, or the activity hash matches.
pub open spec fn reports_unchanged(last: CurrentActivity, m: CharacterActivity) -> bool {
    m.date_activity_started < last.start_date || (m.date_activity_started == last.start_date && (
    last.activity_info.is_none() || last.activity_hash == m.current_activity_hash))
}

/// Compare the per-character snapshots against the last known current
/// activity and decide the next step of the update.
///
/// A missing snapshot list means the profile is private; an empty one means
/// no character yielded data. Otherwise the newest snapshot is selected: a
/// stale or already-seen snapshot reports unchanged; a snapshot with hash 0
/// clears the metadata (transition to "no activity"); anything else adopts
/// the new start date and asks for detail resolution.
pub fn evaluate_current(last: &mut CurrentActivity, snapshots: &Option<Vec<CharacterActivity>>) -> (
    r: Result<CurrentStep, PollError>)
    ensures
        snapshots.is_none() ==> r == Result::<CurrentStep, PollError>::Err(
            PollError::ProfilePrivate,
        ) && *final(last) == *old(last),
        snapshots.is_some() && snapshots.unwrap()@.len() == 0 ==> r == Result::<
            CurrentStep,
            PollError,
        >::Err(PollError::NoCharacterData) && *final(last) == *old(last),
        snapshots.is_some() && snapshots.unwrap()@.len() > 0 && reports_unchanged(
            *old(last),
            max_snapshot(snapshots.unwrap()@),
        ) ==> r == Result::<CurrentStep, PollError>::Ok(CurrentStep::Unchanged) && *final(last)
            == *old(last),
        snapshots.is_some() && snapshots.unwrap()@.len() > 0 && !reports_unchanged(
            *old(last),
            max_snapshot(snapshots.unwrap()@),
        ) ==> {
            let m = max_snapshot(snapshots.unwrap()@);
            &&& final(last).start_date == if m.date_activity_started > old(
                last,
            ).start_date {
                m.date_activity_started
            } else {
                old(last).start_date
            }
            &&& (m.current_activity_hash == 0 ==> r == Result::<CurrentStep, PollError>::Ok(
                CurrentStep::NoActivity,
            ) && final(last).activity_info.is_none() && final(last).activity_hash == old(
                last,
            ).activity_hash)
            &&& (m.current_activity_hash != 0 ==> r == Result::<CurrentStep, PollError>::Ok(
                CurrentStep::NeedDetail { activity_hash: m.current_activity_hash },
            ) && final(last).activity_info == old(last).activity_info && final(last).activity_hash
                == old(last).activity_hash)
        },
{
    let snaps = match snapshots {
        Some(v) => v,
        None => {
            return Err(PollError::ProfilePrivate);
        },
    };
    if snaps.len() == 0 {
        return Err(PollError::NoCharacterData);
    }
    let m = max_of_snapshots(snaps);
    if m.date_activity_started > last.start_date {
        last.start_date = m.date_activity_started;
    } else if m.date_activity_started == last.start_date {
        if last.activity_info.is_none() {
            return Ok(CurrentStep::Unchanged);
        }
        if last.activity_hash == m.current_activity_hash {
            return Ok(CurrentStep::Unchanged);
        }
    } else {
        return Ok(CurrentStep::Unchanged);
    }
    if m.current_activity_hash == 0 {
        last.activity_info = None;
        return Ok(CurrentStep::NoActivity);
    }
    Ok(CurrentStep::NeedDetail { activity_hash: m.current_activity_hash })
}

/// Fold a resolved activity detail into the current activity. A missing
/// record or an empty display name is treated as "no activity" (the hash is
/// left as it was); a named record is adopted together with its hash. The
/// update is always a change.
pub fn apply_detail(last: &mut CurrentActivity, activity_hash: u64, detail: DetailOutcome) -> (
    changed: bool)
    ensures
        changed,
        final(last).start_date == old(last).start_date,
        detail is Missing ==> final(last).activity_info.is_none()
            && final(last).activity_hash == old(last).activity_hash,
        detail is Found && detail->Found_info.name@.len() == 0
            ==> final(last).activity_info.is_none()
            && final(last).activity_hash == old(last).activity_hash,
        detail is Found && detail->Found_info.name@.len() > 0
            ==> final(last).activity_hash == activity_hash && match final(last).activity_info {
            Some(stored) => info_eq(stored, detail->Found_info),
            None => false,
        },
{
    match detail {
        DetailOutcome::Missing => {
            last.activity_info = None;
            true
        },
        DetailOutcome::Found { info } => {
            if info.name.as_str().is_empty() {
                last.activity_info = None;
                true
            } else {
                last.activity_hash = activity_hash;
                last.activity_info = Some(info);
                true
            }
        },
    }
}

} // verus!
