use vstd::prelude::*;

use crate::activity::{CompletedActivity, acts_eq, duplicate_prefix, history_eligible,
    any_mode_in_history_filter};
use crate::dedup::{canonical, merge, merge_one, merge_spec};

verus! {

/// The first batch of eligible activities published without batching, for
/// responsiveness.
pub const INSTANT_COUNT: usize = 20;

/// Largest batch published at once beyond the instant phase.
pub const BATCH_SIZE: usize = 50;

/// Minimum spacing of throttled publishes, in milliseconds.
pub const UI_UPDATE_INTERVAL_MS: i64 = 1000;

/// The eligible subsequence of a fetched page, in arrival order.
pub open spec fn eligible_filter(s: Seq<CompletedActivity>, cutoff: int) -> Seq<
    CompletedActivity,
> {
    s.filter(|a: CompletedActivity| history_eligible(a, cutoff))
}

proof fn lemma_eligible_filter_push(s: Seq<CompletedActivity>, a: CompletedActivity, cutoff: int)
    ensures
        eligible_filter(s.push(a), cutoff) == if history_eligible(a, cutoff) {
            eligible_filter(s, cutoff).push(a)
        } else {
            eligible_filter(s, cutoff)
        },
{
    reveal(Seq::filter);
    assert(s.push(a).drop_last() =~= s);
    assert(s.push(a).last() == a);
    assert(s.push(a).len() == s.len() + 1);
}

/// Split a fetched page into the records that belong in the history — within
/// the cutoff window, with an eligible mode — and a flag telling whether the
/// page already reached past the cutoff (which ends this character's
/// pagination).
pub fn filter_page(page: Vec<CompletedActivity>, cutoff: i64) -> (r: (
    Vec<CompletedActivity>,
    bool,
))
    ensures
        r.0@ == eligible_filter(page@, cutoff as int),
        r.1 == exists|i: int| 0 <= i < page@.len() && #[trigger] page@[i].period < cutoff,
{
    let ghost orig = page@;
    let mut rest = page;
    let mut out: Vec<CompletedActivity> = Vec::new();
    let mut past_cutoff = false;
    let ghost mut k: int = 0;
    proof {
        reveal(Seq::filter);
        assert(eligible_filter(orig.take(0), cutoff as int) =~= Seq::empty());
        assert(orig.skip(0) =~= orig);
    }
    while rest.len() > 0
        invariant
            0 <= k <= orig.len(),
            rest@ == orig.skip(k),
            out@ == eligible_filter(orig.take(k), cutoff as int),
            past_cutoff == exists|i: int| 0 <= i < k && #[trigger] orig[i].period < cutoff,
        decreases rest@.len(),
    {
        let a = rest.remove(0);
        proof {
            assert(orig.skip(k)[0] == orig[k]);
            assert(orig.skip(k).remove(0) =~= orig.skip(k + 1));
            assert(orig.take(k + 1).drop_last() =~= orig.take(k));
            assert(orig.take(k + 1).last() == orig[k]);
        }
        if a.period < cutoff {
            past_cutoff = true;
            proof {
                assert(orig[k].period < cutoff);
            }
        } else {
            let keep = any_mode_in_history_filter(&a.modes);
            if keep {
                out.push(a);
            }
            proof {
                assert(history_eligible(orig[k], cutoff as int) == keep);
            }
        }
        proof {
            assert(orig.take(k + 1) =~= orig.take(k).push(orig[k]));
            lemma_eligible_filter_push(orig.take(k), orig[k], cutoff as int);
            k = k + 1;
        }
    }
    proof {
        assert(orig.take(k) =~= orig);
    }
    (out, past_cutoff)
}

/// The largest start timestamp of a non-empty record list.
pub open spec fn max_period(s: Seq<CompletedActivity>) -> int
    recommends
        s.len() > 0,
    decreases s.len(),
{
    if s.len() <= 1 {
        s[0].period as int
    } else {
        let m = max_period(s.drop_last());
        if s.last().period as int >= m {
            s.last().period as int
        } else {
            m
        }
    }
}

/// The largest start timestamp of a non-empty list.
fn max_period_of(v: &Vec<CompletedActivity>) -> (m: i64)
    requires
        v@.len() > 0,
    ensures
        m == max_period(v@),
{
    let mut m = v[0].period;
    let mut k: usize = 1;
    proof {
        assert(v@.take(1).len() == 1);
        assert(v@.take(1)[0] == v@[0]);
    }
    while k < v.len()
        invariant
            1 <= k <= v@.len(),
            m == max_period(v@.take(k as int)),
        decreases v@.len() - k,
    {
        proof {
            assert(v@.take(k as int + 1).drop_last() =~= v@.take(k as int));
            assert(v@.take(k as int + 1).last() == v@[k as int]);
        }
        if v[k].period >= m {
            m = v[k].period;
        }
        k += 1;
    }
    proof {
        assert(v@.take(k as int) =~= v@);
    }
    m
}

/// Steady-state history refresh: replace the stored list with the merge of
/// the freshly fetched eligible records, unless the new maximum start
/// timestamp is not strictly greater than the stored one — then nothing
/// changed upstream and the stored list is kept, avoiding redundant
/// publishes.
pub fn refresh_history(last_history: &mut Vec<CompletedActivity>, fetched: Vec<
    CompletedActivity,
>) -> (changed: bool)
    ensures
        old(last_history)@.len() > 0 && fetched@.len() > 0 && max_period(old(last_history)@)
            >= max_period(fetched@) ==> !changed && final(last_history)@ == old(last_history)@,
        !(old(last_history)@.len() > 0 && fetched@.len() > 0 && max_period(old(last_history)@)
            >= max_period(fetched@)) ==> changed && final(last_history)@ == merge_spec(fetched@)
            && canonical(final(last_history)@),
{
    if last_history.len() > 0 && fetched.len() > 0 {
        let old_max = max_period_of(last_history);
        let new_max = max_period_of(&fetched);
        if old_max >= new_max {
            return false;
        }
    }
    *last_history = merge(fetched);
    true
}

/// What the caller must publish after a bootstrap step: nothing, a chunk
/// appended to the visible history, or a replacement prefix of the merged
/// list.
pub enum PublishAction {
    Skip,
    Append { chunk: Vec<CompletedActivity> },
    Replace { list: Vec<CompletedActivity> },
}

/// The incremental history bootstrap: accumulates eligible records page by
/// page, keeps a canonical merged list, and decides what to publish when.
///
/// The first `INSTANT_COUNT` newly discovered records are published
/// immediately, page by page. Beyond that, prefixes of the merged list are
/// published in batches of at most `BATCH_SIZE`, at most one publish per
/// `UI_UPDATE_INTERVAL_MS` of wall time — except that the last batch of a run
/// is always published.
pub struct HistoryBootstrap {
    /// The canonical merge of every eligible record ingested so far.
    pub master_list: Vec<CompletedActivity>,
    /// How many records have been handed out for publishing.
    pub activities_sent: usize,
    /// When the last throttled publish happened.
    pub last_publish_ms: i64,
    /// Whether the instant phase ended with discovered records left over.
    pub backlog: bool,
    /// Every eligible record ingested, in arrival order.
    pub all: Ghost<Seq<CompletedActivity>>,
}

impl HistoryBootstrap {
    /// The bootstrap's invariant: the master list is the canonical merge of
    /// everything ingested, and until the instant budget is spent and no
    /// backlog formed, the sent counter matches the ingested count.
    pub open spec fn wf(self) -> bool {
        &&& self.master_list@ == merge_spec(self.all@)
        &&& (self.activities_sent < INSTANT_COUNT && !self.backlog ==> self.activities_sent
            == self.all@.len())
        &&& crate::activity::ts_ok(self.last_publish_ms as int)
    }

    /// Start a bootstrap run; `now_ms` seeds the publish throttle.
    pub fn new(now_ms: i64) -> (r: Self)
        requires
            crate::activity::ts_ok(now_ms as int),
        ensures
            r.wf(),
            r.all@.len() == 0,
            r.master_list@.len() == 0,
            r.activities_sent == 0,
            r.last_publish_ms == now_ms,
            !r.backlog,
    {
        let r = HistoryBootstrap {
            master_list: Vec::new(),
            activities_sent: 0,
            last_publish_ms: now_ms,
            backlog: false,
            all: Ghost(Seq::empty()),
        };
        proof {
            assert(merge_spec(r.all@) =~= Seq::empty());
        }
        r
    }

    /// Fold freshly filtered records into the canonical master list.
    fn fold_in(&mut self, filtered: Vec<CompletedActivity>)
        requires
            old(self).master_list@ == merge_spec(old(self).all@),
        ensures
            final(self).all@ == old(self).all@ + filtered@,
            final(self).master_list@ == merge_spec(final(self).all@),
            canonical(final(self).master_list@),
            final(self).activities_sent == old(self).activities_sent,
            final(self).last_publish_ms == old(self).last_publish_ms,
            final(self).backlog == old(self).backlog,
    {
        let ghost base = self.all@;
        let ghost add = filtered@;
        let mut rest = filtered;
        let ghost mut k: int = 0;
        proof {
            crate::dedup::lemma_merge_canonical(base);
            assert(base + add.take(0) =~= base);
            assert(add.skip(0) =~= add);
        }
        while rest.len() > 0
            invariant
                0 <= k <= add.len(),
                rest@ == add.skip(k),
                self.all@ == base,
                self.master_list@ == merge_spec(base + add.take(k)),
                canonical(self.master_list@),
                self.activities_sent == old(self).activities_sent,
                self.last_publish_ms == old(self).last_publish_ms,
                self.backlog == old(self).backlog,
            decreases rest@.len(),
        {
            let a = rest.remove(0);
            proof {
                assert(add.skip(k)[0] == add[k]);
                assert(add.skip(k).remove(0) =~= add.skip(k + 1));
            }
            merge_one(&mut self.master_list, a);
            proof {
                assert((base + add.take(k + 1)).drop_last() =~= base + add.take(k));
                assert((base + add.take(k + 1)).last() == add[k]);
                k = k + 1;
            }
        }
        proof {
            assert(base + add.take(k) =~= base + add);
            self.all@ = base + add;
        }
    }

    /// Ingest one fetched page: filter it, merge the eligible records in, and
    /// decide what to publish. The second result reports whether the page
    /// reached past the cutoff, which ends the current character's
    /// pagination; the records past the cutoff are discarded either way.
    pub fn ingest_page(&mut self, page: Vec<CompletedActivity>, cutoff: i64, now_ms: i64) -> (r: (
        PublishAction,
        bool,
    ))
        requires
            old(self).wf(),
            crate::activity::ts_ok(now_ms as int),
        ensures
            final(self).wf(),
            r.1 == exists|i: int| 0 <= i < page@.len() && #[trigger] page@[i].period < cutoff,
            final(self).all@ == old(self).all@ + eligible_filter(page@, cutoff as int),
            final(self).master_list@ == merge_spec(final(self).all@),
            ({
                let s0 = *old(self);
                let f = eligible_filter(page@, cutoff as int);
                let m = merge_spec(s0.all@ + f);
                if s0.activities_sent < INSTANT_COUNT && !s0.backlog && f.len() > 0 {
                    // Instant phase: hand the new discoveries out at once,
                    // up to the instant budget.
                    let take = if INSTANT_COUNT - s0.activities_sent <= f.len() {
                        INSTANT_COUNT - s0.activities_sent
                    } else {
                        f.len() as int
                    };
                    &&& r.0 matches PublishAction::Append { chunk } && acts_eq(
                        chunk@,
                        f.take(take),
                    )
                    &&& final(self).activities_sent == s0.activities_sent + take
                    &&& final(self).last_publish_ms == s0.last_publish_ms
                } else if m.len() > s0.activities_sent {
                    // Batched phase: publish a prefix of the merged list,
                    // throttled, except for the final batch.
                    let take = if BATCH_SIZE <= m.len() - s0.activities_sent {
                        BATCH_SIZE as int
                    } else {
                        m.len() - s0.activities_sent
                    };
                    &&& final(self).activities_sent == s0.activities_sent + take
                    &&& if now_ms - s0.last_publish_ms >= UI_UPDATE_INTERVAL_MS
                        || s0.activities_sent + take >= m.len() {
                        r.0 matches PublishAction::Replace { list } && acts_eq(
                            list@,
                            m.take(s0.activities_sent + take),
                        ) && final(self).last_publish_ms == now_ms
                    } else {
                        r.0 is Skip && final(self).last_publish_ms == s0.last_publish_ms
                    }
                } else {
                    &&& r.0 is Skip
                    &&& final(self).activities_sent == s0.activities_sent
                    &&& final(self).last_publish_ms == s0.last_publish_ms
                }
            }),
    {
        let (filtered, past_cutoff) = filter_page(page, cutoff);
        let fl = filtered.len();
        let mut chunk_opt: Option<Vec<CompletedActivity>> = None;
        if self.activities_sent < INSTANT_COUNT && !self.backlog && fl > 0 {
            let budget = INSTANT_COUNT - self.activities_sent;
            let take = if budget <= fl {
                budget
            } else {
                fl
            };
            chunk_opt = Some(duplicate_prefix(&filtered, take));
            if take < fl {
                self.backlog = true;
            }
        }
        self.fold_in(filtered);
        proof {
            crate::dedup::lemma_merge_len(self.all@);
        }
        let action = match chunk_opt {
            Some(chunk) => {
                self.activities_sent = self.activities_sent + chunk.len();
                PublishAction::Append { chunk }
            },
            None => {
                if self.master_list.len() > self.activities_sent {
                    let remaining = self.master_list.len() - self.activities_sent;
                    let take = if BATCH_SIZE <= remaining {
                        BATCH_SIZE
                    } else {
                        remaining
                    };
                    let is_last = self.activities_sent + take >= self.master_list.len();
                    if now_ms - self.last_publish_ms >= UI_UPDATE_INTERVAL_MS || is_last {
                        let list = duplicate_prefix(
                            &self.master_list,
                            self.activities_sent + take,
                        );
                        self.last_publish_ms = now_ms;
                        self.activities_sent = self.activities_sent + take;
                        PublishAction::Replace { list }
                    } else {
                        self.activities_sent = self.activities_sent + take;
                        PublishAction::Skip
                    }
                } else {
                    PublishAction::Skip
                }
            },
        };
        (action, past_cutoff)
    }

    /// One step of the final flush: after all characters are paginated, hand
    /// out the records that throttling left unpublished, in batches of at
    /// most `BATCH_SIZE`, until the whole merged list is visible.
    pub fn final_flush_step(&mut self) -> (r: Option<Vec<CompletedActivity>>)
        requires
            old(self).wf(),
        ensures
            final(self).wf(),
            final(self).all@ == old(self).all@,
            final(self).master_list@ == old(self).master_list@,
            old(self).activities_sent >= old(self).master_list@.len() ==> r.is_none()
                && final(self).activities_sent == old(self).activities_sent,
            old(self).activities_sent < old(self).master_list@.len() ==> ({
                let take = if BATCH_SIZE <= old(self).master_list@.len() - old(
                    self,
                ).activities_sent {
                    BATCH_SIZE as int
                } else {
                    old(self).master_list@.len() - old(self).activities_sent
                };
                &&& r matches Some(list) && acts_eq(
                    list@,
                    old(self).master_list@.take(old(self).activities_sent + take),
                )
                &&& final(self).activities_sent == old(self).activities_sent + take
            }),
    {
        proof {
            crate::dedup::lemma_merge_len(self.all@);
        }
        if self.activities_sent >= self.master_list.len() {
            return None;
        }
        let remaining = self.master_list.len() - self.activities_sent;
        let take = if BATCH_SIZE <= remaining {
            BATCH_SIZE
        } else {
            remaining
        };
        let list = duplicate_prefix(&self.master_list, self.activities_sent + take);
        self.activities_sent = self.activities_sent + take;
        Some(list)
    }

    /// The full merged history, for the final publish that guarantees the
    /// complete set is visible.
    pub fn full_list(&self) -> (r: Vec<CompletedActivity>)
        ensures
            acts_eq(r@, self.master_list@),
    {
        let r = duplicate_prefix(&self.master_list, self.master_list.len());
        proof {
            assert(self.master_list@.take(self.master_list@.len() as int) =~= self.master_list@);
        }
        r
    }
}

} // verus!
