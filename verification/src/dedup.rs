use vstd::prelude::*;

use crate::activity::CompletedActivity;

verus! {

/// Sorted by `period` descending.
pub open spec fn sorted_desc(s: Seq<CompletedActivity>) -> bool {
    forall|i: int, j: int| 0 <= i < j < s.len() ==> s[i].period >= s[j].period
}

/// At most one entry per `instance_id`.
pub open spec fn unique_ids(s: Seq<CompletedActivity>) -> bool {
    forall|i: int, j: int|
        0 <= i < j < s.len() ==> s[i].instance_id@ != s[j].instance_id@
}

/// The canonical form of a history list: sorted by `period` descending with
/// one entry per `instance_id`.
pub open spec fn canonical(s: Seq<CompletedActivity>) -> bool {
    sorted_desc(s) && unique_ids(s)
}

/// Some entry of `s` carries this `instance_id`.
pub open spec fn has_id(s: Seq<CompletedActivity>, id: Seq<char>) -> bool {
    exists|i: int| 0 <= i < s.len() && #[trigger] s[i].instance_id@ == id
}

/// Some entry of `s` carries this `instance_id` and is completed.
pub open spec fn id_completed(s: Seq<CompletedActivity>, id: Seq<char>) -> bool {
    exists|i: int| 0 <= i < s.len() && #[trigger] s[i].instance_id@ == id && s[i].completed
}

/// The value occurs in the sequence.
pub open spec fn in_seq(a: CompletedActivity, s: Seq<CompletedActivity>) -> bool {
    exists|i: int| 0 <= i < s.len() && #[trigger] s[i] == a
}

/// The first position whose entry starts strictly before `a`; `s.len()` when
/// every entry starts at or after `a`. Inserting at this position keeps a
/// descending list descending.
pub open spec fn insert_pos(s: Seq<CompletedActivity>, a: CompletedActivity) -> int
    decreases s.len(),
{
    if s.len() == 0 {
        0
    } else if s[0].period < a.period {
        0
    } else {
        1 + insert_pos(s.skip(1), a)
    }
}

/// Insert `a` into a descending list at its sorted position.
pub open spec fn insert_desc_spec(s: Seq<CompletedActivity>, a: CompletedActivity) -> Seq<
    CompletedActivity,
> {
    s.insert(insert_pos(s, a), a)
}

/// The first position carrying `id`; `s.len()` when absent.
pub open spec fn find_id(s: Seq<CompletedActivity>, id: Seq<char>) -> int
    decreases s.len(),
{
    if s.len() == 0 {
        0
    } else if s[0].instance_id@ == id {
        0
    } else {
        1 + find_id(s.skip(1), id)
    }
}

/// Fold one observation into a canonical list: a fresh `instance_id` is
/// inserted at its sorted position; a duplicate replaces the retained entry
/// only when it upgrades `completed` from false to true.
pub open spec fn merge_step(out: Seq<CompletedActivity>, a: CompletedActivity) -> Seq<
    CompletedActivity,
> {
    if has_id(out, a.instance_id@) {
        let j = find_id(out, a.instance_id@);
        if !out[j].completed && a.completed {
            insert_desc_spec(out.remove(j), a)
        } else {
            out
        }
    } else {
        insert_desc_spec(out, a)
    }
}

/// The canonical merge of a list of observations, folded left to right.
pub open spec fn merge_spec(s: Seq<CompletedActivity>) -> Seq<CompletedActivity>
    decreases s.len(),
{
    if s.len() == 0 {
        Seq::empty()
    } else {
        merge_step(merge_spec(s.drop_last()), s.last())
    }
}

proof fn lemma_insert_pos_props(s: Seq<CompletedActivity>, a: CompletedActivity)
    ensures
        0 <= insert_pos(s, a) <= s.len(),
        forall|i: int| 0 <= i < insert_pos(s, a) ==> s[i].period >= a.period,
        insert_pos(s, a) < s.len() ==> s[insert_pos(s, a)].period < a.period,
    decreases s.len(),
{
    if s.len() == 0 {
    } else if s[0].period < a.period {
    } else {
        lemma_insert_pos_props(s.skip(1), a);
        assert forall|i: int| 0 <= i < insert_pos(s, a) implies s[i].period >= a.period by {
            if i > 0 {
                assert(s.skip(1)[i - 1] == s[i]);
            }
        }
        if insert_pos(s, a) < s.len() {
            assert(s.skip(1)[insert_pos(s, a) - 1] == s[insert_pos(s, a)]);
        }
    }
}

proof fn lemma_insert_pos_char(s: Seq<CompletedActivity>, a: CompletedActivity, p: int)
    requires
        0 <= p <= s.len(),
        forall|i: int| 0 <= i < p ==> s[i].period >= a.period,
        p < s.len() ==> s[p].period < a.period,
    ensures
        insert_pos(s, a) == p,
    decreases s.len(),
{
    if p == 0 {
        if s.len() > 0 {
            assert(s[0].period < a.period);
        }
    } else {
        assert(s[0].period >= a.period);
        assert forall|i: int| 0 <= i < p - 1 implies s.skip(1)[i].period >= a.period by {
            assert(s.skip(1)[i] == s[i + 1]);
        }
        if p - 1 < s.skip(1).len() {
            assert(s.skip(1)[p - 1] == s[p]);
        }
        lemma_insert_pos_char(s.skip(1), a, p - 1);
    }
}

proof fn lemma_find_id_char(s: Seq<CompletedActivity>, id: Seq<char>, p: int)
    requires
        0 <= p <= s.len(),
        forall|i: int| 0 <= i < p ==> s[i].instance_id@ != id,
        p < s.len() ==> s[p].instance_id@ == id,
    ensures
        find_id(s, id) == p,
    decreases s.len(),
{
    if p == 0 {
    } else {
        assert(s[0].instance_id@ != id);
        assert forall|i: int| 0 <= i < p - 1 implies s.skip(1)[i].instance_id@ != id by {
            assert(s.skip(1)[i] == s[i + 1]);
        }
        if p - 1 < s.skip(1).len() {
            assert(s.skip(1)[p - 1] == s[p]);
        }
        lemma_find_id_char(s.skip(1), id, p - 1);
    }
}

/// The shape of an insertion: length, index mapping, membership, identity of
/// ids, sortedness.
proof fn lemma_insert_desc(s: Seq<CompletedActivity>, a: CompletedActivity)
    ensures
        insert_desc_spec(s, a).len() == s.len() + 1,
        sorted_desc(s) ==> sorted_desc(insert_desc_spec(s, a)),
        forall|id: Seq<char>|
            #[trigger] has_id(insert_desc_spec(s, a), id) <==> (has_id(s, id) || id
                == a.instance_id@),
        forall|id: Seq<char>|
            #[trigger] id_completed(insert_desc_spec(s, a), id) <==> (id_completed(s, id) || (id
                == a.instance_id@ && a.completed)),
        forall|b: CompletedActivity|
            #[trigger] in_seq(b, insert_desc_spec(s, a)) <==> (in_seq(b, s) || b == a),
        (unique_ids(s) && !has_id(s, a.instance_id@)) ==> unique_ids(insert_desc_spec(s, a)),
{
    let p = insert_pos(s, a);
    lemma_insert_pos_props(s, a);
    s.insert_ensures(p, a);
    let t = insert_desc_spec(s, a);
    // Index mapping, spelled for the SMT solver once.
    assert forall|i: int| 0 <= i < t.len() implies #[trigger] t[i] == (if i < p {
        s[i]
    } else if i == p {
        a
    } else {
        s[i - 1]
    }) by {
        if i > p {
            assert(t[(i - 1) + 1] == s[i - 1]);
        }
    }
    if sorted_desc(s) {
        assert forall|i: int, j: int| 0 <= i < j < t.len() implies t[i].period >= t[j].period by {
            if i < p && j == p {
                assert(s[i].period >= a.period);
            } else if i == p && j > p {
                assert(s[p].period < a.period);
                assert(s[j - 1].period <= s[p].period);
            }
        }
    }
    assert forall|id: Seq<char>| has_id(s, id) || id == a.instance_id@ implies #[trigger] has_id(
        t,
        id,
    ) by {
        if id == a.instance_id@ {
            assert(t[p].instance_id@ == id);
        } else {
            let i = choose|i: int| 0 <= i < s.len() && #[trigger] s[i].instance_id@ == id;
            if i < p {
                assert(t[i].instance_id@ == id);
            } else {
                assert(t[i + 1].instance_id@ == id);
            }
        }
    }
    assert forall|id: Seq<char>|
        id_completed(s, id) || (id == a.instance_id@ && a.completed) implies #[trigger] id_completed(
        t,
        id,
    ) by {
        if id == a.instance_id@ && a.completed {
            assert(t[p].instance_id@ == id && t[p].completed);
        } else {
            let i = choose|i: int|
                0 <= i < s.len() && #[trigger] s[i].instance_id@ == id && s[i].completed;
            if i < p {
                assert(t[i].instance_id@ == id && t[i].completed);
            } else {
                assert(t[i + 1].instance_id@ == id && t[i + 1].completed);
            }
        }
    }
    assert forall|b: CompletedActivity| in_seq(b, s) || b == a implies #[trigger] in_seq(b, t) by {
        if b == a {
            assert(t[p] == b);
        } else {
            let i = choose|i: int| 0 <= i < s.len() && #[trigger] s[i] == b;
            if i < p {
                assert(t[i] == b);
            } else {
                assert(t[i + 1] == b);
            }
        }
    }
    if unique_ids(s) && !has_id(s, a.instance_id@) {
        assert forall|i: int, j: int|
            0 <= i < j < t.len() implies t[i].instance_id@ != t[j].instance_id@ by {
            if i == p {
                assert(t[j] == s[j - 1]);
                assert(!(s[j - 1].instance_id@ == a.instance_id@));
            } else if j == p {
                assert(t[i] == s[i]);
                assert(!(s[i].instance_id@ == a.instance_id@));
            }
        }
    }
}

/// The shape of a removal: membership and ids, for a list with unique ids.
proof fn lemma_remove_at(s: Seq<CompletedActivity>, j: int)
    requires
        0 <= j < s.len(),
        unique_ids(s),
    ensures
        unique_ids(s.remove(j)),
        sorted_desc(s) ==> sorted_desc(s.remove(j)),
        !has_id(s.remove(j), s[j].instance_id@),
        forall|id: Seq<char>|
            id != s[j].instance_id@ ==> (#[trigger] has_id(s.remove(j), id) <==> has_id(s, id)),
        forall|id: Seq<char>|
            id != s[j].instance_id@ ==> (#[trigger] id_completed(s.remove(j), id) <==> id_completed(
                s,
                id,
            )),
        forall|b: CompletedActivity| #[trigger] in_seq(b, s.remove(j)) ==> in_seq(b, s),
{
    s.remove_ensures(j);
    let t = s.remove(j);
    assert forall|i: int| 0 <= i < t.len() implies #[trigger] t[i] == (if i < j {
        s[i]
    } else {
        s[i + 1]
    }) by {}
    assert forall|id: Seq<char>| id != s[j].instance_id@ && has_id(s, id) implies #[trigger] has_id(
        t,
        id,
    ) by {
        let i = choose|i: int| 0 <= i < s.len() && #[trigger] s[i].instance_id@ == id;
        if i < j {
            assert(t[i].instance_id@ == id);
        } else {
            assert(t[i - 1].instance_id@ == id);
        }
    }
    assert forall|id: Seq<char>|
        id != s[j].instance_id@ && id_completed(s, id) implies #[trigger] id_completed(t, id) by {
        let i = choose|i: int|
            0 <= i < s.len() && #[trigger] s[i].instance_id@ == id && s[i].completed;
        if i < j {
            assert(t[i].instance_id@ == id && t[i].completed);
        } else {
            assert(t[i - 1].instance_id@ == id && t[i - 1].completed);
        }
    }
    assert forall|i: int| 0 <= i < t.len() implies t[i].instance_id@ != s[j].instance_id@ by {}
}

/// One fold step keeps the list canonical and accounts exactly for the new
/// observation's id and completed flag.
proof fn lemma_merge_step(out: Seq<CompletedActivity>, a: CompletedActivity)
    requires
        canonical(out),
    ensures
        canonical(merge_step(out, a)),
        forall|id: Seq<char>|
            #[trigger] has_id(merge_step(out, a), id) <==> (has_id(out, id) || id
                == a.instance_id@),
        forall|id: Seq<char>|
            #[trigger] id_completed(merge_step(out, a), id) <==> (id_completed(out, id) || (id
                == a.instance_id@ && a.completed)),
        forall|b: CompletedActivity|
            #[trigger] in_seq(b, merge_step(out, a)) ==> (in_seq(b, out) || b == a),
{
    let id = a.instance_id@;
    if has_id(out, id) {
        let j = find_id(out, id);
        let w = choose|i: int| 0 <= i < out.len() && #[trigger] out[i].instance_id@ == id;
        // With unique ids the witness is the unique occurrence, and find_id lands on it.
        assert forall|i: int| 0 <= i < w implies out[i].instance_id@ != id by {}
        lemma_find_id_char(out, id, w);
        assert(j == w);
        if !out[j].completed && a.completed {
            lemma_remove_at(out, j);
            lemma_insert_desc(out.remove(j), a);
            let t = merge_step(out, a);
            assert forall|id2: Seq<char>| #[trigger] id_completed(t, id2) <==> (id_completed(
                out,
                id2,
            ) || (id2 == id && a.completed)) by {
                if id2 == id {
                    if id_completed(out, id2) {
                        let i = choose|i: int|
                            0 <= i < out.len() && #[trigger] out[i].instance_id@ == id2
                                && out[i].completed;
                        assert(i == j);
                    }
                }
            }
        } else {
            // The observation is dropped; its flag adds nothing new.
            assert forall|id2: Seq<char>| #[trigger] id_completed(out, id2) <==> (id_completed(
                out,
                id2,
            ) || (id2 == id && a.completed)) by {
                if id2 == id && a.completed {
                    assert(out[j].instance_id@ == id2 && out[j].completed);
                }
            }
        }
    } else {
        lemma_insert_desc(out, a);
    }
}

/// The merge of any observation list is canonical: sorted by `period`
/// descending, one entry per `instance_id`.
pub proof fn lemma_merge_canonical(s: Seq<CompletedActivity>)
    ensures
        canonical(merge_spec(s)),
    decreases s.len(),
{
    if s.len() == 0 {
    } else {
        lemma_merge_canonical(s.drop_last());
        lemma_merge_step(merge_spec(s.drop_last()), s.last());
    }
}

/// The merge keeps exactly the `instance_id`s of its input, and an id's
/// retained flag is completed exactly when some observation of that id was
/// completed, regardless of arrival order. Every retained entry is one of the
/// observations.
pub proof fn lemma_merge_ids(s: Seq<CompletedActivity>)
    ensures
        forall|id: Seq<char>| #[trigger] has_id(merge_spec(s), id) <==> has_id(s, id),
        forall|id: Seq<char>| #[trigger] id_completed(merge_spec(s), id) <==> id_completed(s, id),
        forall|b: CompletedActivity| #[trigger] in_seq(b, merge_spec(s)) ==> in_seq(b, s),
    decreases s.len(),
{
    if s.len() == 0 {
    } else {
        let pre = s.drop_last();
        let a = s.last();
        lemma_merge_ids(pre);
        lemma_merge_canonical(pre);
        lemma_merge_step(merge_spec(pre), a);
        // Relate ids of s to ids of its prefix plus the last element.
        assert forall|id: Seq<char>| has_id(pre, id) || id == a.instance_id@ implies
            #[trigger] has_id(s, id) by {
            if id == a.instance_id@ {
                assert(s[s.len() - 1].instance_id@ == id);
            } else {
                let i = choose|i: int| 0 <= i < pre.len() && #[trigger] pre[i].instance_id@ == id;
                assert(s[i].instance_id@ == id);
            }
        }
        assert forall|id: Seq<char>| has_id(s, id) implies has_id(pre, id) || id
            == a.instance_id@ by {
            let i = choose|i: int| 0 <= i < s.len() && #[trigger] s[i].instance_id@ == id;
            if i < s.len() - 1 {
                assert(pre[i].instance_id@ == id);
            }
        }
        assert forall|id: Seq<char>|
            id_completed(pre, id) || (id == a.instance_id@ && a.completed) implies
            #[trigger] id_completed(s, id) by {
            if id == a.instance_id@ && a.completed {
                assert(s[s.len() - 1].instance_id@ == id && s[s.len() - 1].completed);
            } else {
                let i = choose|i: int|
                    0 <= i < pre.len() && #[trigger] pre[i].instance_id@ == id && pre[i].completed;
                assert(s[i].instance_id@ == id && s[i].completed);
            }
        }
        assert forall|id: Seq<char>| id_completed(s, id) implies id_completed(pre, id) || (id
            == a.instance_id@ && a.completed) by {
            let i = choose|i: int|
                0 <= i < s.len() && #[trigger] s[i].instance_id@ == id && s[i].completed;
            if i < s.len() - 1 {
                assert(pre[i].instance_id@ == id && pre[i].completed);
            }
        }
        assert forall|b: CompletedActivity| #[trigger] in_seq(b, merge_spec(s)) implies in_seq(
            b,
            s,
        ) by {
            if in_seq(b, merge_spec(pre)) {
                let i = choose|i: int|
                    0 <= i < merge_spec(pre).len() && #[trigger] merge_spec(pre)[i] == b;
                let k = choose|k: int| 0 <= k < pre.len() && #[trigger] pre[k] == b;
                assert(s[k] == b);
            } else {
                assert(b == a);
                assert(s[s.len() - 1] == b);
            }
        }
    }
}

/// A duplicate-free prefix of a descending list folds back to itself: the id
/// is fresh and the element belongs at the very end.
proof fn lemma_insert_pos_all_ge(s: Seq<CompletedActivity>, a: CompletedActivity)
    requires
        forall|i: int| 0 <= i < s.len() ==> s[i].period >= a.period,
    ensures
        insert_pos(s, a) == s.len(),
{
    lemma_insert_pos_char(s, a, s.len() as int);
}

/// Merging a list that is already canonical returns it unchanged.
pub proof fn lemma_merge_fixpoint(s: Seq<CompletedActivity>)
    requires
        canonical(s),
    ensures
        merge_spec(s) == s,
    decreases s.len(),
{
    if s.len() == 0 {
        assert(merge_spec(s) =~= s);
    } else {
        let pre = s.drop_last();
        let a = s.last();
        assert(canonical(pre));
        lemma_merge_fixpoint(pre);
        assert(!has_id(pre, a.instance_id@)) by {
            if has_id(pre, a.instance_id@) {
                let i = choose|i: int|
                    0 <= i < pre.len() && #[trigger] pre[i].instance_id@ == a.instance_id@;
                assert(s[i].instance_id@ == s[s.len() - 1].instance_id@);
            }
        }
        assert forall|i: int| 0 <= i < pre.len() implies pre[i].period >= a.period by {
            assert(s[i].period >= s[s.len() - 1].period);
        }
        lemma_insert_pos_all_ge(pre, a);
        assert(merge_step(pre, a) == pre.insert(pre.len() as int, a));
        pre.insert_ensures(pre.len() as int, a);
        assert(merge_spec(s) =~= s);
    }
}

/// The merge is idempotent: merging a merged list changes nothing.
pub proof fn lemma_merge_idempotent(s: Seq<CompletedActivity>)
    ensures
        merge_spec(merge_spec(s)) == merge_spec(s),
{
    lemma_merge_canonical(s);
    lemma_merge_fixpoint(merge_spec(s));
}

/// A merge never has more entries than it was given observations.
pub proof fn lemma_merge_len(s: Seq<CompletedActivity>)
    ensures
        merge_spec(s).len() <= s.len(),
    decreases s.len(),
{
    if s.len() == 0 {
    } else {
        lemma_merge_len(s.drop_last());
        lemma_merge_canonical(s.drop_last());
        let out = merge_spec(s.drop_last());
        let a = s.last();
        let id = a.instance_id@;
        if has_id(out, id) {
            let w = choose|i: int| 0 <= i < out.len() && #[trigger] out[i].instance_id@ == id;
            assert forall|i: int| 0 <= i < w implies out[i].instance_id@ != id by {}
            lemma_find_id_char(out, id, w);
            let j = find_id(out, id);
            if !out[j].completed && a.completed {
                out.remove_ensures(j);
                lemma_insert_desc(out.remove(j), a);
            }
        } else {
            lemma_insert_desc(out, a);
        }
    }
}

/// A duplicate sharing an `instance_id` with a completed observation never
/// wins over it: the single retained entry for an id is completed exactly
/// when some observation of that id was completed, whatever the arrival
/// order.
pub proof fn lemma_merge_prefers_completed(s: Seq<CompletedActivity>)
    ensures
        forall|i: int|
            0 <= i < merge_spec(s).len() ==> (#[trigger] merge_spec(s)[i].completed <==>
            id_completed(s, merge_spec(s)[i].instance_id@)),
{
    lemma_merge_canonical(s);
    lemma_merge_ids(s);
    let m = merge_spec(s);
    assert forall|i: int| 0 <= i < m.len() implies (#[trigger] m[i].completed <==> id_completed(
        s,
        m[i].instance_id@,
    )) by {
        let id = m[i].instance_id@;
        if m[i].completed {
            assert(m[i].instance_id@ == id && m[i].completed);
            assert(id_completed(m, id));
        } else {
            if id_completed(s, id) {
                assert(id_completed(m, id));
                let j = choose|j: int|
                    0 <= j < m.len() && #[trigger] m[j].instance_id@ == id && m[j].completed;
                // Unique ids force the completed witness to be entry i itself.
                assert(m[j].instance_id@ == m[i].instance_id@);
                assert(j == i);
            }
        }
    }
}

/// Insert one entry into a descending list at its sorted position.
fn insert_desc(out: &mut Vec<CompletedActivity>, a: CompletedActivity)
    ensures
        final(out)@ == insert_desc_spec(old(out)@, a),
{
    let mut p: usize = 0;
    while p < out.len() && out[p].period >= a.period
        invariant
            out@ == old(out)@,
            0 <= p <= out@.len(),
            forall|i: int| 0 <= i < p ==> out@[i].period >= a.period,
        decreases out@.len() - p,
    {
        p += 1;
    }
    proof {
        lemma_insert_pos_char(out@, a, p as int);
    }
    out.insert(p, a);
}

/// Find the first entry with this instance id; `out.len()` when absent.
fn find_by_id(out: &Vec<CompletedActivity>, id: &String) -> (p: usize)
    ensures
        p == find_id(out@, id@),
        p <= out@.len(),
        p < out@.len() ==> out@[p as int].instance_id@ == id@,
        p == out@.len() ==> !has_id(out@, id@),
{
    let mut p: usize = 0;
    while p < out.len() && !(out[p].instance_id == *id)
        invariant
            0 <= p <= out@.len(),
            forall|i: int| 0 <= i < p ==> out@[i].instance_id@ != id@,
        decreases out@.len() - p,
    {
        p += 1;
    }
    proof {
        if p < out@.len() {
            lemma_find_id_char(out@, id@, p as int);
        } else {
            lemma_find_id_char(out@, id@, p as int);
            if has_id(out@, id@) {
                let i = choose|i: int|
                    0 <= i < out@.len() && #[trigger] out@[i].instance_id@ == id@;
            }
        }
    }
    p
}

/// Fold one observation into a canonical list in place.
pub fn merge_one(out: &mut Vec<CompletedActivity>, a: CompletedActivity)
    requires
        canonical(old(out)@),
    ensures
        final(out)@ == merge_step(old(out)@, a),
        canonical(final(out)@),
{
    let j = find_by_id(out, &a.instance_id);
    let ghost out0 = out@;
    if j < out.len() {
        if !out[j].completed && a.completed {
            out.remove(j);
            insert_desc(out, a);
        }
    } else {
        insert_desc(out, a);
    }
    proof {
        assert(has_id(out0, a.instance_id@) ==> find_id(out0, a.instance_id@) == j);
        assert(out@ == merge_step(out0, a));
        lemma_merge_step(out0, a);
    }
}

/// Combine observed completed activities into one canonical list: one entry
/// per `instance_id`, preferring a completed duplicate, sorted by `period`
/// descending. Merging an already canonical list returns it unchanged, so the
/// operation is idempotent.
pub fn merge(activities: Vec<CompletedActivity>) -> (r: Vec<CompletedActivity>)
    ensures
        r@ == merge_spec(activities@),
        canonical(r@),
{
    let ghost orig = activities@;
    let mut rest = activities;
    let mut out: Vec<CompletedActivity> = Vec::new();
    let ghost mut k: int = 0;
    proof {
        assert(orig.take(0) =~= Seq::empty());
        assert(orig.skip(0) =~= orig);
    }
    while rest.len() > 0
        invariant
            0 <= k <= orig.len(),
            rest@ == orig.skip(k),
            out@ == merge_spec(orig.take(k)),
            canonical(out@),
        decreases rest@.len(),
    {
        let a = rest.remove(0);
        proof {
            assert(orig.skip(k)[0] == orig[k]);
            assert(orig.skip(k).remove(0) =~= orig.skip(k + 1));
        }
        merge_one(&mut out, a);
        proof {
            assert(orig.take(k + 1).drop_last() =~= orig.take(k));
            assert(orig.take(k + 1).last() == orig[k]);
            assert(out@ == merge_spec(orig.take(k + 1)));
            k = k + 1;
        }
    }
    proof {
        assert(orig.take(k) =~= orig);
    }
    out
}

/// Keep one entry per `instance_id`, in order of first occurrence; a later
/// duplicate replaces the kept entry only when it upgrades `completed` from
/// false to true.
pub open spec fn dedup_step(out: Seq<CompletedActivity>, a: CompletedActivity) -> Seq<
    CompletedActivity,
> {
    if has_id(out, a.instance_id@) {
        let j = find_id(out, a.instance_id@);
        if !out[j].completed && a.completed {
            out.update(j, a)
        } else {
            out
        }
    } else {
        out.push(a)
    }
}

/// The deduplication of a list, folded left to right.
pub open spec fn dedup_spec(s: Seq<CompletedActivity>) -> Seq<CompletedActivity>
    decreases s.len(),
{
    if s.len() == 0 {
        Seq::empty()
    } else {
        dedup_step(dedup_spec(s.drop_last()), s.last())
    }
}

proof fn lemma_dedup_step_unique(out: Seq<CompletedActivity>, a: CompletedActivity)
    requires
        unique_ids(out),
    ensures
        unique_ids(dedup_step(out, a)),
{
    let id = a.instance_id@;
    if has_id(out, id) {
        let j = find_id(out, id);
        let w = choose|i: int| 0 <= i < out.len() && #[trigger] out[i].instance_id@ == id;
        assert forall|i: int| 0 <= i < w implies out[i].instance_id@ != id by {}
        lemma_find_id_char(out, id, w);
        if !out[j].completed && a.completed {
            let t = out.update(j, a);
            assert forall|i: int, i2: int|
                0 <= i < i2 < t.len() implies t[i].instance_id@ != t[i2].instance_id@ by {
                assert(t[i] == if i == j {
                    a
                } else {
                    out[i]
                });
                assert(t[i2] == if i2 == j {
                    a
                } else {
                    out[i2]
                });
            }
        }
    } else {
        let t = out.push(a);
        assert forall|i: int, i2: int|
            0 <= i < i2 < t.len() implies t[i].instance_id@ != t[i2].instance_id@ by {
            if i2 == t.len() - 1 {
                assert(t[i] == out[i]);
                assert(t[i2] == a);
            } else {
                assert(t[i] == out[i] && t[i2] == out[i2]);
            }
        }
    }
}

/// Deduplication keeps ids unique.
pub proof fn lemma_dedup_unique(s: Seq<CompletedActivity>)
    ensures
        unique_ids(dedup_spec(s)),
    decreases s.len(),
{
    if s.len() == 0 {
    } else {
        lemma_dedup_unique(s.drop_last());
        lemma_dedup_step_unique(dedup_spec(s.drop_last()), s.last());
    }
}

/// Keep one entry per `instance_id`, preserving the position of the first
/// occurrence; a completed duplicate replaces an incomplete kept entry.
pub fn dedup_activities_prioritizing_completed(activities: Vec<CompletedActivity>) -> (r: Vec<
    CompletedActivity,
>)
    ensures
        r@ == dedup_spec(activities@),
        unique_ids(r@),
{
    let ghost orig = activities@;
    let mut rest = activities;
    let mut out: Vec<CompletedActivity> = Vec::new();
    let ghost mut k: int = 0;
    proof {
        assert(orig.take(0) =~= Seq::empty());
        assert(orig.skip(0) =~= orig);
        lemma_dedup_unique(orig.take(0));
    }
    while rest.len() > 0
        invariant
            0 <= k <= orig.len(),
            rest@ == orig.skip(k),
            out@ == dedup_spec(orig.take(k)),
            unique_ids(out@),
        decreases rest@.len(),
    {
        let a = rest.remove(0);
        proof {
            assert(orig.skip(k)[0] == orig[k]);
            assert(orig.skip(k).remove(0) =~= orig.skip(k + 1));
        }
        let j = find_by_id(&out, &a.instance_id);
        let ghost out0 = out@;
        if j < out.len() {
            if !out[j].completed && a.completed {
                out[j] = a;
            }
        } else {
            out.push(a);
        }
        proof {
            assert(out@ == dedup_step(out0, a));
            assert(orig.take(k + 1).drop_last() =~= orig.take(k));
            assert(orig.take(k + 1).last() == orig[k]);
            lemma_dedup_step_unique(out0, a);
            k = k + 1;
        }
    }
    proof {
        assert(orig.take(k) =~= orig);
    }
    out
}

} // verus!
