//! Reference semantics of the hosted row store, as far as the service
//! relies on them: rows keyed by unique identifiers, inserts append,
//! lookups filter, the owner-scoped listing comes newest first, updates
//! rewrite matching rows in place and deletes return what they removed.
//! The service talks to the real store over its REST API; this model is
//! what the handlers' contracts mean by it, and it stands in for the store
//! wherever the logic is exercised without a network.

use vstd::prelude::*;

use crate::models::TaskModel;
use crate::models::TaskView;
use crate::schemas::UpdateTaskSchema;
use crate::schemas::UpdateTaskSchemaView;

verus! {

broadcast use vstd::seq_lib::group_filter_ensures, vstd::seq_lib::group_to_multiset_ensures;

/// No two rows share an identifier.
pub open spec fn distinct_ids(rows: Seq<TaskView>) -> bool {
    forall|i: int, j: int| 0 <= i < j < rows.len() ==> rows[i].id != rows[j].id
}

/// The rows owned by `owner`, in store order.
pub open spec fn owned_tasks(rows: Seq<TaskView>, owner: u128) -> Seq<TaskView> {
    rows.filter(|t: TaskView| t.user_id == owner)
}

/// The rows carrying identifier `id`, in store order.
pub open spec fn tasks_with_id(rows: Seq<TaskView>, id: u128) -> Seq<TaskView> {
    rows.filter(|t: TaskView| t.id == id)
}

/// Newest first: creation times never increase along the sequence.
pub open spec fn sorted_newest_first(rows: Seq<TaskView>) -> bool {
    forall|i: int, j: int| 0 <= i < j < rows.len() ==> rows[i].created_at >= rows[j].created_at
}

/// A row after an update wrote `s` over it: the writable fields from `s`,
/// identity, owner and creation time untouched.
pub open spec fn spec_written(t: TaskView, s: UpdateTaskSchemaView) -> TaskView {
    TaskView {
        id: t.id,
        title: s.title,
        description: s.description,
        completed: s.completed,
        user_id: t.user_id,
        created_at: t.created_at,
    }
}

/// The rows an update of `id` with `s` hands back: the matching rows,
/// rewritten.
pub open spec fn updated_rows(rows: Seq<TaskView>, id: u128, s: UpdateTaskSchemaView) -> Seq<
    TaskView,
> {
    tasks_with_id(rows, id).map_values(|t: TaskView| spec_written(t, s))
}

/// The whole store after an update of `id` with `s`: matching rows
/// rewritten, all others exactly as they were.
pub open spec fn store_after_update(
    rows: Seq<TaskView>,
    id: u128,
    s: UpdateTaskSchemaView,
) -> Seq<TaskView> {
    rows.map_values(
        |t: TaskView|
            if t.id == id {
                spec_written(t, s)
            } else {
                t
            },
    )
}

/// Filtering never brings two rows with one identifier together.
proof fn lemma_filter_keeps_distinct_ids(rows: Seq<TaskView>, pred: spec_fn(TaskView) -> bool)
    requires
        distinct_ids(rows),
    ensures
        distinct_ids(rows.filter(pred)),
    decreases rows.len(),
{
    reveal(Seq::filter);
    if rows.len() > 0 {
        let rest = rows.drop_last();
        assert(distinct_ids(rest)) by {
            assert(forall|i: int| 0 <= i < rest.len() ==> rest[i] == rows[i]);
        }
        lemma_filter_keeps_distinct_ids(rest, pred);
        if pred(rows.last()) {
            let out = rows.filter(pred);
            assert(out == rest.filter(pred).push(rows.last()));
            assert forall|i: int, j: int| 0 <= i < j < out.len() implies out[i].id != out[j].id by {
                if j == out.len() - 1 {
                    let x = rest.filter(pred)[i];
                    rest.lemma_filter_contains_rev(pred, x);
                    assert(rest.filter(pred).contains(x));
                    assert(rest.contains(x));
                    let k = choose|k: int| 0 <= k < rest.len() && rest[k] == x;
                    assert(rows[k] == x);
                    assert(rows[k].id != rows[rows.len() - 1].id);
                }
            }
        }
    }
}

/// The store: task rows with pairwise distinct identifiers.
pub struct TaskStore {
    tasks: Vec<TaskModel>,
}

impl View for TaskStore {
    type V = Seq<TaskView>;

    closed spec fn view(&self) -> Seq<TaskView> {
        self.tasks.deep_view()
    }
}

impl TaskStore {
    /// The store's invariant: identifiers are unique.
    pub open spec fn wf(self) -> bool {
        distinct_ids(self@)
    }

    /// An empty store.
    pub fn new() -> (s: TaskStore)
        ensures
            s@ == Seq::<TaskView>::empty(),
            s.wf(),
    {
        let s = TaskStore { tasks: Vec::new() };
        proof {
            assert(s@ =~= Seq::<TaskView>::empty());
        }
        s
    }

    /// Inserts a row under a fresh identifier; everything already there
    /// stays, the new row comes last.
    pub fn insert(&mut self, t: TaskModel)
        requires
            old(self).wf(),
            forall|i: int| 0 <= i < old(self)@.len() ==> old(self)@[i].id != t.id,
        ensures
            final(self)@ == old(self)@.push(t@),
            final(self).wf(),
    {
        self.tasks.push(t);
        proof {
            assert(self@ =~= old(self)@.push(t@));
        }
    }

    /// The rows carrying `id`, each copied out, in store order.
    pub fn select_by_id(&self, id: u128) -> (r: Vec<TaskModel>)
        ensures
            r.deep_view() == tasks_with_id(self@, id),
    {
        let n = self.tasks.len();
        let mut r: Vec<TaskModel> = Vec::new();
        let mut i: usize = 0;
        while i < n
            invariant
                n == self.tasks@.len(),
                i <= n,
                r.deep_view() =~= tasks_with_id(self@.subrange(0, i as int), id),
            decreases n - i,
        {
            proof {
                let prefix = self@.subrange(0, i as int);
                assert(self@.subrange(0, i as int + 1) =~= prefix.push(self@[i as int]));
                prefix.lemma_filter_push(self@[i as int], |t: TaskView| t.id == id);
            }
            let t = &self.tasks[i];
            if t.id == id {
                r.push(t.duplicate());
            }
            proof {
                assert(r.deep_view() =~= tasks_with_id(self@.subrange(0, i as int + 1), id));
            }
            i += 1;
        }
        proof {
            assert(self@.subrange(0, n as int) =~= self@);
        }
        r
    }

    /// The rows owned by `owner`, newest first: the result holds exactly
    /// the store's rows with that owner — as a multiset, since ordering is
    /// this function's own work — and creation times never increase along
    /// it.
    pub fn list_owned(&self, owner: u128) -> (r: Vec<TaskModel>)
        ensures
            r.deep_view().to_multiset() == owned_tasks(self@, owner).to_multiset(),
            sorted_newest_first(r.deep_view()),
    {
        let n = self.tasks.len();
        let mut matched: Vec<TaskModel> = Vec::new();
        let mut i: usize = 0;
        while i < n
            invariant
                n == self.tasks@.len(),
                i <= n,
                matched.deep_view() =~= owned_tasks(self@.subrange(0, i as int), owner),
            decreases n - i,
        {
            proof {
                let prefix = self@.subrange(0, i as int);
                assert(self@.subrange(0, i as int + 1) =~= prefix.push(self@[i as int]));
                prefix.lemma_filter_push(self@[i as int], |t: TaskView| t.user_id == owner);
            }
            let t = &self.tasks[i];
            if t.user_id == owner {
                matched.push(t.duplicate());
            }
            proof {
                assert(matched.deep_view() =~= owned_tasks(
                    self@.subrange(0, i as int + 1),
                    owner,
                ));
            }
            i += 1;
        }
        proof {
            assert(self@.subrange(0, n as int) =~= self@);
        }
        let m = matched.len();
        let mut out: Vec<TaskModel> = Vec::new();
        let mut j: usize = 0;
        while j < m
            invariant
                m == matched@.len(),
                j <= m,
                out.deep_view().to_multiset() == matched.deep_view().subrange(
                    0,
                    j as int,
                ).to_multiset(),
                sorted_newest_first(out.deep_view()),
            decreases m - j,
        {
            let t = (&matched[j]).duplicate();
            let ghost out_before = out.deep_view();
            let mut k: usize = 0;
            while k < out.len() && out[k].created_at >= t.created_at
                invariant
                    k <= out@.len(),
                    out.deep_view() == out_before,
                    forall|q: int| 0 <= q < k ==> out_before[q].created_at >= t@.created_at,
                decreases out@.len() - k,
            {
                k += 1;
            }
            let ghost cut = k as int;
            out.insert(k, t);
            proof {
                assert(out.deep_view() =~= out_before.insert(cut, t@));
                assert(out_before.insert(cut, t@).to_multiset() =~= out_before.to_multiset(
                ).insert(t@));
                assert(matched.deep_view()[j as int] == t@);
                assert(matched.deep_view().subrange(0, j as int + 1) =~= matched.deep_view(
                ).subrange(0, j as int).push(t@));
                assert(matched.deep_view().subrange(0, j as int).push(t@).to_multiset()
                    =~= matched.deep_view().subrange(0, j as int).to_multiset().insert(t@));
                let s = out.deep_view();
                assert forall|p: int, q: int|
                    0 <= p < q < s.len() implies s[p].created_at >= s[q].created_at by {
                    if q < cut {
                        assert(s[p] == out_before[p] && s[q] == out_before[q]);
                    } else if q == cut {
                        assert(s[p] == out_before[p] && s[q] == t@);
                    } else if p < cut {
                        assert(s[p] == out_before[p] && s[q] == out_before[q - 1]);
                    } else if p == cut {
                        assert(s[p] == t@ && s[q] == out_before[q - 1]);
                        assert(cut < out_before.len() && out_before[cut].created_at
                            < t@.created_at);
                        assert(out_before[cut].created_at >= out_before[q - 1].created_at);
                    } else {
                        assert(s[p] == out_before[p - 1] && s[q] == out_before[q - 1]);
                    }
                }
            }
            j += 1;
        }
        proof {
            assert(matched.deep_view().subrange(0, m as int) =~= matched.deep_view());
        }
        out
    }

    /// Updates every row carrying `id` — with unique identifiers, the one —
    /// by writing `schema` over its writable fields; every other row stays
    /// exactly as it was. Returns the rewritten rows, as the store's REST
    /// API does, so no row back means no row had that identifier.
    pub fn update(&mut self, id: u128, schema: &UpdateTaskSchema) -> (updated: Vec<TaskModel>)
        requires
            old(self).wf(),
        ensures
            final(self)@ == store_after_update(old(self)@, id, schema@),
            updated.deep_view() == updated_rows(old(self)@, id, schema@),
            final(self).wf(),
    {
        let ghost orig = self@;
        let n = self.tasks.len();
        let mut kept: Vec<TaskModel> = Vec::new();
        let mut updated: Vec<TaskModel> = Vec::new();
        let mut i: usize = 0;
        while i < n
            invariant
                n == self.tasks@.len(),
                orig == self@,
                i <= n,
                kept.deep_view() =~= store_after_update(orig.subrange(0, i as int), id, schema@),
                updated.deep_view() =~= updated_rows(orig.subrange(0, i as int), id, schema@),
            decreases n - i,
        {
            proof {
                let prefix = orig.subrange(0, i as int);
                assert(orig.subrange(0, i as int + 1) =~= prefix.push(orig[i as int]));
                prefix.lemma_filter_push(orig[i as int], |t: TaskView| t.id == id);
            }
            let t = &self.tasks[i];
            if t.id == id {
                let merged = TaskModel {
                    id: t.id,
                    title: schema.title.clone(),
                    description: schema.description.clone(),
                    completed: schema.completed,
                    user_id: t.user_id,
                    created_at: t.created_at,
                };
                proof {
                    assert(merged@ == spec_written(orig[i as int], schema@));
                }
                updated.push(merged.duplicate());
                kept.push(merged);
            } else {
                kept.push(t.duplicate());
            }
            proof {
                let after = orig.subrange(0, i as int + 1);
                let prefix = orig.subrange(0, i as int);
                let sau = store_after_update(after, id, schema@);
                assert(sau.len() == i + 1);
                assert(store_after_update(prefix, id, schema@).len() == i);
                assert(kept@.len() == i + 1);
                assert(kept.deep_view().len() == i + 1);
                assert forall|idx: int| 0 <= idx < i + 1 implies kept.deep_view()[idx] == sau[idx]
                    by {
                    if idx < i {
                        assert(kept.deep_view()[idx] == store_after_update(prefix, id, schema@)[idx]);
                        assert(after[idx] == prefix[idx]);
                    } else {
                        assert(after[idx] == orig[i as int]);
                    }
                }
                assert(kept.deep_view() =~= sau);
                let ur = updated_rows(after, id, schema@);
                let x = orig[i as int];
                assert(after == prefix.push(x));
                assert(tasks_with_id(after, id) == if x.id == id {
                    tasks_with_id(prefix, id).push(x)
                } else {
                    tasks_with_id(prefix, id)
                });
                let before_len = tasks_with_id(prefix, id).len();
                assert(updated_rows(prefix, id, schema@).len() == before_len);
                assert forall|idx: int| 0 <= idx < ur.len() implies updated.deep_view()[idx]
                    == ur[idx] by {
                    if idx < before_len {
                        assert(updated.deep_view()[idx] == updated_rows(prefix, id, schema@)[idx]);
                        assert(tasks_with_id(after, id)[idx] == tasks_with_id(prefix, id)[idx]);
                    } else {
                        assert(tasks_with_id(after, id)[idx] == x);
                    }
                }
                assert(updated.deep_view() =~= ur);
            }
            i += 1;
        }
        self.tasks = kept;
        proof {
            assert(orig.subrange(0, n as int) =~= orig);
            assert(self@ == store_after_update(orig, id, schema@));
            assert forall|p: int, q: int|
                0 <= p < q < self@.len() implies self@[p].id != self@[q].id by {
                assert(self@[p].id == orig[p].id && self@[q].id == orig[q].id);
            }
        }
        updated
    }

    /// Deletes every row carrying `id` — with unique identifiers, at most
    /// one — and returns the removed rows, as the store's REST API does, so
    /// no row back means no row had that identifier. The rows that stay
    /// keep their order.
    pub fn delete(&mut self, id: u128) -> (removed: Vec<TaskModel>)
        requires
            old(self).wf(),
        ensures
            final(self)@ == old(self)@.filter(|t: TaskView| t.id != id),
            removed.deep_view() == tasks_with_id(old(self)@, id),
            final(self).wf(),
    {
        let ghost orig = self@;
        let n = self.tasks.len();
        let mut kept: Vec<TaskModel> = Vec::new();
        let mut removed: Vec<TaskModel> = Vec::new();
        let mut i: usize = 0;
        while i < n
            invariant
                n == self.tasks@.len(),
                orig == self@,
                i <= n,
                kept.deep_view() =~= orig.subrange(0, i as int).filter(|t: TaskView| t.id != id),
                removed.deep_view() =~= tasks_with_id(orig.subrange(0, i as int), id),
            decreases n - i,
        {
            proof {
                let prefix = orig.subrange(0, i as int);
                assert(orig.subrange(0, i as int + 1) =~= prefix.push(orig[i as int]));
                prefix.lemma_filter_push(orig[i as int], |t: TaskView| t.id == id);
                prefix.lemma_filter_push(orig[i as int], |t: TaskView| t.id != id);
            }
            let t = &self.tasks[i];
            if t.id == id {
                removed.push(t.duplicate());
            } else {
                kept.push(t.duplicate());
            }
            proof {
                assert(kept.deep_view() =~= orig.subrange(0, i as int + 1).filter(
                    |t: TaskView| t.id != id,
                ));
                assert(removed.deep_view() =~= tasks_with_id(orig.subrange(0, i as int + 1), id));
            }
            i += 1;
        }
        self.tasks = kept;
        proof {
            assert(orig.subrange(0, n as int) =~= orig);
            lemma_filter_keeps_distinct_ids(orig, |t: TaskView| t.id != id);
        }
        removed
    }
}

/// Owner scoping: a task created for `u` turns up in `u`'s listing exactly
/// once and in no other user's listing. The listing function's contract
/// carries this to what clients see: its result holds the owner's rows as
/// a multiset, so the fresh task's count there is exactly one for the
/// owner and zero for anyone else.
pub proof fn lemma_owner_scoping(rows: Seq<TaskView>, t: TaskView, u: u128, v: u128)
    requires
        t.user_id == u,
        u != v,
        !rows.contains(t),
    ensures
        owned_tasks(rows.push(t), u).to_multiset().count(t) == 1,
        owned_tasks(rows.push(t), v).to_multiset().count(t) == 0,
{
    let pu = |x: TaskView| x.user_id == u;
    let pv = |x: TaskView| x.user_id == v;
    rows.lemma_filter_push(t, pu);
    rows.lemma_filter_push(t, pv);
    assert(rows.push(t).filter(pu) == rows.filter(pu).push(t));
    assert(rows.push(t).filter(pv) == rows.filter(pv));
    if rows.filter(pu).contains(t) {
        rows.lemma_filter_contains_rev(pu, t);
    }
    assert(!rows.filter(pu).contains(t));
    assert(rows.filter(pu).to_multiset().count(t) == 0);
    assert(rows.filter(pu).push(t).to_multiset() =~= rows.filter(pu).to_multiset().insert(t));
    if rows.filter(pv).contains(t) {
        rows.lemma_filter_contains_rev(pv, t);
    }
    assert(!rows.filter(pv).contains(t));
    assert(rows.filter(pv).to_multiset().count(t) == 0);
}

/// Deleting twice: the first deletion removes every row with the
/// identifier, so the second finds none and is owed the not-found answer,
/// exactly as a deletion of an identifier that never existed is.
pub proof fn lemma_delete_twice(rows: Seq<TaskView>, id: u128)
    ensures
        tasks_with_id(rows.filter(|t: TaskView| t.id != id), id) == Seq::<TaskView>::empty(),
{
    let remaining = rows.filter(|t: TaskView| t.id != id);
    assert(remaining.all(|t: TaskView| !(t.id == id))) by {
        assert forall|i: int| 0 <= i < remaining.len() implies !(remaining[i].id == id) by {
            assert(remaining[i].id != id);
        }
    }
    remaining.lemma_all_neg_filter_empty(|t: TaskView| t.id == id);
    assert(tasks_with_id(remaining, id) =~= Seq::<TaskView>::empty());
}

} // verus!
