//! Laws of the task store, stated over its model and proved.
use vstd::prelude::*;
use crate::task_manager::{
    Category, Criterion, Priority, Statistics, Status, StoreView, Task, TaskError, TaskView, completed,
    count, lemma_index_of, new_task, selector, views_of,
};

verus! {

/// Adding a task keeps the store well formed.
proof fn lemma_add_wf(s: StoreView, title: Seq<char>, p: Priority, c: Category)
    requires
        s.wf(),
        s.next_id < u32::MAX,
    ensures
        s.add(title, p, c).0.wf(),
{
}

/// Completing a task keeps the store well formed.
proof fn lemma_complete_wf(s: StoreView, id: u32)
    requires
        s.wf(),
    ensures
        s.complete(id).0.wf(),
        s.complete(id).0.next_id == s.next_id,
        s.complete(id).0.tasks.len() == s.tasks.len(),
        forall|k: int|
            0 <= k < s.tasks.len() ==> #[trigger] s.complete(id).0.tasks[k].id == s.tasks[k].id,
{
    if s.contains(id) {
        let s1 = s.complete(id).0;
        assert forall|k: int| 0 <= k < s1.tasks.len() implies #[trigger] s1.tasks[k].id
            == s.tasks[k].id by {}
    }
}

/// Deleting a task keeps the store well formed.
proof fn lemma_delete_wf(s: StoreView, id: u32)
    requires
        s.wf(),
    ensures
        s.delete(id).wf(),
        s.delete(id).next_id == s.next_id,
        s.contains(id) ==> forall|k: int|
            0 <= k < s.delete(id).tasks.len() ==> #[trigger] s.delete(id).tasks[k] == if k < s.index_of(
                id,
            ) {
                s.tasks[k]
            } else {
                s.tasks[k + 1]
            },
{
    if s.contains(id) {
        let i = s.index_of(id);
        let s1 = s.delete(id);
        assert forall|k: int| 0 <= k < s1.tasks.len() implies #[trigger] s1.tasks[k] == if k < i {
            s.tasks[k]
        } else {
            s.tasks[k + 1]
        } by {}
    }
}

/// The store after adding each of `items` in turn, with the identifiers that
/// the additions returned.
pub open spec fn add_all(s: StoreView, items: Seq<(Seq<char>, Priority, Category)>) -> (
    StoreView,
    Seq<u32>,
)
    decreases items.len(),
{
    if items.len() == 0 {
        (s, Seq::empty())
    } else {
        let (s1, ids) = add_all(s, items.drop_last());
        let item = items.last();
        let (s2, id) = s1.add(item.0, item.1, item.2);
        (s2, ids.push(id))
    }
}

/// Over any sequence of additions the returned identifiers are consecutive,
/// hence strictly increasing, unique, and new to the store.
pub proof fn lemma_add_ids_increase(s: StoreView, items: Seq<(Seq<char>, Priority, Category)>)
    requires
        s.wf(),
        s.next_id + items.len() <= u32::MAX,
    ensures
        add_all(s, items).0.wf(),
        add_all(s, items).0.next_id == s.next_id + items.len(),
        add_all(s, items).1.len() == items.len(),
        forall|i: int|
            0 <= i < items.len() ==> #[trigger] add_all(s, items).1[i] == s.next_id + i,
        forall|i: int, j: int|
            0 <= i < j < items.len() ==> add_all(s, items).1[i] < add_all(s, items).1[j],
        forall|i: int| 0 <= i < items.len() ==> !s.contains(#[trigger] add_all(s, items).1[i]),
    decreases items.len(),
{
    if items.len() > 0 {
        lemma_add_ids_increase(s, items.drop_last());
        let (s1, ids) = add_all(s, items.drop_last());
        let item = items.last();
        lemma_add_wf(s1, item.0, item.1, item.2);
    }
    let ids = add_all(s, items).1;
    assert forall|i: int| 0 <= i < items.len() implies !s.contains(#[trigger] ids[i]) by {
        if s.contains(ids[i]) {
            let k = s.index_of(ids[i]);
            assert(s.tasks[k].id < s.next_id);
        }
    }
}

/// Looking up the identifier that `add` returned gives the new task: pending,
/// with the title, priority and category supplied.
pub proof fn lemma_get_after_add(s: StoreView, title: Seq<char>, p: Priority, c: Category)
    requires
        s.wf(),
        s.next_id < u32::MAX,
    ensures
        ({
            let (s1, id) = s.add(title, p, c);
            s1.lookup(id) == Some(new_task(id, title, p, c))
        }),
{
    let (s1, id) = s.add(title, p, c);
    lemma_add_wf(s, title, p, c);
    lemma_index_of(s1, s.tasks.len() as int);
}

/// Completing a task that is not yet completed succeeds, and the task is then
/// found completed.
pub proof fn lemma_complete_then_get(s: StoreView, id: u32)
    requires
        s.wf(),
        s.contains(id),
        s.lookup(id).unwrap().status != Status::Completed,
    ensures
        s.complete(id).1 == Ok::<(), TaskError>(()),
        s.complete(id).0.lookup(id) == Some(completed(s.lookup(id).unwrap())),
        s.complete(id).0.lookup(id).unwrap().status == Status::Completed,
{
    let i = s.index_of(id);
    lemma_complete_wf(s, id);
    lemma_index_of(s.complete(id).0, i);
}

/// Completing the same task twice: the first call succeeds, the second is
/// refused as already completed.
pub proof fn lemma_complete_twice(s: StoreView, id: u32)
    requires
        s.wf(),
        s.contains(id),
        s.lookup(id).unwrap().status != Status::Completed,
    ensures
        s.complete(id).1 == Ok::<(), TaskError>(()),
        s.complete(id).0.complete(id).1 == Err::<(), TaskError>(TaskError::AlreadyCompleted(id)),
{
    lemma_complete_then_get(s, id);
}

/// After a task is deleted it is not found, and completing or deleting it
/// again is refused as not found.
pub proof fn lemma_delete_then_missing(s: StoreView, id: u32)
    requires
        s.wf(),
        s.contains(id),
    ensures
        s.delete(id).lookup(id) == None::<TaskView>,
        s.delete(id).complete(id).1 == Err::<(), TaskError>(TaskError::NotFound(id)),
        s.delete(id).delete(id) == s.delete(id),
{
    let i = s.index_of(id);
    let s1 = s.delete(id);
    lemma_delete_wf(s, id);
    if s1.contains(id) {
        let k = s1.index_of(id);
        if k < i {
            assert(s1.tasks[k] == s.tasks[k]);
            assert(s.tasks[k].id < s.tasks[i].id);
        } else {
            assert(s1.tasks[k] == s.tasks[k + 1]);
            assert(s.tasks[i].id < s.tasks[k + 1].id);
        }
    }
}

/// An identifier that was deleted is not handed out again by a later addition.
pub proof fn lemma_deleted_id_not_reused(
    s: StoreView,
    id: u32,
    title: Seq<char>,
    p: Priority,
    c: Category,
)
    requires
        s.wf(),
        s.contains(id),
        s.next_id < u32::MAX,
    ensures
        s.delete(id).add(title, p, c).1 != id,
{
    let k = s.index_of(id);
    assert(s.tasks[k].id < s.next_id);
}

/// One call on the store, as its model sees it.
pub enum StoreOp {
    Add(Seq<char>, Priority, Category),
    Complete(u32),
    Delete(u32),
}

/// The store after one call. An addition once identifiers have run out is a
/// call that `add_task` does not admit; it leaves the store as it was.
pub open spec fn apply(s: StoreView, op: StoreOp) -> StoreView {
    match op {
        StoreOp::Add(title, p, c) => if s.next_id < u32::MAX {
            s.add(title, p, c).0
        } else {
            s
        },
        StoreOp::Complete(id) => s.complete(id).0,
        StoreOp::Delete(id) => s.delete(id),
    }
}

/// The store after each of `ops` in turn.
pub open spec fn apply_all(s: StoreView, ops: Seq<StoreOp>) -> StoreView
    decreases ops.len(),
{
    if ops.len() == 0 {
        s
    } else {
        apply(apply_all(s, ops.drop_last()), ops.last())
    }
}

/// One call keeps the store well formed and keeps out an identifier that is
/// absent and already handed out.
proof fn lemma_apply_keeps_missing(s: StoreView, id: u32, op: StoreOp)
    requires
        s.wf(),
        !s.contains(id),
        id < s.next_id,
    ensures
        apply(s, op).wf(),
        !apply(s, op).contains(id),
        id < apply(s, op).next_id,
{
    let s1 = apply(s, op);
    match op {
        StoreOp::Add(title, p, c) => {
            if s.next_id < u32::MAX {
                lemma_add_wf(s, title, p, c);
                if s1.contains(id) {
                    let k = s1.index_of(id);
                    if k < s.tasks.len() {
                        assert(s.tasks[k] == s1.tasks[k]);
                    }
                }
            }
        },
        StoreOp::Complete(other) => {
            lemma_complete_wf(s, other);
            if s1.contains(id) {
                let k = s1.index_of(id);
                assert(s1.tasks[k].id == s.tasks[k].id);
            }
        },
        StoreOp::Delete(other) => {
            lemma_delete_wf(s, other);
            if s1.contains(id) {
                let k = s1.index_of(id);
                let i = s.index_of(other);
                if k < i {
                    assert(s1.tasks[k] == s.tasks[k]);
                } else {
                    assert(s1.tasks[k] == s.tasks[k + 1]);
                }
            }
        },
    }
}

proof fn lemma_apply_all_keeps_missing(s: StoreView, id: u32, ops: Seq<StoreOp>)
    requires
        s.wf(),
        !s.contains(id),
        id < s.next_id,
    ensures
        apply_all(s, ops).wf(),
        !apply_all(s, ops).contains(id),
        id < apply_all(s, ops).next_id,
    decreases ops.len(),
{
    if ops.len() > 0 {
        lemma_apply_all_keeps_missing(s, id, ops.drop_last());
        lemma_apply_keeps_missing(apply_all(s, ops.drop_last()), id, ops.last());
    }
}

/// Once a task is deleted, whatever calls follow, it is not found, and
/// completing or deleting it is refused as not found and changes nothing.
pub proof fn lemma_deleted_stays_missing(s: StoreView, id: u32, ops: Seq<StoreOp>)
    requires
        s.wf(),
        s.contains(id),
    ensures
        apply_all(s.delete(id), ops).lookup(id) == None::<TaskView>,
        apply_all(s.delete(id), ops).complete(id) == (
            apply_all(s.delete(id), ops),
            Err::<(), TaskError>(TaskError::NotFound(id)),
        ),
        apply_all(s.delete(id), ops).delete(id) == apply_all(s.delete(id), ops),
{
    lemma_delete_then_missing(s, id);
    lemma_delete_wf(s, id);
    let k = s.index_of(id);
    assert(s.tasks[k].id < s.next_id);
    assert(!s.delete(id).contains(id));
    lemma_apply_all_keeps_missing(s.delete(id), id, ops);
}

/// Filtering by a criterion keeps exactly the stored tasks that it selects.
pub proof fn lemma_filter_exact<C: Criterion>(tasks: Seq<TaskView>, c: C)
    ensures
        forall|t: TaskView|
            #[trigger] tasks.filter(selector(c)).contains(t) <==> tasks.contains(t) && c.selects(t),
{
    broadcast use vstd::seq_lib::group_filter_ensures;

    assert forall|t: TaskView| #[trigger] tasks.filter(selector(c)).contains(t) implies tasks.contains(t)
        && c.selects(t) by {
        tasks.lemma_filter_contains_rev(selector(c), t);
        let k = choose|k: int| 0 <= k < tasks.filter(selector(c)).len() && tasks.filter(selector(c))[k] == t;
        tasks.lemma_filter_pred(selector(c), k);
    }
    assert forall|t: TaskView| tasks.contains(t) && c.selects(t) implies #[trigger] tasks.filter(
        selector(c),
    ).contains(t) by {
        let k = choose|k: int| 0 <= k < tasks.len() && tasks[k] == t;
        tasks.lemma_filter_contains(selector(c), k);
    }
}

/// Every task has exactly one of the three statuses.
proof fn lemma_status_counts(tasks: Seq<TaskView>)
    ensures
        count(tasks, Status::Completed) + count(tasks, Status::Pending) + count(
            tasks,
            Status::InProgress,
        ) == tasks.len(),
    decreases tasks.len(),
{
    reveal(Seq::filter);
    if tasks.len() > 0 {
        lemma_status_counts(tasks.drop_last());
    }
}

/// The statistics total equals the number of listed tasks and the sum of the
/// completed, pending and in-progress counts.
pub proof fn lemma_statistics_total(s: StoreView, stats: Statistics, listed: Seq<&Task>)
    requires
        stats.describes(s.tasks),
        views_of(listed) == s.tasks,
    ensures
        stats.total == listed.len(),
        stats.total == stats.completed + stats.pending + stats.in_progress,
{
    lemma_status_counts(s.tasks);
    assert(views_of(listed).len() == listed.len());
}

} // verus!
