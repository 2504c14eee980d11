use vstd::prelude::*;
use crate::ids::{add_id, count_id, distinct, lemma_add_id_once};
use crate::task;
use crate::task::{Recurrence, Role, Task, TaskStatus, completed_count, dep_ok, deps_ok,
    lemma_completed_count_le, lemma_dep_ok_at, progress_of};
use crate::user;
use crate::user::{User, following_added, wf};

verus! {

/// Completion is one-shot: a successful completion leaves the task in the
/// completed state, and on that state the task service rejects a second
/// completion and leaves the task, its completion stamp included, untouched.
pub proof fn lemma_complete_is_one_shot(pre: Task, post: Task)
    requires
        task::completed(pre, post),
    ensures
        post.status is Completed,
        post.completed_at is Some,
{
}

/// The derived progress is the completed share of the subtasks, rounded down.
pub proof fn lemma_progress_formula(s: Seq<Task>)
    requires
        s.len() > 0,
    ensures
        progress_of(s) == 100 * completed_count(s) / s.len(),
{
    lemma_completed_count_le(s);
    assert(100 * completed_count(s) / s.len() <= 100) by (nonlinear_arith)
        requires
            0 < s.len(),
            completed_count(s) <= s.len(),
    ;
}

/// An operation that does not touch the subtask tree leaves the subtasks and
/// the derived progress exactly as they were; in particular a task without a
/// progress value keeps none through any number of such operations.
pub proof fn lemma_progress_untouched(pre: Task, post: Task)
    requires
        ({
            ||| exists|s: TaskStatus| task::status_set(pre, post, s)
            ||| exists|d: Option<i64>| task::due_date_set(pre, post, d)
            ||| exists|p: Option<i32>| task::priority_set(pre, post, p)
            ||| exists|t: String| task::tag_added(pre, post, t)
            ||| task::completed(pre, post)
            ||| task::archived(pre, post)
            ||| task::deleted(pre, post)
            ||| exists|r: Option<Recurrence>, e: Option<i64>| task::recurrence_set(pre, post, r, e)
            ||| exists|i: i32| task::dependency_added(pre, post, i)
            ||| exists|i: i32, ro: Role| task::collaborator_added(pre, post, i, ro)
            ||| exists|i: i32| task::collaborator_removed(pre, post, i)
            ||| exists|i: i32, ro: Role| task::role_changed(pre, post, i, ro)
            ||| exists|u: i32, c: Seq<char>| task::comment_added(pre, post, u, c)
            ||| exists|k: String, v: String| task::field_added(pre, post, k, v)
            ||| exists|m: Seq<char>| task::activity_appended(pre, post, m)
        }),
    ensures
        post.subtasks == pre.subtasks,
        post.progress == pre.progress,
        pre.progress is None ==> post.progress is None,
{
}

/// Every successful mutating operation on a task appends exactly one entry to
/// its activity log, and the earlier entries stay as they were.
pub proof fn lemma_task_mutation_logs_once(pre: Task, post: Task)
    requires
        ({
            ||| exists|s: TaskStatus| task::status_set(pre, post, s)
            ||| exists|d: Option<i64>| task::due_date_set(pre, post, d)
            ||| exists|p: Option<i32>| task::priority_set(pre, post, p)
            ||| exists|t: String| task::tag_added(pre, post, t)
            ||| exists|t: Task| task::subtask_added(pre, post, t)
            ||| task::completed(pre, post)
            ||| task::archived(pre, post)
            ||| task::deleted(pre, post)
            ||| exists|r: Option<Recurrence>, e: Option<i64>| task::recurrence_set(pre, post, r, e)
            ||| exists|i: i32| task::dependency_added(pre, post, i)
            ||| exists|i: i32, ro: Role| task::collaborator_added(pre, post, i, ro)
            ||| exists|i: i32| task::collaborator_removed(pre, post, i)
            ||| exists|i: i32, ro: Role| task::role_changed(pre, post, i, ro)
            ||| task::progress_updated(pre, post)
            ||| exists|p: u8| task::progress_set(pre, post, p)
            ||| exists|u: i32, c: Seq<char>| task::comment_added(pre, post, u, c)
            ||| exists|k: String, v: String| task::field_added(pre, post, k, v)
            ||| exists|m: Seq<char>| task::activity_appended(pre, post, m)
        }),
    ensures
        post.activity_log@.len() == pre.activity_log@.len() + 1,
        post.activity_log@.subrange(0, pre.activity_log@.len() as int) == pre.activity_log@,
{
}

/// Every successful mutating operation on a user appends exactly one entry to
/// its activity log, and the earlier entries stay as they were.
pub proof fn lemma_user_mutation_logs_once(pre: User, post: User)
    requires
        ({
            ||| exists|n: String| user::name_set(pre, post, n)
            ||| exists|n: String| user::surname_set(pre, post, n)
            ||| exists|n: String| user::email_set(pre, post, n)
            ||| exists|n: String| user::bio_set(pre, post, n)
            ||| exists|n: String| user::image_set(pre, post, n)
            ||| exists|i: i32| user::follower_added(pre, post, i)
            ||| exists|i: i32| user::follower_removed(pre, post, i)
            ||| exists|i: i32| user::following_added(pre, post, i)
            ||| exists|i: i32| user::following_removed(pre, post, i)
            ||| exists|n: String| user::password_updated(pre, post, n)
            ||| exists|r: user::Role| user::role_set(pre, post, r)
            ||| exists|b: bool| user::verification_set(pre, post, b)
            ||| user::archived(pre, post)
            ||| user::deleted(pre, post)
            ||| exists|k: String, v: String| user::field_added(pre, post, k, v)
            ||| exists|m: Seq<char>| user::activity_appended(pre, post, m)
        }),
    ensures
        post.activity_log@.len() == pre.activity_log@.len() + 1,
        post.activity_log@.subrange(0, pre.activity_log@.len() as int) == pre.activity_log@,
{
}

/// With an empty dependency set nothing blocks completion.
pub proof fn lemma_no_deps_can_complete(deps: Seq<i32>, tasks: Seq<Task>)
    requires
        deps.len() == 0,
    ensures
        deps_ok(deps, tasks),
{
}

/// A dependency on an id is satisfied when every task in the collection that
/// carries that id is completed.
proof fn lemma_dep_ok_when_providers_completed(tasks: Seq<Task>, id: i32)
    requires
        forall|j: int| 0 <= j < tasks.len() && tasks[j].id == id ==> tasks[j].status is Completed,
    ensures
        dep_ok(tasks, id),
    decreases tasks.len(),
{
    if tasks.len() > 0 && tasks[0].id != id {
        assert(forall|k: int| 0 <= k < tasks.len() - 1 ==> tasks.skip(1)[k] == tasks[k + 1]);
        lemma_dep_ok_when_providers_completed(tasks.skip(1), id);
    }
}

/// When every referenced dependency that exists in the supplied collection is
/// completed, completion is not blocked; a dependency with no provider in the
/// collection is vacuously satisfied.
pub proof fn lemma_met_dependencies_allow(deps: Seq<i32>, tasks: Seq<Task>)
    requires
        forall|j: int|
            0 <= j < tasks.len() && deps.contains(tasks[j].id) ==> tasks[j].status is Completed,
    ensures
        deps_ok(deps, tasks),
{
    assert forall|i: int| 0 <= i < deps.len() implies dep_ok(tasks, #[trigger] deps[i]) by {
        assert forall|j: int|
            0 <= j < tasks.len() && tasks[j].id == deps[i] implies tasks[j].status
            is Completed by {
            assert(deps.contains(tasks[j].id));
        }
        lemma_dep_ok_when_providers_completed(tasks, deps[i]);
    }
}

/// A dependency whose first provider in the collection is not completed
/// blocks completion.
pub proof fn lemma_unmet_dependency_blocks(deps: Seq<i32>, tasks: Seq<Task>, i: int, j: int)
    requires
        0 <= i < deps.len(),
        0 <= j < tasks.len(),
        tasks[j].id == deps[i],
        forall|k: int| 0 <= k < j ==> tasks[k].id != deps[i],
        !(tasks[j].status is Completed),
    ensures
        !deps_ok(deps, tasks),
{
    lemma_dep_ok_at(tasks, deps[i], j);
}

/// Following the same user twice records the id exactly once: the second call
/// is a no-op, and the following set holds a single instance of the id.
pub proof fn lemma_follow_twice(u0: User, u1: User, u2: User, id: i32)
    requires
        wf(u0),
        u0.following@.contains(id) ==> u1 == u0,
        !u0.following@.contains(id) ==> following_added(u0, u1, id),
        u1.following@.contains(id) ==> u2 == u1,
        !u1.following@.contains(id) ==> following_added(u1, u2, id),
    ensures
        u2.following == u1.following,
        count_id(u2.following@, id) == 1,
{
    lemma_add_id_once(u0.following@, id);
    if u0.following@.contains(id) {
        assert(add_id(u0.following@, id) == u0.following@);
        assert(count_id(u1.following@, id) == 1);
    } else {
        assert(u1.following@ == u0.following@.push(id));
        assert(u1.following@ == add_id(u0.following@, id));
    }
    assert(u1.following@.contains(id));
}

} // verus!
