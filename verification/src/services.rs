use vstd::prelude::*;
use crate::errors::{AppError, is_validation};
use crate::task;
use crate::task::{Recurrence, Task, TaskStatus};
use crate::user;
use crate::user::{Role, User};

verus! {

/// The task-side mutation engine: each operation either fully applies its
/// effect (one state change plus one audit entry) or has no effect at all and
/// reports a validation error.
pub struct TaskService;

/// The user-side mutation engine, with the same all-or-nothing contract.
pub struct UserService;

/// The fields applied by a merge-patch profile update: each present field is
/// set and logged, each absent field is left untouched.
pub open spec fn details_updated(
    pre: User,
    post: User,
    name: Option<String>,
    surname: Option<String>,
    email: Option<String>,
) -> bool {
    &&& post.name == (match name {
        Some(n) => Some(n),
        None => pre.name,
    })
    &&& post.surname == (match surname {
        Some(s) => Some(s),
        None => pre.surname,
    })
    &&& post.email == (match email {
        Some(e) => Some(e),
        None => pre.email,
    })
    &&& post.password_hash == pre.password_hash
    &&& post.bio == pre.bio
    &&& post.image == pre.image
    &&& post.activity_log@.len() == pre.activity_log@.len() + (if name is Some {
        1int
    } else {
        0int
    }) + (if surname is Some {
        1int
    } else {
        0int
    }) + (if email is Some {
        1int
    } else {
        0int
    })
    &&& post.activity_log@.subrange(0, pre.activity_log@.len() as int) == pre.activity_log@
    &&& user::same_identity(pre, post)
    &&& user::same_social(pre, post)
    &&& user::same_state(pre, post)
    &&& post.custom_fields == pre.custom_fields
}

impl TaskService {
    /// Creates a task; an empty title is rejected with a validation error.
    pub fn create_task(title: String, description: Option<String>) -> (r: Result<Task, AppError>)
        ensures
            title@.len() == 0 ==> (r matches Err(e) && is_validation(
                e,
                ""@,
                "Title cannot be empty"@,
            )),
            title@.len() > 0 ==> (r matches Ok(t) && task::fresh_task(t, title, description)),
    {
        if title.as_str().is_empty() {
            return Err(AppError::validation_error("", "Title cannot be empty"));
        }
        Ok(Task::new(title, description))
    }

    /// Completes the task; a task that is already completed is left untouched
    /// and the repeated transition is rejected.
    pub fn complete_task(task: &mut Task) -> (r: Result<(), AppError>)
        ensures
            old(task).status is Completed ==> (r matches Err(e) && is_validation(
                e,
                ""@,
                "Task is already completed"@,
            ) && *final(task) == *old(task)),
            !(old(task).status is Completed) ==> r is Ok && task::completed(
                *old(task),
                *final(task),
            ),
    {
        if task.status == TaskStatus::Completed {
            return Err(AppError::validation_error("", "Task is already completed"));
        }
        task.complete();
        Ok(())
    }

    /// Archives the task; the archive marker is one-shot, a second attempt is
    /// rejected and leaves the task untouched.
    pub fn archive_task(task: &mut Task) -> (r: Result<(), AppError>)
        ensures
            old(task).archived_at is Some ==> (r matches Err(e) && is_validation(
                e,
                ""@,
                "Task is already archived"@,
            ) && *final(task) == *old(task)),
            old(task).archived_at is None ==> r is Ok && task::archived(*old(task), *final(task)),
    {
        if task.archived_at.is_some() {
            return Err(AppError::validation_error("", "Task is already archived"));
        }
        task.archive();
        Ok(())
    }

    /// Soft-deletes the task; the delete marker is one-shot, a second attempt
    /// is rejected and leaves the task untouched.
    pub fn delete_task(task: &mut Task) -> (r: Result<(), AppError>)
        ensures
            old(task).deleted_at is Some ==> (r matches Err(e) && is_validation(
                e,
                ""@,
                "Task is already deleted"@,
            ) && *final(task) == *old(task)),
            old(task).deleted_at is None ==> r is Ok && task::deleted(*old(task), *final(task)),
    {
        if task.deleted_at.is_some() {
            return Err(AppError::validation_error("", "Task is already deleted"));
        }
        task.delete();
        Ok(())
    }

    /// Appends a comment; commenting on a completed task is rejected and
    /// leaves the task untouched.
    pub fn add_comment_to_task(task: &mut Task, user_id: i32, comment: String) -> (r: Result<
        (),
        AppError,
    >)
        ensures
            old(task).status is Completed ==> (r matches Err(e) && is_validation(
                e,
                ""@,
                "Cannot add comments to completed tasks"@,
            ) && *final(task) == *old(task)),
            !(old(task).status is Completed) ==> r is Ok && task::comment_added(
                *old(task),
                *final(task),
                user_id,
                comment@,
            ),
    {
        if task.status == TaskStatus::Completed {
            return Err(AppError::validation_error("", "Cannot add comments to completed tasks"));
        }
        task.add_comment(user_id, comment);
        Ok(())
    }

    /// Appends a subtask and recomputes the derived progress; adding to a
    /// completed task is rejected and leaves the task untouched.
    pub fn add_subtask(task: &mut Task, subtask: Task) -> (r: Result<(), AppError>)
        ensures
            old(task).status is Completed ==> (r matches Err(e) && is_validation(
                e,
                ""@,
                "Cannot add subtasks to completed tasks"@,
            ) && *final(task) == *old(task)),
            !(old(task).status is Completed) ==> r is Ok && task::subtask_added(
                *old(task),
                *final(task),
                subtask,
            ),
    {
        if task.status == TaskStatus::Completed {
            return Err(AppError::validation_error("", "Cannot add subtasks to completed tasks"));
        }
        task.add_subtask(subtask);
        Ok(())
    }

    pub fn set_task_due_date(task: &mut Task, due_date: Option<i64>)
        ensures
            task::due_date_set(*old(task), *final(task), due_date),
    {
        task.set_due_date(due_date);
    }

    pub fn set_task_priority(task: &mut Task, priority: Option<i32>)
        ensures
            task::priority_set(*old(task), *final(task), priority),
    {
        task.set_priority(priority);
    }

    pub fn set_task_recurrence(
        task: &mut Task,
        recurrence: Option<Recurrence>,
        recurrence_end: Option<i64>,
    )
        ensures
            task::recurrence_set(*old(task), *final(task), recurrence, recurrence_end),
    {
        task.set_recurrence(recurrence, recurrence_end);
    }
}

impl UserService {
    /// Creates a user; an empty username or password hash is rejected with a
    /// validation error.
    pub fn create_user(id: i32, username: String, password_hash: String, role: Role) -> (r: Result<
        User,
        AppError,
    >)
        ensures
            (username@.len() == 0 || password_hash@.len() == 0) ==> (r matches Err(e)
                && is_validation(e, ""@, "Username and password cannot be empty"@)),
            (username@.len() > 0 && password_hash@.len() > 0) ==> (r matches Ok(u)
                && user::fresh_user(u, id, username, password_hash, role) && user::wf(u)),
    {
        if username.as_str().is_empty() || password_hash.as_str().is_empty() {
            return Err(
                AppError::validation_error("", "Username and password cannot be empty"),
            );
        }
        Ok(User::new(id, username, password_hash, role))
    }

    /// Applies a merge-patch update: each present field is set and logged,
    /// each absent field is left untouched. Never fails.
    pub fn update_user_details(
        user: &mut User,
        name: Option<String>,
        surname: Option<String>,
        email: Option<String>,
    ) -> (r: Result<(), AppError>)
        ensures
            r is Ok,
            details_updated(*old(user), *final(user), name, surname, email),
    {
        let ghost pre_log = old(user).activity_log@;
        match name {
            Some(n) => user.set_name(n),
            None => {},
        }
        match surname {
            Some(s) => user.set_surname(s),
            None => {},
        }
        match email {
            Some(e) => user.set_email(e),
            None => {},
        }
        proof {
            assert(user.activity_log@.subrange(0, pre_log.len() as int) =~= pre_log);
        }
        Ok(())
    }

    /// Starts following a user; following an id that is already followed is a
    /// silent no-op, never an error.
    pub fn follow_user(follower: &mut User, followee_id: i32) -> (r: Result<(), AppError>)
        ensures
            r is Ok,
            old(follower).following@.contains(followee_id) ==> *final(follower) == *old(follower),
            !old(follower).following@.contains(followee_id) ==> user::following_added(
                *old(follower),
                *final(follower),
                followee_id,
            ),
            user::wf(*old(follower)) ==> user::wf(*final(follower)),
    {
        follower.add_following(followee_id);
        Ok(())
    }

    /// Stops following a user; unfollowing an id that is not followed is a
    /// silent no-op, never an error.
    pub fn unfollow_user(follower: &mut User, followee_id: i32) -> (r: Result<(), AppError>)
        ensures
            r is Ok,
            !old(follower).following@.contains(followee_id) ==> *final(follower) == *old(
                follower,
            ),
            old(follower).following@.contains(followee_id) ==> user::following_removed(
                *old(follower),
                *final(follower),
                followee_id,
            ),
            user::wf(*old(follower)) ==> user::wf(*final(follower)),
    {
        follower.remove_following(followee_id);
        Ok(())
    }

    /// Archives the user; the archive marker is one-shot, a second attempt is
    /// rejected and leaves the user untouched.
    pub fn archive_user(user: &mut User) -> (r: Result<(), AppError>)
        ensures
            old(user).archived_at is Some ==> (r matches Err(e) && is_validation(
                e,
                ""@,
                "User is already archived"@,
            ) && *final(user) == *old(user)),
            old(user).archived_at is None ==> r is Ok && user::archived(*old(user), *final(user)),
    {
        if user.archived_at.is_some() {
            return Err(AppError::validation_error("", "User is already archived"));
        }
        user.archive_user();
        Ok(())
    }

    /// Soft-deletes the user; the delete marker is one-shot, a second attempt
    /// is rejected and leaves the user untouched.
    pub fn delete_user(user: &mut User) -> (r: Result<(), AppError>)
        ensures
            old(user).deleted_at is Some ==> (r matches Err(e) && is_validation(
                e,
                ""@,
                "User is already deleted"@,
            ) && *final(user) == *old(user)),
            old(user).deleted_at is None ==> r is Ok && user::deleted(*old(user), *final(user)),
    {
        if user.deleted_at.is_some() {
            return Err(AppError::validation_error("", "User is already deleted"));
        }
        user.delete_user();
        Ok(())
    }

    pub fn set_user_role(user: &mut User, role: Role)
        ensures
            user::role_set(*old(user), *final(user), role),
    {
        user.set_role(role);
    }
}

} // verus!
