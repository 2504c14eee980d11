use vstd::prelude::*;
use vstd::pervasive::VecAdditionalExecFns;
use vstd::string::StringExecFns;
use crate::audit;
use crate::audit::logged;
use crate::fields;
use crate::fields::fields_map;
use crate::text::{dec_int, int_text, opt_int_text, opt_i64_text, opt_i32_text, opt_widen};

verus! {

#[derive(Clone, Copy, Debug, PartialEq, Eq, Structural)]
pub enum TaskStatus {
    Pending,
    InProgress,
    Completed,
}

#[derive(Clone, Copy, Debug, PartialEq, Eq, Structural)]
pub enum Recurrence {
    Daily,
    Weekly,
    Monthly,
    Yearly,
}

#[derive(Clone, Copy, Debug, PartialEq, Eq, Structural)]
pub enum Role {
    Leader,
    Contributor,
}

#[derive(Clone, Copy, Debug, PartialEq, Eq, Structural)]
pub struct Collaborator {
    pub user_id: i32,
    pub role: Role,
}

#[derive(Clone, Debug)]
pub struct Comment {
    pub user_id: i32,
    pub comment: String,
    pub timestamp: i64,
}

/// The central aggregate: a hierarchical, dependency-aware work item with an
/// append-only audit trail. Custom fields are a sequence of writes whose
/// meaning is the key/value mapping where a later write wins.
#[derive(Debug)]
pub struct Task {
    pub id: i32,
    pub title: String,
    pub description: Option<String>,
    pub status: TaskStatus,
    pub created_at: i64,
    pub updated_at: i64,
    pub due_date: Option<i64>,
    pub priority: Option<i32>,
    pub tags: Vec<String>,
    pub subtasks: Vec<Task>,
    pub parent_task: Option<i32>,
    pub assigned_to: Option<i32>,
    pub assigned_by: Option<i32>,
    pub completed_at: Option<i64>,
    pub archived_at: Option<i64>,
    pub deleted_at: Option<i64>,
    pub recurrence: Option<Recurrence>,
    pub recurrence_end: Option<i64>,
    pub dependencies: Vec<i32>,
    pub collaborators: Vec<Collaborator>,
    pub progress: Option<u8>,
    pub comments: Vec<Comment>,
    pub activity_log: Vec<String>,
    pub custom_fields: Vec<(String, String)>,
}

pub open spec fn status_text(s: TaskStatus) -> Seq<char> {
    match s {
        TaskStatus::Pending => "Pending"@,
        TaskStatus::InProgress => "InProgress"@,
        TaskStatus::Completed => "Completed"@,
    }
}

pub fn status_label(s: TaskStatus) -> (r: String)
    ensures
        r@ == status_text(s),
{
    match s {
        TaskStatus::Pending => "Pending".to_owned(),
        TaskStatus::InProgress => "InProgress".to_owned(),
        TaskStatus::Completed => "Completed".to_owned(),
    }
}

pub open spec fn role_text(r: Role) -> Seq<char> {
    match r {
        Role::Leader => "Leader"@,
        Role::Contributor => "Contributor"@,
    }
}

pub fn role_label(r: Role) -> (s: String)
    ensures
        s@ == role_text(r),
{
    match r {
        Role::Leader => "Leader".to_owned(),
        Role::Contributor => "Contributor".to_owned(),
    }
}

pub open spec fn recurrence_text(r: Recurrence) -> Seq<char> {
    match r {
        Recurrence::Daily => "Daily"@,
        Recurrence::Weekly => "Weekly"@,
        Recurrence::Monthly => "Monthly"@,
        Recurrence::Yearly => "Yearly"@,
    }
}

pub open spec fn opt_recurrence_text(r: Option<Recurrence>) -> Seq<char> {
    match r {
        Some(x) => "Some("@ + recurrence_text(x) + ")"@,
        None => "None"@,
    }
}

pub fn opt_recurrence_label(r: Option<Recurrence>) -> (s: String)
    ensures
        s@ == opt_recurrence_text(r),
{
    match r {
        Some(x) => {
            let mut s = "Some(".to_owned();
            match x {
                Recurrence::Daily => s.append("Daily"),
                Recurrence::Weekly => s.append("Weekly"),
                Recurrence::Monthly => s.append("Monthly"),
                Recurrence::Yearly => s.append("Yearly"),
            }
            s.append(")");
            s
        },
        None => "None".to_owned(),
    }
}

/// How many of the subtasks are completed.
pub open spec fn completed_count(s: Seq<Task>) -> nat
    decreases s.len(),
{
    if s.len() == 0 {
        0
    } else {
        completed_count(s.drop_last()) + if s.last().status is Completed {
            1nat
        } else {
            0nat
        }
    }
}

/// The derived progress percentage: the completed share of the subtasks,
/// rounded down.
pub open spec fn progress_of(s: Seq<Task>) -> u8
    recommends
        s.len() > 0,
{
    (100 * completed_count(s) / s.len()) as u8
}

pub proof fn lemma_completed_count_le(s: Seq<Task>)
    ensures
        completed_count(s) <= s.len(),
    decreases s.len(),
{
    if s.len() > 0 {
        lemma_completed_count_le(s.drop_last());
    }
}

/// The dependency on `id` is satisfied: the first task carrying that id, if
/// any, is completed; an id that is absent from the collection is vacuously
/// satisfied.
pub open spec fn dep_ok(tasks: Seq<Task>, id: i32) -> bool
    decreases tasks.len(),
{
    if tasks.len() == 0 {
        true
    } else if tasks[0].id == id {
        tasks[0].status is Completed
    } else {
        dep_ok(tasks.skip(1), id)
    }
}

/// Every dependency of the task is satisfied against the supplied collection.
pub open spec fn deps_ok(deps: Seq<i32>, tasks: Seq<Task>) -> bool {
    forall|i: int| 0 <= i < deps.len() ==> dep_ok(tasks, #[trigger] deps[i])
}

pub proof fn lemma_dep_ok_at(tasks: Seq<Task>, id: i32, j: int)
    requires
        0 <= j < tasks.len(),
        tasks[j].id == id,
        forall|k: int| 0 <= k < j ==> tasks[k].id != id,
    ensures
        dep_ok(tasks, id) == (tasks[j].status is Completed),
    decreases j,
{
    if j > 0 {
        assert(forall|k: int| 0 <= k < j - 1 ==> tasks.skip(1)[k] == tasks[k + 1]);
        lemma_dep_ok_at(tasks.skip(1), id, j - 1);
    }
}

pub proof fn lemma_dep_ok_absent(tasks: Seq<Task>, id: i32)
    requires
        forall|k: int| 0 <= k < tasks.len() ==> tasks[k].id != id,
    ensures
        dep_ok(tasks, id),
    decreases tasks.len(),
{
    if tasks.len() > 0 {
        assert(forall|k: int| 0 <= k < tasks.len() - 1 ==> tasks.skip(1)[k] == tasks[k + 1]);
        lemma_dep_ok_absent(tasks.skip(1), id);
    }
}

/// Some current collaborator carries the user id.
pub open spec fn has_user(s: Seq<Collaborator>, id: i32) -> bool {
    exists|i: int| 0 <= i < s.len() && s[i].user_id == id
}

/// The position of the first collaborator carrying the user id, or -1.
pub open spec fn first_user_index(s: Seq<Collaborator>, id: i32) -> int
    decreases s.len(),
{
    if s.len() == 0 {
        -1
    } else if s[0].user_id == id {
        0
    } else {
        let r = first_user_index(s.skip(1), id);
        if r < 0 {
            -1
        } else {
            r + 1
        }
    }
}

pub proof fn lemma_first_user_index_at(s: Seq<Collaborator>, id: i32, j: int)
    requires
        0 <= j < s.len(),
        s[j].user_id == id,
        forall|k: int| 0 <= k < j ==> s[k].user_id != id,
    ensures
        first_user_index(s, id) == j,
    decreases j,
{
    if j > 0 {
        assert(forall|k: int| 0 <= k < j - 1 ==> s.skip(1)[k] == s[k + 1]);
        lemma_first_user_index_at(s.skip(1), id, j - 1);
    }
}

/// The collaborator list with every entry for the user removed, order kept.
pub open spec fn without_user(s: Seq<Collaborator>, id: i32) -> Seq<Collaborator>
    decreases s.len(),
{
    if s.len() == 0 {
        Seq::empty()
    } else {
        let rest = without_user(s.drop_last(), id);
        if s.last().user_id == id {
            rest
        } else {
            rest.push(s.last())
        }
    }
}

// ---------------------------------------------------------------------------
// Frame predicates: the groups of fields an operation leaves untouched.
// `updated_at` and `activity_log` are always stated separately.
// ---------------------------------------------------------------------------

pub open spec fn same_identity(a: Task, b: Task) -> bool {
    &&& b.id == a.id
    &&& b.title == a.title
    &&& b.description == a.description
    &&& b.created_at == a.created_at
    &&& b.parent_task == a.parent_task
    &&& b.assigned_to == a.assigned_to
    &&& b.assigned_by == a.assigned_by
}

pub open spec fn same_schedule(a: Task, b: Task) -> bool {
    &&& b.due_date == a.due_date
    &&& b.priority == a.priority
    &&& b.recurrence == a.recurrence
    &&& b.recurrence_end == a.recurrence_end
}

pub open spec fn same_markers(a: Task, b: Task) -> bool {
    &&& b.completed_at == a.completed_at
    &&& b.archived_at == a.archived_at
    &&& b.deleted_at == a.deleted_at
}

pub open spec fn same_progress_tree(a: Task, b: Task) -> bool {
    &&& b.subtasks == a.subtasks
    &&& b.progress == a.progress
}

pub open spec fn same_relations(a: Task, b: Task) -> bool {
    &&& b.dependencies == a.dependencies
    &&& b.collaborators == a.collaborators
}

pub open spec fn same_notes(a: Task, b: Task) -> bool {
    &&& b.tags == a.tags
    &&& b.comments == a.comments
    &&& b.custom_fields == a.custom_fields
}

/// Everything except `updated_at` and `activity_log` is untouched.
pub open spec fn frame_all(a: Task, b: Task) -> bool {
    &&& b.status == a.status
    &&& same_identity(a, b)
    &&& same_schedule(a, b)
    &&& same_markers(a, b)
    &&& same_progress_tree(a, b)
    &&& same_relations(a, b)
    &&& same_notes(a, b)
}

// ---------------------------------------------------------------------------
// Operation predicates: what each mutating operation did.
// ---------------------------------------------------------------------------

/// A freshly constructed task: pending, both timestamps equal, all
/// collections empty.
pub open spec fn fresh_task(t: Task, title: String, description: Option<String>) -> bool {
    &&& t.id == 0
    &&& t.title == title
    &&& t.description == description
    &&& t.status is Pending
    &&& t.updated_at == t.created_at
    &&& t.due_date is None
    &&& t.priority is None
    &&& t.tags@ == Seq::<String>::empty()
    &&& t.subtasks@ == Seq::<Task>::empty()
    &&& t.parent_task is None
    &&& t.assigned_to is None
    &&& t.assigned_by is None
    &&& t.completed_at is None
    &&& t.archived_at is None
    &&& t.deleted_at is None
    &&& t.recurrence is None
    &&& t.recurrence_end is None
    &&& t.dependencies@ == Seq::<i32>::empty()
    &&& t.collaborators@ == Seq::<Collaborator>::empty()
    &&& t.progress is None
    &&& t.comments@ == Seq::<Comment>::empty()
    &&& t.activity_log@ == Seq::<String>::empty()
    &&& t.custom_fields@ == Seq::<(String, String)>::empty()
}

pub open spec fn status_set(pre: Task, post: Task, status: TaskStatus) -> bool {
    &&& post.status == status
    &&& logged(pre.activity_log@, post.activity_log@, "Status set to "@ + status_text(status))
    &&& same_identity(pre, post)
    &&& same_schedule(pre, post)
    &&& same_markers(pre, post)
    &&& same_progress_tree(pre, post)
    &&& same_relations(pre, post)
    &&& same_notes(pre, post)
}

pub open spec fn due_date_set(pre: Task, post: Task, due_date: Option<i64>) -> bool {
    &&& post.due_date == due_date
    &&& post.priority == pre.priority
    &&& post.recurrence == pre.recurrence
    &&& post.recurrence_end == pre.recurrence_end
    &&& post.status == pre.status
    &&& logged(pre.activity_log@, post.activity_log@, "Due date set to "@ + opt_int_text(due_date))
    &&& same_identity(pre, post)
    &&& same_markers(pre, post)
    &&& same_progress_tree(pre, post)
    &&& same_relations(pre, post)
    &&& same_notes(pre, post)
}

pub open spec fn priority_set(pre: Task, post: Task, priority: Option<i32>) -> bool {
    &&& post.priority == priority
    &&& post.due_date == pre.due_date
    &&& post.recurrence == pre.recurrence
    &&& post.recurrence_end == pre.recurrence_end
    &&& post.status == pre.status
    &&& logged(
        pre.activity_log@,
        post.activity_log@,
        "Priority set to "@ + opt_int_text(opt_widen(priority)),
    )
    &&& same_identity(pre, post)
    &&& same_markers(pre, post)
    &&& same_progress_tree(pre, post)
    &&& same_relations(pre, post)
    &&& same_notes(pre, post)
}

pub open spec fn tag_added(pre: Task, post: Task, tag: String) -> bool {
    &&& post.tags@ == pre.tags@.push(tag)
    &&& post.comments == pre.comments
    &&& post.custom_fields == pre.custom_fields
    &&& post.status == pre.status
    &&& post.updated_at == pre.updated_at
    &&& logged(pre.activity_log@, post.activity_log@, "Tag '"@ + tag@ + "' added"@)
    &&& same_identity(pre, post)
    &&& same_schedule(pre, post)
    &&& same_markers(pre, post)
    &&& same_progress_tree(pre, post)
    &&& same_relations(pre, post)
}

pub open spec fn subtask_added(pre: Task, post: Task, subtask: Task) -> bool {
    &&& post.subtasks@ == pre.subtasks@.push(subtask)
    &&& post.progress == Some(progress_of(post.subtasks@))
    &&& post.status == pre.status
    &&& post.updated_at == pre.updated_at
    &&& logged(pre.activity_log@, post.activity_log@, "Subtask added"@)
    &&& same_identity(pre, post)
    &&& same_schedule(pre, post)
    &&& same_markers(pre, post)
    &&& same_relations(pre, post)
    &&& same_notes(pre, post)
}

pub open spec fn completed(pre: Task, post: Task) -> bool {
    &&& post.status is Completed
    &&& post.completed_at == Some(post.updated_at)
    &&& post.archived_at == pre.archived_at
    &&& post.deleted_at == pre.deleted_at
    &&& logged(pre.activity_log@, post.activity_log@, "Task completed"@)
    &&& same_identity(pre, post)
    &&& same_schedule(pre, post)
    &&& same_progress_tree(pre, post)
    &&& same_relations(pre, post)
    &&& same_notes(pre, post)
}

pub open spec fn archived(pre: Task, post: Task) -> bool {
    &&& post.archived_at == Some(post.updated_at)
    &&& post.completed_at == pre.completed_at
    &&& post.deleted_at == pre.deleted_at
    &&& post.status == pre.status
    &&& logged(pre.activity_log@, post.activity_log@, "Task archived"@)
    &&& same_identity(pre, post)
    &&& same_schedule(pre, post)
    &&& same_progress_tree(pre, post)
    &&& same_relations(pre, post)
    &&& same_notes(pre, post)
}

pub open spec fn deleted(pre: Task, post: Task) -> bool {
    &&& post.deleted_at == Some(post.updated_at)
    &&& post.completed_at == pre.completed_at
    &&& post.archived_at == pre.archived_at
    &&& post.status == pre.status
    &&& logged(pre.activity_log@, post.activity_log@, "Task deleted"@)
    &&& same_identity(pre, post)
    &&& same_schedule(pre, post)
    &&& same_progress_tree(pre, post)
    &&& same_relations(pre, post)
    &&& same_notes(pre, post)
}

pub open spec fn recurrence_set(
    pre: Task,
    post: Task,
    recurrence: Option<Recurrence>,
    recurrence_end: Option<i64>,
) -> bool {
    &&& post.recurrence == recurrence
    &&& post.recurrence_end == recurrence_end
    &&& post.due_date == pre.due_date
    &&& post.priority == pre.priority
    &&& post.status == pre.status
    &&& post.updated_at == pre.updated_at
    &&& logged(
        pre.activity_log@,
        post.activity_log@,
        "Recurrence set to "@ + opt_recurrence_text(recurrence) + ", ends at "@ + opt_int_text(
            recurrence_end,
        ),
    )
    &&& same_identity(pre, post)
    &&& same_markers(pre, post)
    &&& same_progress_tree(pre, post)
    &&& same_relations(pre, post)
    &&& same_notes(pre, post)
}

pub open spec fn dependency_added(pre: Task, post: Task, task_id: i32) -> bool {
    &&& post.dependencies@ == pre.dependencies@.push(task_id)
    &&& post.collaborators == pre.collaborators
    &&& post.status == pre.status
    &&& post.updated_at == pre.updated_at
    &&& logged(
        pre.activity_log@,
        post.activity_log@,
        "Dependency on task "@ + dec_int(task_id as int) + " added"@,
    )
    &&& same_identity(pre, post)
    &&& same_schedule(pre, post)
    &&& same_markers(pre, post)
    &&& same_progress_tree(pre, post)
    &&& same_notes(pre, post)
}

pub open spec fn collaborator_added(pre: Task, post: Task, user_id: i32, role: Role) -> bool {
    &&& post.collaborators@ == pre.collaborators@.push(Collaborator { user_id, role })
    &&& post.dependencies == pre.dependencies
    &&& post.status == pre.status
    &&& post.updated_at == pre.updated_at
    &&& logged(
        pre.activity_log@,
        post.activity_log@,
        "Collaborator "@ + dec_int(user_id as int) + " added with role "@ + role_text(role),
    )
    &&& same_identity(pre, post)
    &&& same_schedule(pre, post)
    &&& same_markers(pre, post)
    &&& same_progress_tree(pre, post)
    &&& same_notes(pre, post)
}

pub open spec fn collaborator_removed(pre: Task, post: Task, user_id: i32) -> bool {
    &&& post.collaborators@ == without_user(pre.collaborators@, user_id)
    &&& post.dependencies == pre.dependencies
    &&& post.status == pre.status
    &&& post.updated_at == pre.updated_at
    &&& logged(
        pre.activity_log@,
        post.activity_log@,
        "Collaborator "@ + dec_int(user_id as int) + " removed"@,
    )
    &&& same_identity(pre, post)
    &&& same_schedule(pre, post)
    &&& same_markers(pre, post)
    &&& same_progress_tree(pre, post)
    &&& same_notes(pre, post)
}

pub open spec fn role_changed(pre: Task, post: Task, user_id: i32, new_role: Role) -> bool {
    &&& has_user(pre.collaborators@, user_id)
    &&& post.collaborators@ == pre.collaborators@.update(
        first_user_index(pre.collaborators@, user_id),
        Collaborator { user_id, role: new_role },
    )
    &&& post.dependencies == pre.dependencies
    &&& post.status == pre.status
    &&& post.updated_at == pre.updated_at
    &&& logged(
        pre.activity_log@,
        post.activity_log@,
        "Role of collaborator "@ + dec_int(user_id as int) + " changed to "@ + role_text(new_role),
    )
    &&& same_identity(pre, post)
    &&& same_schedule(pre, post)
    &&& same_markers(pre, post)
    &&& same_progress_tree(pre, post)
    &&& same_notes(pre, post)
}

pub open spec fn progress_updated(pre: Task, post: Task) -> bool {
    &&& pre.subtasks@.len() > 0
    &&& post.progress == Some(progress_of(pre.subtasks@))
    &&& post.subtasks == pre.subtasks
    &&& post.status == pre.status
    &&& post.updated_at == pre.updated_at
    &&& logged(
        pre.activity_log@,
        post.activity_log@,
        "Progress updated to "@ + dec_int(progress_of(pre.subtasks@) as int) + "%"@,
    )
    &&& same_identity(pre, post)
    &&& same_schedule(pre, post)
    &&& same_markers(pre, post)
    &&& same_relations(pre, post)
    &&& same_notes(pre, post)
}

pub open spec fn progress_set(pre: Task, post: Task, progress: u8) -> bool {
    &&& progress <= 100
    &&& post.progress == Some(progress)
    &&& post.subtasks == pre.subtasks
    &&& post.status == pre.status
    &&& post.updated_at == pre.updated_at
    &&& logged(
        pre.activity_log@,
        post.activity_log@,
        "Progress set to "@ + dec_int(progress as int) + "%"@,
    )
    &&& same_identity(pre, post)
    &&& same_schedule(pre, post)
    &&& same_markers(pre, post)
    &&& same_relations(pre, post)
    &&& same_notes(pre, post)
}

pub open spec fn comment_added(pre: Task, post: Task, user_id: i32, text: Seq<char>) -> bool {
    &&& post.comments@.len() == pre.comments@.len() + 1
    &&& post.comments@.subrange(0, pre.comments@.len() as int) == pre.comments@
    &&& post.comments@.last().user_id == user_id
    &&& post.comments@.last().comment@ == text
    &&& post.tags == pre.tags
    &&& post.custom_fields == pre.custom_fields
    &&& post.status == pre.status
    &&& post.updated_at == pre.updated_at
    &&& logged(
        pre.activity_log@,
        post.activity_log@,
        "Comment added by user "@ + dec_int(user_id as int) + ": "@ + text,
    )
    &&& same_identity(pre, post)
    &&& same_schedule(pre, post)
    &&& same_markers(pre, post)
    &&& same_progress_tree(pre, post)
    &&& same_relations(pre, post)
}

pub open spec fn field_added(pre: Task, post: Task, key: String, value: String) -> bool {
    &&& post.custom_fields@ == pre.custom_fields@.push((key, value))
    &&& fields_map(post.custom_fields@) == fields_map(pre.custom_fields@).insert(key@, value@)
    &&& post.tags == pre.tags
    &&& post.comments == pre.comments
    &&& post.status == pre.status
    &&& post.updated_at == pre.updated_at
    &&& logged(
        pre.activity_log@,
        post.activity_log@,
        "Custom field '"@ + key@ + "' set to '"@ + value@ + "'"@,
    )
    &&& same_identity(pre, post)
    &&& same_schedule(pre, post)
    &&& same_markers(pre, post)
    &&& same_progress_tree(pre, post)
    &&& same_relations(pre, post)
}

/// One audit entry ending with `msg` was appended; nothing else moved.
pub open spec fn activity_appended(pre: Task, post: Task, msg: Seq<char>) -> bool {
    &&& logged(pre.activity_log@, post.activity_log@, msg)
    &&& post.updated_at == pre.updated_at
    &&& frame_all(pre, post)
}

impl Task {
    /// A new task: pending, stamped with the creation time, every collection
    /// empty. Title validation is the task service's concern.
    pub fn new(title: String, description: Option<String>) -> (t: Self)
        ensures
            fresh_task(t, title, description),
    {
        let now = audit::now_millis();
        Task {
            id: 0,
            title,
            description,
            status: TaskStatus::Pending,
            created_at: now,
            updated_at: now,
            due_date: None,
            priority: None,
            tags: Vec::new(),
            subtasks: Vec::new(),
            parent_task: None,
            assigned_to: None,
            assigned_by: None,
            completed_at: None,
            archived_at: None,
            deleted_at: None,
            recurrence: None,
            recurrence_end: None,
            dependencies: Vec::new(),
            collaborators: Vec::new(),
            progress: None,
            comments: Vec::new(),
            activity_log: Vec::new(),
            custom_fields: Vec::new(),
        }
    }

    pub fn set_status(&mut self, status: TaskStatus)
        ensures
            status_set(*old(self), *final(self), status),
    {
        self.status = status;
        self.update_timestamp();
        let mut msg = "Status set to ".to_owned();
        msg.append(status_label(status).as_str());
        self.log_activity(msg);
    }

    pub fn set_due_date(&mut self, due_date: Option<i64>)
        ensures
            due_date_set(*old(self), *final(self), due_date),
    {
        self.due_date = due_date;
        self.update_timestamp();
        let mut msg = "Due date set to ".to_owned();
        msg.append(opt_i64_text(due_date).as_str());
        self.log_activity(msg);
    }

    pub fn set_priority(&mut self, priority: Option<i32>)
        ensures
            priority_set(*old(self), *final(self), priority),
    {
        self.priority = priority;
        self.update_timestamp();
        let mut msg = "Priority set to ".to_owned();
        msg.append(opt_i32_text(priority).as_str());
        self.log_activity(msg);
    }

    pub fn add_tag(&mut self, tag: String)
        ensures
            tag_added(*old(self), *final(self), tag),
    {
        let mut msg = "Tag '".to_owned();
        msg.append(tag.as_str());
        msg.append("' added");
        self.tags.push(tag);
        self.log_activity(msg);
    }

    pub fn add_subtask(&mut self, subtask: Task)
        ensures
            subtask_added(*old(self), *final(self), subtask),
    {
        self.subtasks.push(subtask);
        self.recompute_progress();
        self.log_activity("Subtask added".to_owned());
    }

    /// Marks the task completed. The guard against repeating the transition
    /// is the task service's concern.
    pub fn complete(&mut self)
        ensures
            completed(*old(self), *final(self)),
    {
        let now = audit::now_millis();
        self.status = TaskStatus::Completed;
        self.completed_at = Some(now);
        self.updated_at = now;
        self.log_activity("Task completed".to_owned());
    }

    pub fn archive(&mut self)
        ensures
            archived(*old(self), *final(self)),
    {
        let now = audit::now_millis();
        self.archived_at = Some(now);
        self.updated_at = now;
        self.log_activity("Task archived".to_owned());
    }

    pub fn delete(&mut self)
        ensures
            deleted(*old(self), *final(self)),
    {
        let now = audit::now_millis();
        self.deleted_at = Some(now);
        self.updated_at = now;
        self.log_activity("Task deleted".to_owned());
    }

    pub fn set_recurrence(&mut self, recurrence: Option<Recurrence>, recurrence_end: Option<i64>)
        ensures
            recurrence_set(*old(self), *final(self), recurrence, recurrence_end),
    {
        self.recurrence = recurrence;
        self.recurrence_end = recurrence_end;
        let mut msg = "Recurrence set to ".to_owned();
        msg.append(opt_recurrence_label(recurrence).as_str());
        msg.append(", ends at ");
        msg.append(opt_i64_text(recurrence_end).as_str());
        self.log_activity(msg);
    }

    pub fn add_dependency(&mut self, task_id: i32)
        ensures
            dependency_added(*old(self), *final(self), task_id),
    {
        self.dependencies.push(task_id);
        let mut msg = "Dependency on task ".to_owned();
        msg.append(int_text(task_id as i64).as_str());
        msg.append(" added");
        self.log_activity(msg);
    }

    /// Whether every dependency is satisfied against the supplied collection:
    /// for each dependency id, the first task found with that id must be
    /// completed; an id absent from the collection is vacuously satisfied.
    pub fn can_be_completed(&self, other_tasks: &Vec<Task>) -> (r: bool)
        ensures
            r == deps_ok(self.dependencies@, other_tasks@),
    {
        let mut i: usize = 0;
        while i < self.dependencies.len()
            invariant
                i <= self.dependencies@.len(),
                forall|k: int| 0 <= k < i ==> dep_ok(other_tasks@, #[trigger] self.dependencies@[k]),
            decreases self.dependencies@.len() - i,
        {
            let dep_id = self.dependencies[i];
            match first_status_for(other_tasks, dep_id) {
                Some(st) => {
                    if !(st == TaskStatus::Completed) {
                        assert(!dep_ok(other_tasks@, self.dependencies@[i as int]));
                        return false;
                    }
                },
                None => {},
            }
            i += 1;
        }
        true
    }

    pub fn add_collaborator(&mut self, user_id: i32, role: Role)
        ensures
            collaborator_added(*old(self), *final(self), user_id, role),
    {
        self.collaborators.push(Collaborator { user_id, role });
        let mut msg = "Collaborator ".to_owned();
        msg.append(int_text(user_id as i64).as_str());
        msg.append(" added with role ");
        msg.append(role_label(role).as_str());
        self.log_activity(msg);
    }

    /// Removes every collaborator entry for the user; an entry is logged even
    /// when nothing was removed.
    pub fn remove_collaborator(&mut self, user_id: i32)
        ensures
            collaborator_removed(*old(self), *final(self), user_id),
    {
        let mut kept: Vec<Collaborator> = Vec::new();
        let mut i: usize = 0;
        while i < self.collaborators.len()
            invariant
                i <= self.collaborators@.len(),
                *self == *old(self),
                kept@ == without_user(self.collaborators@.take(i as int), user_id),
            decreases self.collaborators@.len() - i,
        {
            proof {
                assert(self.collaborators@.take(i + 1).drop_last() =~= self.collaborators@.take(
                    i as int,
                ));
                assert(self.collaborators@.take(i + 1).last() == self.collaborators@[i as int]);
            }
            let c = self.collaborators[i];
            if c.user_id != user_id {
                kept.push(c);
            }
            i += 1;
        }
        proof {
            assert(self.collaborators@.take(self.collaborators@.len() as int)
                =~= self.collaborators@);
        }
        self.collaborators = kept;
        let mut msg = "Collaborator ".to_owned();
        msg.append(int_text(user_id as i64).as_str());
        msg.append(" removed");
        self.log_activity(msg);
    }

    /// Updates the first matching collaborator's role; when no collaborator
    /// carries the id, nothing changes and nothing is logged.
    pub fn change_role(&mut self, user_id: i32, new_role: Role)
        ensures
            has_user(old(self).collaborators@, user_id) ==> role_changed(
                *old(self),
                *final(self),
                user_id,
                new_role,
            ),
            !has_user(old(self).collaborators@, user_id) ==> *final(self) == *old(self),
    {
        let mut i: usize = 0;
        while i < self.collaborators.len()
            invariant
                i <= self.collaborators@.len(),
                *self == *old(self),
                forall|k: int| 0 <= k < i ==> self.collaborators@[k].user_id != user_id,
            decreases self.collaborators@.len() - i,
        {
            if self.collaborators[i].user_id == user_id {
                proof {
                    lemma_first_user_index_at(self.collaborators@, user_id, i as int);
                }
                self.collaborators.set(i, Collaborator { user_id, role: new_role });
                let mut msg = "Role of collaborator ".to_owned();
                msg.append(int_text(user_id as i64).as_str());
                msg.append(" changed to ");
                msg.append(role_label(new_role).as_str());
                self.log_activity(msg);
                return ;
            }
            i += 1;
        }
    }

    /// Recomputes the derived progress percentage and logs the new value;
    /// with no subtasks nothing changes and nothing is logged.
    pub fn update_progress(&mut self)
        ensures
            old(self).subtasks@.len() > 0 ==> progress_updated(*old(self), *final(self)),
            old(self).subtasks@.len() == 0 ==> *final(self) == *old(self),
    {
        if self.subtasks.len() > 0 {
            self.recompute_progress();
            let p = match self.progress {
                Some(v) => v,
                None => 0,
            };
            let mut msg = "Progress updated to ".to_owned();
            msg.append(int_text(p as i64).as_str());
            msg.append("%");
            self.log_activity(msg);
        }
    }

    /// Direct override of the progress percentage; a value above 100 is
    /// silently ignored.
    pub fn set_progress(&mut self, progress: u8)
        ensures
            progress <= 100 ==> progress_set(*old(self), *final(self), progress),
            progress > 100 ==> *final(self) == *old(self),
    {
        if progress <= 100 {
            self.progress = Some(progress);
            let mut msg = "Progress set to ".to_owned();
            msg.append(int_text(progress as i64).as_str());
            msg.append("%");
            self.log_activity(msg);
        }
    }

    /// Appends a comment stamped with the current time. The guard against
    /// commenting on a completed task is the task service's concern.
    pub fn add_comment(&mut self, user_id: i32, comment: String)
        ensures
            comment_added(*old(self), *final(self), user_id, comment@),
    {
        let now = audit::now_millis();
        let mut msg = "Comment added by user ".to_owned();
        msg.append(int_text(user_id as i64).as_str());
        msg.append(": ");
        msg.append(comment.as_str());
        let ghost pre_comments = self.comments@;
        self.comments.push(Comment { user_id, comment, timestamp: now });
        proof {
            assert(self.comments@.subrange(0, pre_comments.len() as int) =~= pre_comments);
        }
        self.log_activity(msg);
    }

    /// Appends one audit entry: the current time, a separator, the message.
    pub fn log_activity(&mut self, activity: String)
        ensures
            activity_appended(*old(self), *final(self), activity@),
    {
        let line = audit::stamp_line(activity.as_str());
        let ghost pre = self.activity_log@;
        self.activity_log.push(line);
        proof {
            assert(self.activity_log@.subrange(0, pre.len() as int) =~= pre);
        }
    }

    /// Records a custom field write; a later write to the same key wins.
    pub fn add_custom_field(&mut self, key: String, value: String)
        ensures
            field_added(*old(self), *final(self), key, value),
    {
        let mut msg = "Custom field '".to_owned();
        msg.append(key.as_str());
        msg.append("' set to '");
        msg.append(value.as_str());
        msg.append("'");
        fields::put_field(&mut self.custom_fields, key, value);
        self.log_activity(msg);
    }

    /// The value of the custom field, under last-write-wins semantics.
    pub fn get_custom_field(&self, key: &str) -> (r: Option<&String>)
        ensures
            match r {
                Some(v) => fields_map(self.custom_fields@).contains_key(key@) && v@ == fields_map(
                    self.custom_fields@,
                )[key@],
                None => !fields_map(self.custom_fields@).contains_key(key@),
            },
    {
        fields::find_field(&self.custom_fields, key)
    }

    fn update_timestamp(&mut self)
        ensures
            frame_all(*old(self), *final(self)),
            final(self).activity_log == old(self).activity_log,
    {
        self.updated_at = audit::now_millis();
    }

    fn recompute_progress(&mut self)
        ensures
            old(self).subtasks@.len() > 0 ==> final(self).progress == Some(
                progress_of(old(self).subtasks@),
            ),
            old(self).subtasks@.len() == 0 ==> final(self).progress == old(self).progress,
            final(self).subtasks == old(self).subtasks,
            final(self).status == old(self).status,
            final(self).updated_at == old(self).updated_at,
            final(self).activity_log == old(self).activity_log,
            same_identity(*old(self), *final(self)),
            same_schedule(*old(self), *final(self)),
            same_markers(*old(self), *final(self)),
            same_relations(*old(self), *final(self)),
            same_notes(*old(self), *final(self)),
    {
        let total = self.subtasks.len();
        if total > 0 {
            let mut completed_n: usize = 0;
            let mut i: usize = 0;
            while i < total
                invariant
                    *self == *old(self),
                    total == self.subtasks@.len(),
                    i <= total,
                    completed_n <= i,
                    completed_n == completed_count(self.subtasks@.take(i as int)),
                decreases total - i,
            {
                proof {
                    assert(self.subtasks@.take(i + 1).drop_last() =~= self.subtasks@.take(i as int));
                    assert(self.subtasks@.take(i + 1).last() == self.subtasks@[i as int]);
                }
                if self.subtasks[i].status == TaskStatus::Completed {
                    completed_n += 1;
                }
                i += 1;
            }
            proof {
                assert(self.subtasks@.take(total as int) =~= self.subtasks@);
                lemma_completed_count_le(self.subtasks@);
            }
            let share: u128 = (completed_n as u128) * 100 / (total as u128);
            proof {
                assert((completed_n as int) * 100 / (total as int) <= 100) by (nonlinear_arith)
                    requires
                        0 < total,
                        completed_n <= total,
                ;
            }
            self.progress = Some(share as u8);
        }
    }
}

/// The status of the first task carrying `id`, if any; the result decides
/// whether a dependency on `id` is satisfied.
fn first_status_for(tasks: &Vec<Task>, id: i32) -> (r: Option<TaskStatus>)
    ensures
        match r {
            Some(st) => dep_ok(tasks@, id) == (st is Completed),
            None => dep_ok(tasks@, id),
        },
{
    let mut j: usize = 0;
    while j < tasks.len()
        invariant
            j <= tasks@.len(),
            forall|k: int| 0 <= k < j ==> tasks@[k].id != id,
        decreases tasks@.len() - j,
    {
        if tasks[j].id == id {
            proof {
                lemma_dep_ok_at(tasks@, id, j as int);
            }
            return Some(tasks[j].status);
        }
        j += 1;
    }
    proof {
        lemma_dep_ok_absent(tasks@, id);
    }
    None
}

} // verus!
