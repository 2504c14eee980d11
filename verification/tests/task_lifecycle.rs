use taskboard::errors::AppError;
use taskboard::services::TaskService;
use taskboard::task::{Collaborator, Role, Recurrence, Task, TaskStatus};

fn fresh(title: &str) -> Task {
    TaskService::create_task(title.to_string(), None).unwrap()
}

#[test]
fn create_task_rejects_empty_title() {
    let r = TaskService::create_task(String::new(), None);
    match r {
        Err(AppError::ValidationError { field, message }) => {
            assert_eq!(field, "");
            assert_eq!(message, "Title cannot be empty");
        }
        _ => panic!("expected a validation error"),
    }
}

#[test]
fn create_task_starts_pending_and_empty() {
    let t = fresh("Ship release");
    assert!(t.status == TaskStatus::Pending);
    assert_eq!(t.title, "Ship release");
    assert_eq!(t.created_at, t.updated_at);
    assert!(t.completed_at.is_none());
    assert!(t.progress.is_none());
    assert!(t.subtasks.is_empty());
    assert!(t.activity_log.is_empty());
}

#[test]
fn complete_twice_fails_and_keeps_stamp() {
    let mut t = fresh("one-shot");
    assert!(TaskService::complete_task(&mut t).is_ok());
    assert!(t.status == TaskStatus::Completed);
    let stamp = t.completed_at;
    assert!(stamp.is_some());
    let log_len = t.activity_log.len();
    let second = TaskService::complete_task(&mut t);
    match second {
        Err(AppError::ValidationError { message, .. }) => {
            assert_eq!(message, "Task is already completed");
        }
        _ => panic!("expected a validation error"),
    }
    assert_eq!(t.completed_at, stamp);
    assert_eq!(t.activity_log.len(), log_len);
}

#[test]
fn archive_is_one_shot() {
    let mut t = fresh("archive me");
    assert!(TaskService::archive_task(&mut t).is_ok());
    let stamp = t.archived_at;
    assert!(stamp.is_some());
    let second = TaskService::archive_task(&mut t);
    match second {
        Err(AppError::ValidationError { message, .. }) => {
            assert_eq!(message, "Task is already archived");
        }
        _ => panic!("expected a validation error"),
    }
    assert_eq!(t.archived_at, stamp);
}

#[test]
fn delete_is_one_shot_and_soft() {
    let mut t = fresh("delete me");
    assert!(TaskService::delete_task(&mut t).is_ok());
    assert!(t.deleted_at.is_some());
    assert_eq!(t.title, "delete me");
    let second = TaskService::delete_task(&mut t);
    match second {
        Err(AppError::ValidationError { message, .. }) => {
            assert_eq!(message, "Task is already deleted");
        }
        _ => panic!("expected a validation error"),
    }
}

#[test]
fn comment_then_complete_then_comment_fails() {
    let mut t = fresh("Ship release");
    assert!(TaskService::add_comment_to_task(&mut t, 7, "Looks good".to_string()).is_ok());
    assert_eq!(t.comments.len(), 1);
    assert_eq!(t.comments[0].user_id, 7);
    assert_eq!(t.comments[0].comment, "Looks good");
    assert!(TaskService::complete_task(&mut t).is_ok());
    assert!(t.status == TaskStatus::Completed);
    assert!(t.completed_at.is_some());
    let late = TaskService::add_comment_to_task(&mut t, 7, "too late".to_string());
    match late {
        Err(AppError::ValidationError { message, .. }) => {
            assert_eq!(message, "Cannot add comments to completed tasks");
        }
        _ => panic!("expected a validation error"),
    }
    assert_eq!(t.comments.len(), 1);
}

#[test]
fn subtask_on_completed_task_fails() {
    let mut t = fresh("parent");
    assert!(TaskService::complete_task(&mut t).is_ok());
    let r = TaskService::add_subtask(&mut t, fresh("child"));
    match r {
        Err(AppError::ValidationError { message, .. }) => {
            assert_eq!(message, "Cannot add subtasks to completed tasks");
        }
        _ => panic!("expected a validation error"),
    }
    assert!(t.subtasks.is_empty());
}

#[test]
fn progress_is_completed_share_rounded_down() {
    let mut t = fresh("parent");
    let mut done = fresh("done");
    done.complete();
    TaskService::add_subtask(&mut t, done).unwrap();
    assert_eq!(t.progress, Some(100));
    TaskService::add_subtask(&mut t, fresh("open a")).unwrap();
    assert_eq!(t.progress, Some(50));
    TaskService::add_subtask(&mut t, fresh("open b")).unwrap();
    assert_eq!(t.progress, Some(33));
}

#[test]
fn progress_recomputes_only_when_asked() {
    let mut t = fresh("parent");
    TaskService::add_subtask(&mut t, fresh("child a")).unwrap();
    TaskService::add_subtask(&mut t, fresh("child b")).unwrap();
    assert_eq!(t.progress, Some(0));
    t.subtasks[0].complete();
    assert_eq!(t.progress, Some(0));
    t.update_progress();
    assert_eq!(t.progress, Some(50));
}

#[test]
fn update_progress_without_subtasks_changes_nothing() {
    let mut t = fresh("leaf");
    let log_len = t.activity_log.len();
    t.update_progress();
    assert!(t.progress.is_none());
    assert_eq!(t.activity_log.len(), log_len);
}

#[test]
fn progress_stays_absent_through_unrelated_operations() {
    let mut t = fresh("quiet");
    t.set_due_date(Some(1_700_000_000_000));
    t.set_priority(Some(3));
    t.add_tag("urgent".to_string());
    t.set_recurrence(Some(Recurrence::Weekly), None);
    t.add_dependency(9);
    t.add_collaborator(4, Role::Contributor);
    t.remove_collaborator(4);
    t.add_comment(1, "note".to_string());
    t.add_custom_field("k".to_string(), "v".to_string());
    assert!(t.progress.is_none());
    assert!(t.subtasks.is_empty());
}

#[test]
fn set_progress_out_of_range_is_silently_ignored() {
    let mut t = fresh("manual");
    t.set_progress(50);
    assert_eq!(t.progress, Some(50));
    let log_len = t.activity_log.len();
    t.set_progress(200);
    assert_eq!(t.progress, Some(50));
    assert_eq!(t.activity_log.len(), log_len);
    t.set_progress(101);
    assert_eq!(t.progress, Some(50));
    assert_eq!(t.activity_log.len(), log_len);
    t.set_progress(100);
    assert_eq!(t.progress, Some(100));
    assert_eq!(t.activity_log.len(), log_len + 1);
}

#[test]
fn can_be_completed_with_no_dependencies() {
    let t = fresh("independent");
    assert!(t.can_be_completed(&Vec::new()));
}

#[test]
fn can_be_completed_checks_existing_dependencies() {
    let mut t = fresh("dependent");
    t.add_dependency(1);
    t.add_dependency(2);

    let mut dep1 = fresh("dep one");
    dep1.id = 1;
    dep1.complete();
    let mut dep2 = fresh("dep two");
    dep2.id = 2;

    let others = vec![dep1, dep2];
    assert!(!t.can_be_completed(&others));

    let mut dep2_done = fresh("dep two");
    dep2_done.id = 2;
    dep2_done.complete();
    let mut dep1_done = fresh("dep one");
    dep1_done.id = 1;
    dep1_done.complete();
    let all_done = vec![dep1_done, dep2_done];
    assert!(t.can_be_completed(&all_done));
}

#[test]
fn unknown_dependencies_are_vacuously_satisfied() {
    let mut t = fresh("dependent");
    t.add_dependency(42);
    assert!(t.can_be_completed(&Vec::new()));
}

#[test]
fn collaborators_append_remove_and_change_role() {
    let mut t = fresh("team");
    t.add_collaborator(4, Role::Contributor);
    t.add_collaborator(4, Role::Contributor);
    assert_eq!(t.collaborators.len(), 2);
    t.change_role(4, Role::Leader);
    assert!(matches!(t.collaborators[0], Collaborator { user_id: 4, role: Role::Leader }));
    assert!(matches!(t.collaborators[1], Collaborator { user_id: 4, role: Role::Contributor }));
    t.remove_collaborator(4);
    assert!(t.collaborators.is_empty());
    let log_len = t.activity_log.len();
    t.remove_collaborator(4);
    assert_eq!(t.activity_log.len(), log_len + 1);
    t.change_role(4, Role::Leader);
    assert_eq!(t.activity_log.len(), log_len + 1);
}

#[test]
fn custom_fields_last_write_wins() {
    let mut t = fresh("annotated");
    assert!(t.get_custom_field("env").is_none());
    t.add_custom_field("env".to_string(), "staging".to_string());
    assert_eq!(t.get_custom_field("env").unwrap(), "staging");
    t.add_custom_field("env".to_string(), "production".to_string());
    assert_eq!(t.get_custom_field("env").unwrap(), "production");
    t.add_custom_field("owner".to_string(), "qa".to_string());
    assert_eq!(t.get_custom_field("env").unwrap(), "production");
    assert_eq!(t.get_custom_field("owner").unwrap(), "qa");
    assert!(t.get_custom_field("missing").is_none());
}

#[test]
fn every_mutation_logs_exactly_one_entry() {
    let mut t = fresh("audited");
    let mut expected = 0;
    assert_eq!(t.activity_log.len(), expected);

    t.set_status(TaskStatus::InProgress);
    expected += 1;
    assert_eq!(t.activity_log.len(), expected);
    t.set_due_date(Some(7));
    expected += 1;
    assert_eq!(t.activity_log.len(), expected);
    t.set_priority(None);
    expected += 1;
    assert_eq!(t.activity_log.len(), expected);
    t.add_tag("tag".to_string());
    expected += 1;
    assert_eq!(t.activity_log.len(), expected);
    t.add_subtask(fresh("sub"));
    expected += 1;
    assert_eq!(t.activity_log.len(), expected);
    t.set_recurrence(Some(Recurrence::Daily), Some(99));
    expected += 1;
    assert_eq!(t.activity_log.len(), expected);
    t.add_dependency(3);
    expected += 1;
    assert_eq!(t.activity_log.len(), expected);
    t.add_collaborator(8, Role::Leader);
    expected += 1;
    assert_eq!(t.activity_log.len(), expected);
    t.change_role(8, Role::Contributor);
    expected += 1;
    assert_eq!(t.activity_log.len(), expected);
    t.remove_collaborator(8);
    expected += 1;
    assert_eq!(t.activity_log.len(), expected);
    t.update_progress();
    expected += 1;
    assert_eq!(t.activity_log.len(), expected);
    t.set_progress(10);
    expected += 1;
    assert_eq!(t.activity_log.len(), expected);
    t.add_comment(2, "hello".to_string());
    expected += 1;
    assert_eq!(t.activity_log.len(), expected);
    t.add_custom_field("a".to_string(), "b".to_string());
    expected += 1;
    assert_eq!(t.activity_log.len(), expected);
    t.complete();
    expected += 1;
    assert_eq!(t.activity_log.len(), expected);
    t.archive();
    expected += 1;
    assert_eq!(t.activity_log.len(), expected);
    t.delete();
    expected += 1;
    assert_eq!(t.activity_log.len(), expected);
}

#[test]
fn log_entries_carry_a_timestamp_prefix_and_the_message() {
    let mut t = fresh("logged");
    t.add_dependency(5);
    let entry = t.activity_log.last().unwrap();
    let msg = "Dependency on task 5 added";
    assert!(entry.ends_with(msg));
    assert!(entry.len() > msg.len());
    assert!(entry.contains(" - "));
}

#[test]
fn log_messages_render_their_values() {
    let mut t = fresh("rendered");
    t.set_priority(Some(-3));
    assert!(t.activity_log.last().unwrap().ends_with("Priority set to Some(-3)"));
    t.set_due_date(None);
    assert!(t.activity_log.last().unwrap().ends_with("Due date set to None"));
    t.set_status(TaskStatus::InProgress);
    assert!(t.activity_log.last().unwrap().ends_with("Status set to InProgress"));
    t.set_recurrence(Some(Recurrence::Monthly), Some(12));
    assert!(t.activity_log.last().unwrap().ends_with(
        "Recurrence set to Some(Monthly), ends at Some(12)"
    ));
    t.add_collaborator(11, Role::Leader);
    assert!(t.activity_log.last().unwrap().ends_with("Collaborator 11 added with role Leader"));
    t.set_progress(40);
    assert!(t.activity_log.last().unwrap().ends_with("Progress set to 40%"));
    t.add_custom_field("env".to_string(), "ci".to_string());
    assert!(t.activity_log.last().unwrap().ends_with("Custom field 'env' set to 'ci'"));
    t.add_comment(6, "ok".to_string());
    assert!(t.activity_log.last().unwrap().ends_with("Comment added by user 6: ok"));
}

#[test]
fn setters_touch_the_update_stamp_fields() {
    let mut t = fresh("stamped");
    t.set_due_date(Some(123));
    assert_eq!(t.due_date, Some(123));
    t.set_priority(Some(2));
    assert_eq!(t.priority, Some(2));
    t.set_recurrence(Some(Recurrence::Yearly), Some(456));
    assert!(matches!(t.recurrence, Some(Recurrence::Yearly)));
    assert_eq!(t.recurrence_end, Some(456));
    TaskService::set_task_due_date(&mut t, None);
    assert_eq!(t.due_date, None);
    TaskService::set_task_priority(&mut t, None);
    assert_eq!(t.priority, None);
    TaskService::set_task_recurrence(&mut t, None, None);
    assert!(t.recurrence.is_none());
    assert!(t.recurrence_end.is_none());
}
