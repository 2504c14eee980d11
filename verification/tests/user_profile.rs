use taskboard::errors::AppError;
use taskboard::services::UserService;
use taskboard::user::{Role, User};

fn fresh(name: &str) -> User {
    UserService::create_user(1, name.to_string(), "hash".to_string(), Role::Regular).unwrap()
}

#[test]
fn create_user_rejects_empty_credentials() {
    let r = UserService::create_user(1, String::new(), "hash".to_string(), Role::Regular);
    match r {
        Err(AppError::ValidationError { message, .. }) => {
            assert_eq!(message, "Username and password cannot be empty");
        }
        _ => panic!("expected a validation error"),
    }
    let r = UserService::create_user(1, "alice".to_string(), String::new(), Role::Admin);
    assert!(matches!(r, Err(AppError::ValidationError { .. })));
}

#[test]
fn create_user_starts_unverified_and_empty() {
    let u = fresh("alice");
    assert_eq!(u.id, 1);
    assert_eq!(u.username, "alice");
    assert_eq!(u.password_hash, "hash");
    assert!(!u.is_verified);
    assert!(u.name.is_none());
    assert!(u.followers.is_empty());
    assert!(u.following.is_empty());
    assert_eq!(u.created_at, u.updated_at);
    assert!(u.activity_log.is_empty());
}

#[test]
fn update_details_is_a_merge_patch() {
    let mut u = fresh("alice");
    UserService::update_user_details(
        &mut u,
        Some("Alice".to_string()),
        None,
        Some("alice@example.com".to_string()),
    )
    .unwrap();
    assert_eq!(u.name.as_deref(), Some("Alice"));
    assert!(u.surname.is_none());
    assert_eq!(u.email.as_deref(), Some("alice@example.com"));
    assert_eq!(u.activity_log.len(), 2);
    UserService::update_user_details(&mut u, None, Some("Liddell".to_string()), None).unwrap();
    assert_eq!(u.name.as_deref(), Some("Alice"));
    assert_eq!(u.surname.as_deref(), Some("Liddell"));
    assert_eq!(u.activity_log.len(), 3);
}

#[test]
fn follow_twice_keeps_a_single_instance() {
    let mut u = fresh("alice");
    UserService::follow_user(&mut u, 42).unwrap();
    assert_eq!(u.following, vec![42]);
    UserService::follow_user(&mut u, 42).unwrap();
    assert_eq!(u.following, vec![42]);
    assert_eq!(u.following.iter().filter(|&&id| id == 42).count(), 1);
    assert_eq!(u.activity_log.len(), 1);
}

#[test]
fn unfollow_absent_is_a_silent_no_op() {
    let mut u = fresh("alice");
    UserService::unfollow_user(&mut u, 42).unwrap();
    assert!(u.following.is_empty());
    assert!(u.activity_log.is_empty());
    UserService::follow_user(&mut u, 42).unwrap();
    UserService::follow_user(&mut u, 7).unwrap();
    UserService::unfollow_user(&mut u, 42).unwrap();
    assert_eq!(u.following, vec![7]);
    assert_eq!(u.activity_log.len(), 3);
}

#[test]
fn followers_are_idempotent_too() {
    let mut u = fresh("alice");
    u.add_follower(9);
    u.add_follower(9);
    assert_eq!(u.followers, vec![9]);
    u.remove_follower(3);
    assert_eq!(u.followers, vec![9]);
    u.remove_follower(9);
    assert!(u.followers.is_empty());
}

#[test]
fn archive_user_is_one_shot() {
    let mut u = fresh("alice");
    assert!(UserService::archive_user(&mut u).is_ok());
    assert!(u.archived_at.is_some());
    let again = UserService::archive_user(&mut u);
    match again {
        Err(AppError::ValidationError { message, .. }) => {
            assert_eq!(message, "User is already archived");
        }
        _ => panic!("expected a validation error"),
    }
}

#[test]
fn delete_user_is_one_shot_and_soft() {
    let mut u = fresh("alice");
    assert!(UserService::delete_user(&mut u).is_ok());
    assert!(u.deleted_at.is_some());
    assert_eq!(u.username, "alice");
    let again = UserService::delete_user(&mut u);
    match again {
        Err(AppError::ValidationError { message, .. }) => {
            assert_eq!(message, "User is already deleted");
        }
        _ => panic!("expected a validation error"),
    }
}

#[test]
fn role_password_and_verification_updates() {
    let mut u = fresh("alice");
    UserService::set_user_role(&mut u, Role::Admin);
    assert!(matches!(u.role, Role::Admin));
    assert!(u.activity_log.last().unwrap().ends_with("Role set to Admin"));
    u.update_password("better-hash".to_string());
    assert_eq!(u.password_hash, "better-hash");
    u.set_verification_status(true);
    assert!(u.is_verified);
    assert!(u.activity_log.last().unwrap().ends_with("Verification status set to true"));
}

#[test]
fn profile_setters_log_their_values() {
    let mut u = fresh("alice");
    u.set_name("Alice".to_string());
    assert!(u.activity_log.last().unwrap().ends_with("Name set to Alice"));
    u.set_surname("Liddell".to_string());
    assert!(u.activity_log.last().unwrap().ends_with("Surname set to Liddell"));
    u.set_email("a@example.com".to_string());
    assert!(u.activity_log.last().unwrap().ends_with("Email set to a@example.com"));
    u.set_bio("explorer".to_string());
    assert!(u.activity_log.last().unwrap().ends_with("Bio updated"));
    u.set_image("portrait.png".to_string());
    assert!(u.activity_log.last().unwrap().ends_with("Profile image updated"));
    assert_eq!(u.activity_log.len(), 5);
}

#[test]
fn user_custom_fields_last_write_wins() {
    let mut u = fresh("alice");
    u.add_custom_field("team".to_string(), "core".to_string());
    u.add_custom_field("team".to_string(), "infra".to_string());
    assert_eq!(u.get_custom_field("team").unwrap(), "infra");
    assert!(u.get_custom_field("tier").is_none());
}

#[test]
fn every_user_mutation_logs_exactly_one_entry() {
    let mut u = fresh("alice");
    let mut expected = 0;
    u.set_name("A".to_string());
    expected += 1;
    assert_eq!(u.activity_log.len(), expected);
    u.add_follower(2);
    expected += 1;
    assert_eq!(u.activity_log.len(), expected);
    u.add_following(3);
    expected += 1;
    assert_eq!(u.activity_log.len(), expected);
    u.remove_following(3);
    expected += 1;
    assert_eq!(u.activity_log.len(), expected);
    u.update_password("h2".to_string());
    expected += 1;
    assert_eq!(u.activity_log.len(), expected);
    u.set_role(Role::Admin);
    expected += 1;
    assert_eq!(u.activity_log.len(), expected);
    u.set_verification_status(false);
    expected += 1;
    assert_eq!(u.activity_log.len(), expected);
    u.add_custom_field("k".to_string(), "v".to_string());
    expected += 1;
    assert_eq!(u.activity_log.len(), expected);
    u.archive_user();
    expected += 1;
    assert_eq!(u.activity_log.len(), expected);
    u.delete_user();
    expected += 1;
    assert_eq!(u.activity_log.len(), expected);
}

#[test]
fn user_log_entries_carry_a_timestamp_prefix() {
    let mut u = fresh("alice");
    u.add_following(42);
    let entry = u.activity_log.last().unwrap();
    let msg = "Started following user 42";
    assert!(entry.ends_with(msg));
    assert!(entry.len() > msg.len());
    assert!(entry.contains(" - "));
}
