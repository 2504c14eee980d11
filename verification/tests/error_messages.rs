use taskboard::errors::AppError;

#[test]
fn not_found_describes_resource_and_id() {
    let e = AppError::not_found("Task", 42);
    assert_eq!(e.describe(), "Task with ID 42 not found");
}

#[test]
fn validation_error_describes_field_and_message() {
    let e = AppError::validation_error("title", "must not be empty");
    assert_eq!(e.describe(), "Validation Error in 'title': must not be empty");
}

#[test]
fn database_error_describes_detail() {
    let e = AppError::database_error("connection refused");
    assert_eq!(e.describe(), "Database Error: connection refused");
}

#[test]
fn unauthorized_describes_user_and_action() {
    let e = AppError::unauthorized(-7, "close");
    assert_eq!(e.describe(), "User -7 is unauthorized to perform action: close");
}

#[test]
fn forbidden_describes_user_and_action() {
    let e = AppError::forbidden(3, "archive");
    assert_eq!(e.describe(), "User 3 is forbidden from performing action: archive");
}

#[test]
fn invalid_input_and_permission_denied_describe_their_message() {
    let e = AppError::invalid_input("bad payload");
    assert_eq!(e.describe(), "Invalid Input: bad payload");
    let e = AppError::permission_denied("read only");
    assert_eq!(e.describe(), "Permission Denied: read only");
    let e = AppError::NotImplemented("recurrence expansion".to_string());
    assert_eq!(e.describe(), "Not Implemented: recurrence expansion");
}
