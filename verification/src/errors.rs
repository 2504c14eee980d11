use vstd::prelude::*;
use vstd::string::StringExecFns;
use crate::text::{dec_int, int_text};

verus! {

/// The failures the aggregate engine and its adapters report. Only
/// `ValidationError` originates from the mutation engine itself; the other
/// variants are constructed by the surrounding adapters.
#[derive(Debug, Clone)]
pub enum AppError {
    NotFound { resource: String, id: i32 },
    ValidationError { field: String, message: String },
    DatabaseError { detail: String },
    Unauthorized { user_id: i32, action: String },
    Forbidden { user_id: i32, action: String },
    NotImplemented(String),
    InvalidInput(String),
    PermissionDenied(String),
}

/// `e` is the validation error with the given field and message.
pub open spec fn is_validation(e: AppError, field: Seq<char>, message: Seq<char>) -> bool {
    &&& e matches AppError::ValidationError { field: f, message: m }
    &&& f@ == field
    &&& m@ == message
}

/// The human-readable description of each error.
pub open spec fn describes(e: AppError) -> Seq<char> {
    match e {
        AppError::NotFound { resource, id } => resource@ + " with ID "@ + dec_int(id as int)
            + " not found"@,
        AppError::ValidationError { field, message } => "Validation Error in '"@ + field@ + "': "@
            + message@,
        AppError::DatabaseError { detail } => "Database Error: "@ + detail@,
        AppError::Unauthorized { user_id, action } => "User "@ + dec_int(user_id as int)
            + " is unauthorized to perform action: "@ + action@,
        AppError::Forbidden { user_id, action } => "User "@ + dec_int(user_id as int)
            + " is forbidden from performing action: "@ + action@,
        AppError::NotImplemented(msg) => "Not Implemented: "@ + msg@,
        AppError::InvalidInput(msg) => "Invalid Input: "@ + msg@,
        AppError::PermissionDenied(msg) => "Permission Denied: "@ + msg@,
    }
}

impl AppError {
    /// The human-readable description of the error.
    pub fn describe(&self) -> (r: String)
        ensures
            r@ == describes(*self),
    {
        match self {
            AppError::NotFound { resource, id } => {
                let mut s = resource.clone();
                s.append(" with ID ");
                s.append(int_text(*id as i64).as_str());
                s.append(" not found");
                s
            },
            AppError::ValidationError { field, message } => {
                let mut s = "Validation Error in '".to_owned();
                s.append(field.as_str());
                s.append("': ");
                s.append(message.as_str());
                s
            },
            AppError::DatabaseError { detail } => {
                let mut s = "Database Error: ".to_owned();
                s.append(detail.as_str());
                s
            },
            AppError::Unauthorized { user_id, action } => {
                let mut s = "User ".to_owned();
                s.append(int_text(*user_id as i64).as_str());
                s.append(" is unauthorized to perform action: ");
                s.append(action.as_str());
                s
            },
            AppError::Forbidden { user_id, action } => {
                let mut s = "User ".to_owned();
                s.append(int_text(*user_id as i64).as_str());
                s.append(" is forbidden from performing action: ");
                s.append(action.as_str());
                s
            },
            AppError::NotImplemented(msg) => {
                let mut s = "Not Implemented: ".to_owned();
                s.append(msg.as_str());
                s
            },
            AppError::InvalidInput(msg) => {
                let mut s = "Invalid Input: ".to_owned();
                s.append(msg.as_str());
                s
            },
            AppError::PermissionDenied(msg) => {
                let mut s = "Permission Denied: ".to_owned();
                s.append(msg.as_str());
                s
            },
        }
    }

    pub fn not_found(resource: &str, id: i32) -> (r: Self)
        ensures
            r matches AppError::NotFound { resource: res, id: i } && res@ == resource@ && i == id,
    {
        AppError::NotFound { resource: resource.to_owned(), id }
    }

    pub fn validation_error(field: &str, message: &str) -> (r: Self)
        ensures
            is_validation(r, field@, message@),
    {
        AppError::ValidationError { field: field.to_owned(), message: message.to_owned() }
    }

    pub fn database_error(detail: &str) -> (r: Self)
        ensures
            r matches AppError::DatabaseError { detail: d } && d@ == detail@,
    {
        AppError::DatabaseError { detail: detail.to_owned() }
    }

    pub fn unauthorized(user_id: i32, action: &str) -> (r: Self)
        ensures
            r matches AppError::Unauthorized { user_id: u, action: a } && u == user_id && a@
                == action@,
    {
        AppError::Unauthorized { user_id, action: action.to_owned() }
    }

    pub fn forbidden(user_id: i32, action: &str) -> (r: Self)
        ensures
            r matches AppError::Forbidden { user_id: u, action: a } && u == user_id && a@
                == action@,
    {
        AppError::Forbidden { user_id, action: action.to_owned() }
    }

    pub fn invalid_input(message: &str) -> (r: Self)
        ensures
            r matches AppError::InvalidInput(m) && m@ == message@,
    {
        AppError::InvalidInput(message.to_owned())
    }

    pub fn permission_denied(message: &str) -> (r: Self)
        ensures
            r matches AppError::PermissionDenied(m) && m@ == message@,
    {
        AppError::PermissionDenied(message.to_owned())
    }
}

} // verus!
