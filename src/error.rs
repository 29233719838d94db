//! Outcomes other than success, and how a transport layer reports them.
use vstd::prelude::*;

verus! {

/// Why an operation did not succeed.
#[derive(Clone, Copy, Debug, PartialEq, Eq, Structural)]
pub enum EnrollError {
    /// No student holds the requested matriculation number.
    NotFound,
    /// Unknown username or wrong password; the two are not told apart.
    Unauthorized,
    /// Registration named a username that is already taken.
    DuplicateUsername,
    /// The student is missing, already matriculated, or the token was taken.
    AssignmentConflict,
    /// The password could not be hashed or checked.
    HashingError,
    /// The store failed for another reason.
    StorageError,
}

pub open spec fn status_of(e: EnrollError) -> u16 {
    match e {
        EnrollError::NotFound => 404,
        EnrollError::Unauthorized => 401,
        EnrollError::DuplicateUsername => 409,
        EnrollError::AssignmentConflict => 400,
        EnrollError::HashingError => 500,
        EnrollError::StorageError => 500,
    }
}

pub open spec fn message_of(e: EnrollError) -> Seq<char> {
    match e {
        EnrollError::NotFound => "Student not found"@,
        EnrollError::Unauthorized => "Invalid credentials"@,
        EnrollError::DuplicateUsername => "Username already exists"@,
        EnrollError::AssignmentConflict => "Bad request: Student not found or already has matric number"@,
        EnrollError::HashingError => "Internal server error"@,
        EnrollError::StorageError => "Internal server error"@,
    }
}

impl EnrollError {
    /// The HTTP status code that reports this outcome; infrastructure faults share one.
    pub fn status_code(&self) -> (r: u16)
        ensures
            r == status_of(*self),
    {
        match self {
            EnrollError::NotFound => 404,
            EnrollError::Unauthorized => 401,
            EnrollError::DuplicateUsername => 409,
            EnrollError::AssignmentConflict => 400,
            EnrollError::HashingError => 500,
            EnrollError::StorageError => 500,
        }
    }

    /// The stable reason text shown to callers; it reveals no storage detail.
    pub fn message(&self) -> (r: String)
        ensures
            r@ == message_of(*self),
    {
        let s: &str = match self {
            EnrollError::NotFound => "Student not found",
            EnrollError::Unauthorized => "Invalid credentials",
            EnrollError::DuplicateUsername => "Username already exists",
            EnrollError::AssignmentConflict => "Bad request: Student not found or already has matric number",
            EnrollError::HashingError => "Internal server error",
            EnrollError::StorageError => "Internal server error",
        };
        s.to_owned()
    }
}

/// The outcome of a failed insert: a username clash, or any other store fault.
pub fn insert_failure(username_taken: bool) -> (r: EnrollError)
    ensures
        r == (if username_taken { EnrollError::DuplicateUsername } else { EnrollError::StorageError }),
{
    if username_taken {
        EnrollError::DuplicateUsername
    } else {
        EnrollError::StorageError
    }
}

/// The outcome of a failed conditional update: another student already holds
/// the token (the count it came from was stale), or any other store fault.
pub fn update_failure(token_taken: bool) -> (r: EnrollError)
    ensures
        r == (if token_taken { EnrollError::AssignmentConflict } else { EnrollError::StorageError }),
{
    if token_taken {
        EnrollError::AssignmentConflict
    } else {
        EnrollError::StorageError
    }
}

} // verus!
