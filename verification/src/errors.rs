//! The typed errors that every request handler can surface.

use vstd::prelude::*;
use vstd::string::StringExecFns;

verus! {

/// Every way a request can fail.  All variants surface to the caller;
/// none is retried internally, and the first error short-circuits its
/// handler without any state being written.
#[derive(Debug, Clone, PartialEq, Eq)]
pub enum AppError {
    UserAlreadyExists,
    InvalidCredentials,
    UserNotFound,
    UserNotFoundInLedger,
    SessionExpired,
    ChallengeNotFound,
    AlreadyParticipating,
    CourseAlreadyExists,
    QuizAlreadyExists,
    RequiredCoursesNotCompleted,
    InsufficientBalance,
    InvalidReward,
    ValidationError,
    NotificationError,
    StorageError(String),
    RemoteCallError(String),
}

impl AppError {
    /// The human-readable description of the error.
    pub open spec fn spec_message(self) -> Seq<char> {
        match self {
            AppError::UserAlreadyExists => "User already exists"@,
            AppError::InvalidCredentials => "Invalid credentials"@,
            AppError::UserNotFound => "User not found"@,
            AppError::UserNotFoundInLedger => "User not found in ledger"@,
            AppError::SessionExpired => "Session token expired"@,
            AppError::ChallengeNotFound => "Challenge not found"@,
            AppError::AlreadyParticipating => "Already participating in this challenge"@,
            AppError::CourseAlreadyExists => "Course already exists"@,
            AppError::QuizAlreadyExists => "Quiz already exists"@,
            AppError::RequiredCoursesNotCompleted => (
            "You have not completed the required courses or quizzes"@),
            AppError::InsufficientBalance => "Insufficient balance"@,
            AppError::InvalidReward => "Invalid reward request"@,
            AppError::ValidationError => "Validation error"@,
            AppError::NotificationError => "Error sending notification"@,
            AppError::StorageError(e) => "Storage error: "@ + e@,
            AppError::RemoteCallError(e) => "Remote call error: "@ + e@,
        }
    }

    /// Renders the error for callers; `Display` stays off verified types,
    /// so this method takes its place.
    pub fn message(&self) -> (r: String)
        ensures
            r@ == self.spec_message(),
    {
        match self {
            AppError::UserAlreadyExists => "User already exists".to_owned(),
            AppError::InvalidCredentials => "Invalid credentials".to_owned(),
            AppError::UserNotFound => "User not found".to_owned(),
            AppError::UserNotFoundInLedger => "User not found in ledger".to_owned(),
            AppError::SessionExpired => "Session token expired".to_owned(),
            AppError::ChallengeNotFound => "Challenge not found".to_owned(),
            AppError::AlreadyParticipating => "Already participating in this challenge".to_owned(),
            AppError::CourseAlreadyExists => "Course already exists".to_owned(),
            AppError::QuizAlreadyExists => "Quiz already exists".to_owned(),
            AppError::RequiredCoursesNotCompleted => (
            "You have not completed the required courses or quizzes".to_owned()),
            AppError::InsufficientBalance => "Insufficient balance".to_owned(),
            AppError::InvalidReward => "Invalid reward request".to_owned(),
            AppError::ValidationError => "Validation error".to_owned(),
            AppError::NotificationError => "Error sending notification".to_owned(),
            AppError::StorageError(e) => {
                let mut s = "Storage error: ".to_owned();
                s.append(e.as_str());
                s
            },
            AppError::RemoteCallError(e) => {
                let mut s = "Remote call error: ".to_owned();
                s.append(e.as_str());
                s
            },
        }
    }
}

} // verus!
