use vstd::prelude::*;

verus! {

/// What a mutation or a geometry request can fail with.
#[derive(Debug, Clone, PartialEq, Eq)]
pub enum AppError {
    /// The lock over the document could not be taken.
    LockFailure,
    /// A referenced todo, time node or group is absent.
    NotFound(Entity),
    /// The protected default group was the target of a change.
    PermissionDenied(Change),
    /// A timestamp string was malformed.
    ValidationError,
    /// A file could not be read or written.
    IoError(String),
    /// The document could not be encoded or decoded.
    SerializationError(String),
    /// The windowing layer failed.
    PlatformError(String),
    /// Collapse was asked for an edge other than Right or Top.
    UnsupportedOperation,
}

/// The kind of record an error refers to.
#[derive(Debug, Clone, Copy, PartialEq, Eq)]
pub enum Entity {
    Todo,
    TimeNode,
    Group,
}

/// The kind of change that was refused.
#[derive(Debug, Clone, Copy, PartialEq, Eq)]
pub enum Change {
    Modify,
    Delete,
}

/// The readable description of each error.
pub open spec fn message_text(e: AppError) -> Seq<char> {
    match e {
        AppError::LockFailure => "Failed to lock state"@,
        AppError::NotFound(Entity::Todo) => "Todo not found"@,
        AppError::NotFound(Entity::TimeNode) => "Time node not found"@,
        AppError::NotFound(Entity::Group) => "Group not found"@,
        AppError::PermissionDenied(Change::Modify) => "Cannot modify default group"@,
        AppError::PermissionDenied(Change::Delete) => "Cannot delete default group"@,
        AppError::ValidationError => "Invalid date format"@,
        AppError::IoError(m) => m@,
        AppError::SerializationError(m) => m@,
        AppError::PlatformError(m) => m@,
        AppError::UnsupportedOperation => "Unsupported docked edge"@,
    }
}

impl AppError {
    /// A readable description of the error.
    pub fn message(&self) -> (r: String)
        ensures
            r@ == message_text(*self),
    {
        match self {
            AppError::LockFailure => "Failed to lock state".to_owned(),
            AppError::NotFound(Entity::Todo) => "Todo not found".to_owned(),
            AppError::NotFound(Entity::TimeNode) => "Time node not found".to_owned(),
            AppError::NotFound(Entity::Group) => "Group not found".to_owned(),
            AppError::PermissionDenied(Change::Modify) => "Cannot modify default group".to_owned(),
            AppError::PermissionDenied(Change::Delete) => "Cannot delete default group".to_owned(),
            AppError::ValidationError => "Invalid date format".to_owned(),
            AppError::IoError(m) => m.clone(),
            AppError::SerializationError(m) => m.clone(),
            AppError::PlatformError(m) => m.clone(),
            AppError::UnsupportedOperation => "Unsupported docked edge".to_owned(),
        }
    }
}

} // verus!
