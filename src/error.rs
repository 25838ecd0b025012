//! The error kinds of every operation of the library.

use vstd::prelude::*;

verus! {

/// Why an operation failed. Every error ends the operation that raised it.
#[derive(Debug, Clone, PartialEq, Eq)]
pub enum DbError {
    /// The descriptor is not a URI, or names no supported engine.
    InvalidConnectionString,
    /// The session could not be opened; carries the driver's message.
    ConnectionError(String),
    /// No session is registered under the name.
    UnknownConnectionName(String),
    /// The engine rejected the query or failed while answering it.
    QueryError(String),
    /// The key-value command text holds no word.
    EmptyCommand,
    /// The export format is not one of the supported tags.
    UnsupportedFormat(String),
    /// The export destination could not be written.
    IoError(String),
}

/// The text shown to a user for an error.
pub open spec fn error_message(e: DbError) -> Seq<char> {
    match e {
        DbError::InvalidConnectionString => "Invalid connection string"@,
        DbError::ConnectionError(m) => m@,
        DbError::UnknownConnectionName(n) => "Connection not found: "@ + n@,
        DbError::QueryError(m) => m@,
        DbError::EmptyCommand => "Empty command"@,
        DbError::UnsupportedFormat(f) => "Unsupported format: "@ + f@,
        DbError::IoError(m) => m@,
    }
}

impl DbError {
    /// The text shown to a user for this error.
    pub fn message(&self) -> (r: String)
        ensures
            r@ == error_message(*self),
    {
        match self {
            DbError::InvalidConnectionString => String::from_str("Invalid connection string"),
            DbError::ConnectionError(m) => m.clone(),
            DbError::UnknownConnectionName(n) => {
                let r = String::from_str("Connection not found: ");
                r.concat(n.as_str())
            },
            DbError::QueryError(m) => m.clone(),
            DbError::EmptyCommand => String::from_str("Empty command"),
            DbError::UnsupportedFormat(f) => {
                let r = String::from_str("Unsupported format: ");
                r.concat(f.as_str())
            },
            DbError::IoError(m) => m.clone(),
        }
    }
}

} // verus!
