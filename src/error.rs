//! The errors of the repository operations.

use vstd::prelude::*;
use vstd::string::StringExecFns;
use crate::generated::{hyphenated, id_text};
use crate::models::FilmId;

verus! {

/// What can go wrong in a repository operation.
#[derive(Debug, PartialEq, Eq)]
pub enum FilmError {
    /// No film has this id.
    NotFound(FilmId),
    /// A film with this id exists already.
    Conflict(FilmId),
    /// The store could not be reached or refused the operation; the underlying message.
    StorageUnavailable(String),
    /// A field does not fit what the store can represent; what is wrong.
    ValidationFailure(String),
}

/// The descriptive message of an error.
pub open spec fn message_of(e: FilmError) -> Seq<char> {
    match e {
        FilmError::NotFound(id) => "Film with id "@ + hyphenated(id) + " does not exist"@,
        FilmError::Conflict(id) => "Film with id "@ + hyphenated(id) + " already exists"@,
        FilmError::StorageUnavailable(m) => "An error happened while accessing films: "@ + m@,
        FilmError::ValidationFailure(m) => "Invalid film: "@ + m@,
    }
}

impl FilmError {
    /// The descriptive message of this error.
    pub fn message(&self) -> (r: String)
        ensures
            r@ == message_of(*self),
    {
        match self {
            FilmError::NotFound(id) => {
                let mut s = String::from_str("Film with id ");
                s.append(id_text(*id).as_str());
                s.append(" does not exist");
                s
            },
            FilmError::Conflict(id) => {
                let mut s = String::from_str("Film with id ");
                s.append(id_text(*id).as_str());
                s.append(" already exists");
                s
            },
            FilmError::StorageUnavailable(m) => {
                let mut s = String::from_str("An error happened while accessing films: ");
                s.append(m.as_str());
                s
            },
            FilmError::ValidationFailure(m) => {
                let mut s = String::from_str("Invalid film: ");
                s.append(m.as_str());
                s
            },
        }
    }
}

impl Clone for FilmError {
    fn clone(&self) -> (r: FilmError)
        ensures
            r == *self,
    {
        match self {
            FilmError::NotFound(id) => FilmError::NotFound(*id),
            FilmError::Conflict(id) => FilmError::Conflict(*id),
            FilmError::StorageUnavailable(m) => FilmError::StorageUnavailable(m.clone()),
            FilmError::ValidationFailure(m) => FilmError::ValidationFailure(m.clone()),
        }
    }
}

} // verus!
