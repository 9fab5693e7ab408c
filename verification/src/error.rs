//! The errors: of reading stored text, of an operation on the store, and of
//! the store itself.

use vstd::prelude::*;
use crate::text::{contains_text, str_contains};

verus! {

/// Why a stored text could not be turned back into a value.
#[derive(Clone, Copy, Debug, PartialEq, Eq, Structural)]
pub enum EncodingError {
    /// The text is not a decimal number.
    InvalidDecimal,
    /// The text is not a date or a date and time in the fixed storage format.
    InvalidTimestamp,
    /// The text is none of the tokens of the enumeration.
    InvalidEnumValue,
}

/// Why an operation on the store did not give the result that was asked for.
#[derive(Clone, Copy, Debug, PartialEq, Eq, Structural)]
pub enum ApiError {
    /// A field of the input is blank or malformed; the caller can mend it.
    InvalidInput,
    /// No row has the identifier, or the row that has it was deleted.
    NotFound,
    /// The write would have given two rows what only one may have.
    Conflict,
    /// The storage engine failed for any other reason.
    InternalError,
}

impl ApiError {
    /// The HTTP status that stands for the error.
    pub open spec fn status(self) -> u16 {
        match self {
            ApiError::InvalidInput => 400,
            ApiError::NotFound => 404,
            ApiError::Conflict => 409,
            ApiError::InternalError => 500,
        }
    }

    /// The HTTP status that stands for the error.
    pub fn status_code(&self) -> (code: u16)
        ensures
            code == self.status(),
    {
        match self {
            ApiError::InvalidInput => 400,
            ApiError::NotFound => 404,
            ApiError::Conflict => 409,
            ApiError::InternalError => 500,
        }
    }
}

/// That an order could not be created. Which insert failed, and why, is not
/// said: nothing of the order was kept.
#[derive(Clone, Copy, Debug, PartialEq, Eq, Structural)]
pub struct OrderCreationFailed;

impl OrderCreationFailed {
    /// The error that callers of the store see for it.
    pub fn api_error(&self) -> (e: ApiError)
        ensures
            e == ApiError::InternalError,
    {
        ApiError::InternalError
    }
}

/// The words by which the storage engine reports that a write broke a
/// uniqueness constraint.
pub const UNIQUE_VIOLATION: &'static str = "UNIQUE constraint failed";

/// What the storage engine reported instead of a result.
#[derive(Clone, Debug, PartialEq, Eq)]
pub enum StorageError {
    /// The query matched no row.
    NotFound,
    /// The engine failed; the text is its message.
    Failed(String),
}

impl StorageError {
    /// Whether the engine reported a broken uniqueness constraint.
    pub open spec fn is_unique_violation(self) -> bool {
        match self {
            StorageError::NotFound => false,
            StorageError::Failed(message) => contains_text(message@, UNIQUE_VIOLATION@),
        }
    }

    /// The error that a failed read of one row amounts to.
    pub open spec fn read_error_spec(self) -> ApiError {
        match self {
            StorageError::NotFound => ApiError::NotFound,
            StorageError::Failed(_) => ApiError::InternalError,
        }
    }

    /// The error that a failed write amounts to.
    pub open spec fn write_error_spec(self) -> ApiError {
        if self.is_unique_violation() {
            ApiError::Conflict
        } else {
            ApiError::InternalError
        }
    }

    /// The error that callers see when a read of one row failed like this.
    pub fn read_error(&self) -> (e: ApiError)
        ensures
            e == self.read_error_spec(),
    {
        match self {
            StorageError::NotFound => ApiError::NotFound,
            StorageError::Failed(_) => ApiError::InternalError,
        }
    }

    /// The error that callers see when a write failed like this.
    pub fn write_error(&self) -> (e: ApiError)
        ensures
            e == self.write_error_spec(),
    {
        match self {
            StorageError::NotFound => ApiError::InternalError,
            StorageError::Failed(message) => {
                if str_contains(message.as_str(), UNIQUE_VIOLATION) {
                    ApiError::Conflict
                } else {
                    ApiError::InternalError
                }
            },
        }
    }
}

} // verus!
