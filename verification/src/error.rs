//! The three outcomes that a caller is told of when a query gives no data.

use vstd::prelude::*;
use crate::models::Teacher;

verus! {

/// Why a request is answered without data.
#[derive(Debug, Clone, PartialEq, Eq)]
pub enum AppError {
    /// The store could not be reached or failed; no detail is passed on.
    InternalError,
    /// The request itself is at fault; the message says how.
    BadRequest(String),
    /// There is nothing to show.
    NotFound,
}

impl AppError {
    /// The HTTP status that stands for the error.
    pub open spec fn status(self) -> int {
        match self {
            AppError::InternalError => 500,
            AppError::BadRequest(_) => 400,
            AppError::NotFound => 404,
        }
    }

    /// The text sent as the response's body.
    pub open spec fn body_text(self) -> Seq<char> {
        match self {
            AppError::InternalError => "Internal Server Error"@,
            AppError::BadRequest(message) => message@,
            AppError::NotFound => "Not Found"@,
        }
    }

    /// The error written out in words.
    pub open spec fn text(self) -> Seq<char> {
        match self {
            AppError::InternalError => "Internal Server Error"@,
            AppError::BadRequest(message) => "Bad Request: "@ + message@,
            AppError::NotFound => "Not Found"@,
        }
    }

    /// The HTTP status that stands for the error: 500, 400 or 404.
    pub fn status_code(&self) -> (r: u16)
        ensures
            r == self.status(),
    {
        match self {
            AppError::InternalError => 500,
            AppError::BadRequest(_) => 400,
            AppError::NotFound => 404,
        }
    }

    /// The text sent as the response's body. An internal error gives a fixed
    /// text, whatever went wrong.
    pub fn body(&self) -> (r: String)
        ensures
            r@ == self.body_text(),
    {
        match self {
            AppError::InternalError => "Internal Server Error".to_owned(),
            AppError::BadRequest(message) => message.clone(),
            AppError::NotFound => "Not Found".to_owned(),
        }
    }

    /// The error written out in words.
    pub fn to_text(&self) -> (r: String)
        ensures
            r@ == self.text(),
    {
        match self {
            AppError::InternalError => "Internal Server Error".to_owned(),
            AppError::BadRequest(message) => "Bad Request: ".to_owned().concat(message.as_str()),
            AppError::NotFound => "Not Found".to_owned(),
        }
    }
}

/// What a caller is told after a list query: a store failure is an internal
/// error, an empty result is "not found", anything else is the result itself.
pub fn list_outcome<E>(found: Result<Vec<Teacher>, E>) -> (r: Result<Vec<Teacher>, AppError>)
    ensures
        match found {
            Ok(records) => if records@.len() == 0 {
                r == Err::<Vec<Teacher>, AppError>(AppError::NotFound)
            } else {
                r == Ok::<Vec<Teacher>, AppError>(records)
            },
            Err(_) => r == Err::<Vec<Teacher>, AppError>(AppError::InternalError),
        },
{
    match found {
        Ok(records) => {
            if records.len() == 0 {
                Err(AppError::NotFound)
            } else {
                Ok(records)
            }
        },
        Err(_) => Err(AppError::InternalError),
    }
}

/// What a caller is told after a lookup: a store failure is an internal error,
/// an absent record is "not found", anything else is the record itself.
pub fn single_outcome<E>(found: Result<Option<Teacher>, E>) -> (r: Result<Teacher, AppError>)
    ensures
        match found {
            Ok(Some(record)) => r == Ok::<Teacher, AppError>(record),
            Ok(None) => r == Err::<Teacher, AppError>(AppError::NotFound),
            Err(_) => r == Err::<Teacher, AppError>(AppError::InternalError),
        },
{
    match found {
        Ok(Some(record)) => Ok(record),
        Ok(None) => Err(AppError::NotFound),
        Err(_) => Err(AppError::InternalError),
    }
}

} // verus!
