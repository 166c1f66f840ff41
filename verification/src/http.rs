//! The errors of the administration interface, as its clients see them.

use vstd::prelude::*;

verus! {

/// What the database says of a statement that it refused.
#[derive(Debug, PartialEq, Eq)]
pub struct DatabaseError {
    pub message: String,
    /// The constraint that the statement broke, if it broke one.
    pub constraint: Option<String>,
}

/// An error of the administration interface.
#[derive(Debug, PartialEq, Eq)]
pub enum Error {
    /// The database refused a statement. What it said stays inside the
    /// server.
    Sqlx(DatabaseError),
    /// Something else went wrong inside the server. What it was stays
    /// inside the server.
    Eyre(String),
    /// The request cannot be processed as it is; the reason is for the
    /// client.
    UnprocessableEntity(String),
    /// The request is at odds with what is there; the reason is for the
    /// client.
    Conflict(String),
}

impl Error {
    /// The HTTP status that tells a client of this error.
    pub open spec fn status(self) -> u16 {
        match self {
            Error::Sqlx(_) | Error::Eyre(_) => 500,
            Error::UnprocessableEntity(_) => 422,
            Error::Conflict(_) => 409,
        }
    }

    /// The words that tell a client of this error. Of an error inside the
    /// server they give nothing away.
    pub open spec fn words(self) -> Seq<char> {
        match self {
            Error::Sqlx(_) => "an internal database error occurred"@,
            Error::Eyre(_) => "an internal server error occurred"@,
            Error::UnprocessableEntity(reason) => reason@,
            Error::Conflict(reason) => reason@,
        }
    }

    /// The HTTP status that tells a client of this error.
    pub fn status_code(&self) -> (code: u16)
        ensures
            code == self.status(),
    {
        match self {
            Error::Sqlx(_) => 500,
            Error::Eyre(_) => 500,
            Error::UnprocessableEntity(_) => 422,
            Error::Conflict(_) => 409,
        }
    }

    /// The words that tell a client of this error.
    pub fn message(&self) -> (text: String)
        ensures
            text@ == self.words(),
    {
        match self {
            Error::Sqlx(_) => "an internal database error occurred".to_owned(),
            Error::Eyre(_) => "an internal server error occurred".to_owned(),
            Error::UnprocessableEntity(reason) => reason.clone(),
            Error::Conflict(reason) => reason.clone(),
        }
    }

    /// The status and the body of the response that tells a client of this
    /// error.
    pub fn into_response(self) -> (response: (u16, String))
        ensures
            response.0 == self.status(),
            response.1@ == self.words(),
    {
        (self.status_code(), self.message())
    }
}

/// Whether `error` says that the constraint `name` was broken.
pub open spec fn breaks(error: Error, name: Seq<char>) -> bool {
    error matches Error::Sqlx(database) && database.constraint matches Some(constraint)
        && constraint@ == name
}

/// Turning the error of a broken constraint into an error of one's choice.
pub trait ResultExt<T> {
    /// Where `self` is the error that the database raises for a statement
    /// that broke the constraint `name`, the error becomes what `map_err`
    /// makes of it. Anything else passes through unchanged.
    fn on_constraint<F: FnOnce(DatabaseError) -> Error>(self, name: &str, map_err: F) -> (r: Result<
        T,
        Error,
    >)
        requires
            forall|database: DatabaseError| call_requires(map_err, (database,)),
    ;
}

impl<T> ResultExt<T> for Result<T, Error> {
    fn on_constraint<F: FnOnce(DatabaseError) -> Error>(self, name: &str, map_err: F) -> (r: Result<
        T,
        Error,
    >)
        ensures
            match self {
                Ok(value) => r == Ok::<T, Error>(value),
                Err(error) => if breaks(error, name@) {
                    r matches Err(mapped) && call_ensures(map_err, (error->Sqlx_0,), mapped)
                } else {
                    r == Err::<T, Error>(error)
                },
            },
    {
        match self {
            Ok(value) => Ok(value),
            Err(Error::Sqlx(database)) => {
                let broken = match &database.constraint {
                    Some(constraint) => crate::text::str_eq(constraint.as_str(), name),
                    None => false,
                };
                if broken {
                    Err(map_err(database))
                } else {
                    Err(Error::Sqlx(database))
                }
            },
            Err(error) => Err(error),
        }
    }
}

} // verus!
