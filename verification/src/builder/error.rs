//! The error of a build: a message and, when another error caused it, the
//! description of that error.
use vstd::prelude::*;
use crate::text::concat3;

verus! {

/// An error of the build.
#[derive(Debug, Clone)]
pub struct Error {
    /// What went wrong.
    pub message: String,
    /// The description of the error that caused it, if any.
    pub source: Option<String>,
}

/// The description of an error: its message, and on a new line the cause.
pub open spec fn error_text(message: Seq<char>, source: Option<Seq<char>>) -> Seq<char> {
    match source {
        Some(s) => message + "\nCaused by: "@ + s,
        None => message,
    }
}

impl Error {
    /// An error with the given message and no cause.
    pub fn new(message: String) -> (result: Self)
        ensures
            result.message == message,
            result.source is None,
    {
        Error { message, source: None }
    }

    /// The error as the failure of a result.
    pub fn result<T>(self) -> (result: Result<T, Error>)
        ensures
            result matches Err(e) && e == self,
    {
        Err(self)
    }

    /// The same error, caused by the given one.
    pub fn from(self, error: String) -> (result: Self)
        ensures
            result.message == self.message,
            result.source == Some(error),
    {
        Error { message: self.message, source: Some(error) }
    }

    /// The description of the error.
    pub fn to_string(&self) -> (result: String)
        ensures
            result@ == error_text(
                self.message@,
                match self.source {
                    Some(s) => Some(s@),
                    None => None,
                },
            ),
    {
        match &self.source {
            Some(s) => concat3(self.message.as_str(), "\nCaused by: ", s.as_str()),
            None => self.message.clone(),
        }
    }
}

} // verus!
