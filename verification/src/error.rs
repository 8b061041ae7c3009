use vstd::prelude::*;

use crate::facade::LoggerError;

verus! {

/// A general error: a message, and optionally the description of the
/// lower-level error it arose from.
pub struct Error {
    pub message: String,
    pub source: Option<String>,
}

impl Error {
    /// Creates an error carrying `message` and no source.
    pub fn new(message: &str) -> (e: Self)
        ensures
            e.message@ == message@,
            e.source is None,
    {
        Error { message: message.to_owned(), source: None }
    }

    /// Attaches the description of the underlying error.
    pub fn with_source(self, source: &str) -> (e: Self)
        ensures
            e.message@ == self.message@,
            e.source matches Some(s) && s@ == source@,
    {
        Error { message: self.message, source: Some(source.to_owned()) }
    }

    /// Wraps a facade error, keeping its description as the source.
    pub fn from_logger_error(err: &LoggerError) -> (e: Self)
        ensures
            e.message@ == "failed to initialize logger"@,
            e.source matches Some(s) && s@ == "logger is already initialized"@,
    {
        Error::new("failed to initialize logger").with_source(err.message())
    }

    /// The error's own message.
    pub fn message(&self) -> (r: &str)
        ensures
            r@ == self.message@,
    {
        self.message.as_str()
    }

    /// The description of the underlying error, if one was attached.
    pub fn source(&self) -> (r: Option<&str>)
        ensures
            match r {
                Some(s) => self.source matches Some(t) && t@ == s@,
                None => self.source is None,
            },
    {
        match &self.source {
            Some(s) => Some(s.as_str()),
            None => None,
        }
    }
}

} // verus!
