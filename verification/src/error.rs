//! The ways in which an operation of the binding can fail.
use vstd::prelude::*;

verus! {

/// Why an operation failed.
#[derive(Debug, PartialEq, Eq)]
pub enum Error {
    /// The engine has no dictionary for what was asked; the text is the
    /// engine's own message, or a fixed one where it gave none.
    NotFound(String),
    /// The text cannot be handed to the engine: an empty word to check, or a
    /// text that holds a null byte.
    InvalidInput,
    /// The engine reported an internal failure, with its message.
    Engine(String),
}

/// An error as plain values: the variant, and the characters of its message.
pub enum ErrorView {
    NotFound(Seq<char>),
    InvalidInput,
    Engine(Seq<char>),
}

impl View for Error {
    type V = ErrorView;

    open spec fn view(&self) -> ErrorView {
        match self {
            Error::NotFound(m) => ErrorView::NotFound(m@),
            Error::InvalidInput => ErrorView::InvalidInput,
            Error::Engine(m) => ErrorView::Engine(m@),
        }
    }
}

/// A result as plain values.
pub open spec fn outcome<T: View>(r: Result<T, Error>) -> Result<T::V, ErrorView> {
    match r {
        Ok(v) => Ok(v@),
        Err(e) => Err(e@),
    }
}

/// The message of `NotFound` where the engine supplied none.
pub open spec fn not_found_text() -> Seq<char> {
    "dictionary not found"@
}

/// The message of `Engine` where the engine supplied none.
pub open spec fn unknown_failure_text() -> Seq<char> {
    "unknown engine error"@
}

/// The message of `InvalidInput`.
pub open spec fn invalid_input_text() -> Seq<char> {
    "text is empty or holds a null byte"@
}

impl Error {
    /// The human-readable text of the error.
    pub open spec fn message_spec(&self) -> Seq<char> {
        match self {
            Error::NotFound(m) => m@,
            Error::InvalidInput => invalid_input_text(),
            Error::Engine(m) => m@,
        }
    }

    /// The human-readable text of the error, as an owned string.
    pub fn message(&self) -> (r: String)
        ensures
            r@ == self.message_spec(),
    {
        match self {
            Error::NotFound(m) => m.clone(),
            Error::InvalidInput => "text is empty or holds a null byte".to_owned(),
            Error::Engine(m) => m.clone(),
        }
    }
}

} // verus!
