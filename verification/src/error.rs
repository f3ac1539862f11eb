//! What can go wrong in the library.
use vstd::prelude::*;

verus! {

/// An error of the library.
#[derive(Debug, Clone, PartialEq, Eq)]
pub enum Error {
    /// A text could not be read as what it was taken for.
    ParseError,
    /// A value was built without all it needs. Holds the names of what was
    /// missing.
    UserBuildError {
        /// The names of what was not provided.
        value: Vec<String>,
    },
    /// The authorization failed.
    AuthError,
    /// None of the others.
    UnknownError,
    /// A date or a time has a part that is out of range.
    RangeError,
    /// Something was not as expected; the text says what.
    Hint(String),
}

/// What an error holds.
pub enum ErrorView {
    ParseError,
    UserBuildError { value: Seq<Seq<char>> },
    AuthError,
    UnknownError,
    RangeError,
    Hint(Seq<char>),
}

/// The library's results.
pub type SheetResult<T> = Result<T, Error>;

/// What `format!` writes for the names of what was missing.
pub uninterp spec fn missing_text(value: Seq<Seq<char>>) -> Seq<char>;

/// Writes the names of what was missing with `format!`, as a list in
/// brackets inside a sentence.
#[verifier::external_body]
fn write_missing(value: &Vec<String>) -> (r: String)
    ensures
        r@ == missing_text(Seq::new(value@.len(), |i: int| value@[i]@)),
{
    format!("Value not provided for {:?}.", value)
}

impl View for Error {
    type V = ErrorView;

    open spec fn view(&self) -> ErrorView {
        match self {
            Error::ParseError => ErrorView::ParseError,
            Error::UserBuildError { value } => ErrorView::UserBuildError {
                value: Seq::new(value@.len(), |i: int| value@[i]@),
            },
            Error::AuthError => ErrorView::AuthError,
            Error::UnknownError => ErrorView::UnknownError,
            Error::RangeError => ErrorView::RangeError,
            Error::Hint(hint) => ErrorView::Hint(hint@),
        }
    }
}

impl ErrorView {
    /// What the error says.
    pub open spec fn message(self) -> Seq<char> {
        match self {
            ErrorView::ParseError => "Parse error."@,
            ErrorView::UserBuildError { value } => missing_text(value),
            ErrorView::AuthError => "Authorization failed."@,
            ErrorView::UnknownError => "Unexpected error."@,
            ErrorView::RangeError => "Out of range."@,
            ErrorView::Hint(hint) => hint,
        }
    }
}

impl Error {
    /// What the error says.
    pub fn to_string(&self) -> (r: String)
        ensures
            r@ == self@.message(),
    {
        match self {
            Error::ParseError => "Parse error.".to_owned(),
            Error::UserBuildError { value } => write_missing(value),
            Error::AuthError => "Authorization failed.".to_owned(),
            Error::UnknownError => "Unexpected error.".to_owned(),
            Error::RangeError => "Out of range.".to_owned(),
            Error::Hint(hint) => hint.clone(),
        }
    }
}

} // verus!
