//! The errors that the library reports.

use vstd::prelude::*;

verus! {

/// What went wrong, each kind with a message for the user.
#[derive(Clone, Debug, PartialEq, Eq)]
pub enum DbError {
    /// No pool is held, or the server could not be reached or refused the
    /// credentials.
    Connection(String),
    /// The server rejected or failed a statement.
    Query(String),
    /// An operation ran out of time.
    Timeout(String),
    /// The catalog used an encoding that the library does not know.
    Unsupported(String),
}

/// The result of a fallible operation of the library.
pub type DbResult<T> = Result<T, DbError>;

/// The mathematical value of a [`DbError`].
pub enum DbErrorView {
    Connection(Seq<char>),
    Query(Seq<char>),
    Timeout(Seq<char>),
    Unsupported(Seq<char>),
}

impl View for DbError {
    type V = DbErrorView;

    open spec fn view(&self) -> DbErrorView {
        match self {
            DbError::Connection(m) => DbErrorView::Connection(m@),
            DbError::Query(m) => DbErrorView::Query(m@),
            DbError::Timeout(m) => DbErrorView::Timeout(m@),
            DbError::Unsupported(m) => DbErrorView::Unsupported(m@),
        }
    }
}

impl DbErrorView {
    /// The message that the error carries.
    pub open spec fn message(self) -> Seq<char> {
        match self {
            DbErrorView::Connection(m) => m,
            DbErrorView::Query(m) => m,
            DbErrorView::Timeout(m) => m,
            DbErrorView::Unsupported(m) => m,
        }
    }
}

impl DbError {
    /// The error for a statement that the server rejected or failed, with the
    /// server's message.
    pub fn statement_failed(message: String) -> (error: DbError)
        ensures
            error@ == DbErrorView::Query(message@),
    {
        DbError::Query(message)
    }

    /// The human-readable message of the error.
    pub fn message(&self) -> (m: String)
        ensures
            m@ == self@.message(),
    {
        match self {
            DbError::Connection(m) => m.clone(),
            DbError::Query(m) => m.clone(),
            DbError::Timeout(m) => m.clone(),
            DbError::Unsupported(m) => m.clone(),
        }
    }
}

} // verus!
