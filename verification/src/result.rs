use vstd::prelude::*;

verus! {

/// Why a statement could not be rendered or executed.
#[derive(Debug, PartialEq, Eq)]
pub enum Error {
    /// A piece of text that has to reach the backend as a C string holds a NUL character.
    InvalidCString,
    /// The backend rejected the statement; the payload is the backend's message.
    DatabaseError(String),
    /// A cell of a returned row could not be read as its column's type.
    DeserializationError(DecodeError),
}

/// Why a connection could not be opened.
#[derive(Debug, PartialEq, Eq)]
pub enum ConnectionError {
    /// The connection string holds a NUL character.
    InvalidCString,
    /// The backend refused the connection; the payload is the backend's message.
    BadConnection(String),
}

/// Why the bytes of a cell could not be read as a value of the column's type.
#[derive(Clone, Copy, Debug, PartialEq, Eq, Structural)]
pub enum DecodeError {
    /// The cell is SQL NULL (or lies outside the row) and the type has no NULL.
    UnexpectedNull,
    /// The cell does not have the number of bytes that the type is sent in.
    BadLength,
    /// The cell was declared as text and its bytes are not UTF-8.
    InvalidUtf8,
}

/// Why a transaction did not yield the closure's value.
#[derive(Debug, PartialEq, Eq)]
pub enum TransactionError<E> {
    /// One of the transaction's own statements (opening, committing or rolling back) failed.
    CouldntCreateTransaction(Error),
    /// The closure failed and the transaction was rolled back.
    UserReturnedError(E),
}

pub type QueryResult<T> = Result<T, Error>;

pub type ConnectionResult<T> = Result<T, ConnectionError>;

pub type TransactionResult<T, E> = Result<T, TransactionError<E>>;

impl DecodeError {
    /// A short description of the failure.
    pub fn description(&self) -> (r: &'static str)
        ensures
            r@ == match *self {
                DecodeError::UnexpectedNull => "unexpected null for a non-null column"@,
                DecodeError::BadLength => "unexpected number of bytes for the column's type"@,
                DecodeError::InvalidUtf8 => "text column holds bytes that are not UTF-8"@,
            },
    {
        match self {
            DecodeError::UnexpectedNull => "unexpected null for a non-null column",
            DecodeError::BadLength => "unexpected number of bytes for the column's type",
            DecodeError::InvalidUtf8 => "text column holds bytes that are not UTF-8",
        }
    }
}

} // verus!
