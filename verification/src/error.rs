//! Errors reported by an import attempt.

use crate::text::{push_i32, push_i64, signed_decimal};
use vstd::prelude::*;
use vstd::string::*;

verus! {

/// The class of an input/output failure, as far as the importer tells them apart.
#[derive(Clone, Copy, Debug, PartialEq, Eq, Structural)]
pub enum ErrorKind {
    /// The store file, or an input file, is not there.
    NotFound,
    /// An input file holds a row that cannot be decoded, or the store's address is unusable.
    InvalidInput,
    /// Decoded records contradict each other, or a value does not fit the store.
    InvalidData,
    /// No connection to the store could be had.
    NotConnected,
    /// Any other failure, among them a statement that the store refused.
    Other,
}

/// An input/output failure: its class and the text that explains it.
#[derive(Debug, PartialEq, Eq)]
pub struct IoError {
    pub kind: ErrorKind,
    pub message: String,
}

/// Why an import attempt ended without committing.
#[derive(Debug, PartialEq, Eq)]
pub enum Error {
    /// Reading, decoding, validating or writing failed.
    IoError(IoError),
    /// The funds input named by the path holds no fund.
    InvalidFundData(String),
}

/// An input/output failure as contracts speak of it: its class and its text.
pub struct IoErrorView {
    pub kind: ErrorKind,
    pub message: Seq<char>,
}

/// An error as contracts speak of it.
pub enum ErrorView {
    IoError(IoErrorView),
    InvalidFundData(Seq<char>),
}

impl View for IoError {
    type V = IoErrorView;

    open spec fn view(&self) -> IoErrorView {
        IoErrorView { kind: self.kind, message: self.message@ }
    }
}

impl View for Error {
    type V = ErrorView;

    open spec fn view(&self) -> ErrorView {
        match self {
            Error::IoError(e) => ErrorView::IoError(e@),
            Error::InvalidFundData(path) => ErrorView::InvalidFundData(path@),
        }
    }
}

impl IoErrorView {
    /// The same failure, filed under the class `kind`.
    pub open spec fn with_kind(self, kind: ErrorKind) -> IoErrorView {
        IoErrorView { kind, message: self.message }
    }
}

impl ErrorView {
    /// The text that reports the error.
    pub open spec fn text(self) -> Seq<char> {
        match self {
            ErrorView::IoError(e) => e.message,
            ErrorView::InvalidFundData(path) => invalid_fund_data_text(path),
        }
    }

    /// The class of the error, where it is an input/output failure.
    pub open spec fn io_kind(self) -> Option<ErrorKind> {
        match self {
            ErrorView::IoError(e) => Some(e.kind),
            ErrorView::InvalidFundData(_) => None,
        }
    }
}

/// Text of the failure to decode a row of the file at `path`.
pub open spec fn decode_failure_text(path: Seq<char>, cause: Seq<char>) -> Seq<char> {
    "Error in file "@ + path + ".\nCause:\n\t"@ + cause
}

/// Text of the failure to find the challenge that a proposal refers to.
pub open spec fn challenge_not_found_text(challenge_id: int) -> Seq<char> {
    "Challenge with id "@ + signed_decimal(challenge_id) + " not found"@
}

/// Text of the failure to fit a review's rating into the store's column.
pub open spec fn rating_out_of_range_text(rating: int) -> Seq<char> {
    "Rating "@ + signed_decimal(rating) + " is out of range"@
}

/// Text of the failure to find the store's file.
pub open spec fn database_not_found_text(db_url: Seq<char>) -> Seq<char> {
    "database not found: "@ + db_url
}

/// Text of the failure to put the snapshot back.
pub open spec fn restore_failure_text(cause: Seq<char>) -> Seq<char> {
    "backup restore failed: "@ + cause
}

/// Text of the failure to find a first fund in the input at `path`.
pub open spec fn invalid_fund_data_text(path: Seq<char>) -> Seq<char> {
    "Invalid Fund Data: "@ + path
}

impl IoError {
    /// A failure of the class `kind`, explained by `message`.
    pub fn new(kind: ErrorKind, message: String) -> (e: IoError)
        ensures
            e.kind == kind,
            e.message == message,
    {
        IoError { kind, message }
    }

    /// The failure to decode a row of the file at `path`, for the reason `cause`.
    pub fn decode_failure(path: &str, cause: &str) -> (e: IoError)
        ensures
            e.kind == ErrorKind::InvalidInput,
            e.message@ == decode_failure_text(path@, cause@),
    {
        let mut message = String::from_str("Error in file ");
        message.append(path);
        message.append(".\nCause:\n\t");
        message.append(cause);
        IoError { kind: ErrorKind::InvalidInput, message }
    }

    /// The failure to find a challenge with the identifier `challenge_id`.
    pub fn challenge_not_found(challenge_id: i32) -> (e: IoError)
        ensures
            e.kind == ErrorKind::InvalidData,
            e.message@ == challenge_not_found_text(challenge_id as int),
    {
        let mut message = String::from_str("Challenge with id ");
        push_i32(&mut message, challenge_id);
        message.append(" not found");
        IoError { kind: ErrorKind::InvalidData, message }
    }

    /// The failure to fit the rating `rating` of a review into the store's column.
    pub fn rating_out_of_range(rating: i64) -> (e: IoError)
        ensures
            e.kind == ErrorKind::InvalidData,
            e.message@ == rating_out_of_range_text(rating as int),
    {
        let mut message = String::from_str("Rating ");
        push_i64(&mut message, rating);
        message.append(" is out of range");
        IoError { kind: ErrorKind::InvalidData, message }
    }

    /// The failure to find the store's file at `db_url`.
    pub fn database_not_found(db_url: &str) -> (e: IoError)
        ensures
            e.kind == ErrorKind::NotFound,
            e.message@ == database_not_found_text(db_url@),
    {
        let mut message = String::from_str("database not found: ");
        message.append(db_url);
        IoError { kind: ErrorKind::NotFound, message }
    }

    /// The failure to put the snapshot back over the store's file, for the reason `cause`.
    pub fn restore_failure(cause: &str) -> (e: IoError)
        ensures
            e.kind == ErrorKind::Other,
            e.message@ == restore_failure_text(cause@),
    {
        let mut message = String::from_str("backup restore failed: ");
        message.append(cause);
        IoError { kind: ErrorKind::Other, message }
    }
}

impl IoError {
    /// The same failure, filed under the class `kind`.
    pub fn with_kind(self, kind: ErrorKind) -> (e: IoError)
        ensures
            e@ == self@.with_kind(kind),
    {
        IoError { kind, message: self.message }
    }
}

impl Error {
    /// The class of this error, where it is an input/output failure.
    pub fn kind(&self) -> (k: Option<ErrorKind>)
        ensures
            k == self@.io_kind(),
    {
        match self {
            Error::IoError(e) => Some(e.kind),
            Error::InvalidFundData(_) => None,
        }
    }

    /// The text that reports this error.
    pub fn to_string(&self) -> (s: String)
        ensures
            s@ == self@.text(),
    {
        match self {
            Error::IoError(e) => e.message.clone(),
            Error::InvalidFundData(path) => {
                let mut s = String::from_str("Invalid Fund Data: ");
                s.append(path.as_str());
                s
            },
        }
    }
}

} // verus!
